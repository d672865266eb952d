//! Stored records as they are loaded, each with whatever related records
//! were loaded along with it (a relation that was not loaded is empty).
use vstd::prelude::*;
use crate::enums::{ContentType, ImageType, ProviderVariant};

verus! {

/// A stored content entry.
#[derive(Debug)]
pub struct ContentModel {
    pub id: i32,
    pub parent_id: Option<u128>,
    pub parent: Option<Box<MediaItemModel>>,
    pub ty: ContentType,
    pub description: Option<String>,
}

/// A stored image.
#[derive(Debug)]
pub struct ImageModel {
    pub id: i32,
    pub url: String,
    pub server_id: Option<u128>,
    pub provider: Option<Box<ProviderModel>>,
    pub ty: ImageType,
    pub media_items: Vec<MediaItemModel>,
}

/// A stored media item.
#[derive(Debug)]
pub struct MediaItemModel {
    pub uuid: u128,
    pub kind: String,
    pub outline_gradient: String,
    pub loaded: bool,
    pub local: String,
    pub original: Vec<OriginalModel>,
    pub content: Vec<ContentModel>,
    pub providers: Vec<ProviderModel>,
    pub images: Vec<ImageModel>,
    pub children: Vec<MediaItemModel>,
    pub parents: Vec<MediaItemModel>,
}

/// Where a stored media item originally came from.
#[derive(Debug)]
pub struct OriginalModel {
    pub id: i32,
    pub uuid: u128,
    pub parent_id: Option<u128>,
    pub parent: Option<Box<MediaItemModel>>,
    pub server_id: u128,
}

/// A stored provider.
#[derive(Debug)]
pub struct ProviderModel {
    pub provider_id: u128,
    pub user_id: u128,
    pub ty: ProviderVariant,
    pub url: String,
    pub media_items: Vec<MediaItemModel>,
    pub images: Vec<ImageModel>,
}

} // verus!
