//! Transfer objects handed to the user interface.
//!
//! Ids are the 128-bit values of UUIDs; addresses are URL serializations.
use vstd::prelude::*;
use crate::enums::{ContentType, ImageType, ProviderAuthSchema, ProviderVariant};
use crate::ids::{url_parse, parse_url};
use crate::text::owned;

verus! {

/// Identifies a provider: the user on the server and the provider record.
#[derive(Clone, Copy, Debug, PartialEq, Eq, Hash, Structural)]
pub struct ProviderKey {
    pub user_id: u128,
    pub provider_id: u128,
}

/// A content entry of a media item.
#[derive(Debug)]
pub struct ContentDTO {
    pub parent_id: Option<u128>,
    pub parent: Option<MediaItemDTO>,
    pub ty: ContentType,
    pub description: Option<String>,
}

/// An image of a media item.
#[derive(Debug)]
pub struct ImageDTO {
    pub url: String,
    pub server_id: Option<u128>,
    pub provider: Option<ProviderDTO>,
    pub ty: ImageType,
    pub media_items: Option<Vec<MediaItemDTO>>,
}

/// A media item with whatever of its relations were loaded.
#[derive(Debug)]
pub struct MediaItemDTO {
    pub uuid: u128,
    pub kind: String,
    pub outline_gradient: String,
    pub loaded: bool,
    pub local: String,
    pub original: Option<Vec<OriginalDTO>>,
    pub content: Option<Vec<ContentDTO>>,
    pub providers: Option<Vec<ProviderDTO>>,
    pub images: Option<Vec<ImageDTO>>,
    pub children: Option<Vec<MediaItemDTO>>,
    pub parents: Option<Vec<MediaItemDTO>>,
}

/// Where a media item originally came from.
#[derive(Debug)]
pub struct OriginalDTO {
    pub parent_id: Option<u128>,
    pub parent: Option<MediaItemDTO>,
    pub server_id: u128,
}

/// A provider as the user interface sees it.
#[derive(Debug)]
pub struct ProviderDTO {
    pub authenticated: Option<bool>,
    pub key: ProviderKey,
    pub ty: ProviderVariant,
    pub auth_schema: Vec<ProviderAuthSchema>,
    pub url: Option<String>,
    pub media_items: Option<Vec<MediaItemDTO>>,
    pub images: Option<Vec<ImageDTO>>,
}

impl Default for ContentDTO {
    fn default() -> (d: Self)
        ensures
            d.parent_id is None,
            d.parent is None,
            d.ty == ContentType::Unknown,
            d.description is None,
    {
        ContentDTO { parent_id: None, parent: None, ty: ContentType::Unknown, description: None }
    }
}

impl Default for OriginalDTO {
    fn default() -> (d: Self)
        ensures
            d.parent_id is None,
            d.parent is None,
            d.server_id == 0,
    {
        OriginalDTO { parent_id: None, parent: None, server_id: 0 }
    }
}

impl Default for MediaItemDTO {
    fn default() -> (d: Self)
        ensures
            d.uuid == 0,
            d.kind@ == Seq::<char>::empty(),
            d.outline_gradient@ == Seq::<char>::empty(),
            !d.loaded,
            d.local@ == Seq::<char>::empty(),
            d.original is None,
            d.content is None,
            d.providers is None,
            d.images is None,
            d.children is None,
            d.parents is None,
    {
        MediaItemDTO {
            uuid: 0,
            kind: String::new(),
            outline_gradient: String::new(),
            loaded: false,
            local: String::new(),
            original: None,
            content: None,
            providers: None,
            images: None,
            children: None,
            parents: None,
        }
    }
}

impl ImageDTO {
    /// A primary image at `https://example.net`, with nothing else known.
    pub fn new() -> (d: Self)
        ensures
            url_parse("https://example.net"@) == Ok::<Seq<char>, Seq<char>>(d.url@),
            d.ty == ImageType::Primary,
            d.server_id is None,
            d.provider is None,
            d.media_items is None,
    {
        let address = match parse_url("https://example.net") {
            Ok(address) => address,
            Err(_) => owned("https://example.net"),
        };
        ImageDTO {
            url: address,
            ty: ImageType::Primary,
            server_id: None,
            provider: None,
            media_items: None,
        }
    }
}

} // verus!
