//! Records as the indexer and the providers edit them before they are saved:
//! each column is set, unchanged since it was loaded, or not set at all.
use vstd::prelude::*;
use crate::enums::{ContentType, ImageType, MediaItemType, ProviderVariant};

verus! {

/// One column of a record being edited.
#[derive(Debug)]
pub enum ActiveField<T> {
    /// A value given in this edit.
    Assigned(T),
    /// The value the record was loaded with.
    Unchanged(T),
    /// No value.
    NotSet,
}

impl<T: Copy> Clone for ActiveField<T> {
    fn clone(&self) -> (copy: Self)
        ensures
            copy == *self,
    {
        *self
    }
}

impl<T: Copy> Copy for ActiveField<T> {}

impl<T> ActiveField<T> {
    /// The value held, whether set or unchanged.
    pub open spec fn value(self) -> Option<T> {
        match self {
            ActiveField::Assigned(v) => Some(v),
            ActiveField::Unchanged(v) => Some(v),
            ActiveField::NotSet => None,
        }
    }

    /// The value held, whether set or unchanged.
    pub fn try_as_ref(&self) -> (held: Option<&T>)
        ensures
            match held {
                Some(v) => self.value() == Some(*v),
                None => self.value() is None,
            },
    {
        match self {
            ActiveField::Assigned(v) => Some(v),
            ActiveField::Unchanged(v) => Some(v),
            ActiveField::NotSet => None,
        }
    }
}

impl ActiveField<u128> {
    /// Sets the column to `v` unless it already holds `v` unchanged.
    pub fn set_ne(&mut self, v: u128)
        ensures
            *final(self) == (match *old(self) {
                ActiveField::Unchanged(current) => if current == v {
                    *old(self)
                } else {
                    ActiveField::Assigned(v)
                },
                _ => ActiveField::Assigned(v),
            }),
    {
        match self {
            ActiveField::Unchanged(current) => {
                if *current != v {
                    *self = ActiveField::Assigned(v);
                }
            },
            _ => {
                *self = ActiveField::Assigned(v);
            },
        }
    }
}

/// Whether two text columns hold the same state and the same characters.
pub open spec fn same_text_field(a: ActiveField<String>, b: ActiveField<String>) -> bool {
    match (a, b) {
        (ActiveField::Assigned(x), ActiveField::Assigned(y)) => x@ == y@,
        (ActiveField::Unchanged(x), ActiveField::Unchanged(y)) => x@ == y@,
        (ActiveField::NotSet, ActiveField::NotSet) => true,
        _ => false,
    }
}

pub fn text_field_eq(a: &ActiveField<String>, b: &ActiveField<String>) -> (same: bool)
    ensures
        same == same_text_field(*a, *b),
{
    match (a, b) {
        (ActiveField::Assigned(x), ActiveField::Assigned(y)) => *x == *y,
        (ActiveField::Unchanged(x), ActiveField::Unchanged(y)) => *x == *y,
        (ActiveField::NotSet, ActiveField::NotSet) => true,
        _ => false,
    }
}

pub fn clone_text_field(a: &ActiveField<String>) -> (copy: ActiveField<String>)
    ensures
        copy == *a,
{
    match a {
        ActiveField::Assigned(x) => ActiveField::Assigned(x.clone()),
        ActiveField::Unchanged(x) => ActiveField::Unchanged(x.clone()),
        ActiveField::NotSet => ActiveField::NotSet,
    }
}

/// A provider record being edited (the `providers` table).
#[derive(Debug)]
pub struct ProviderActive {
    pub provider_id: ActiveField<u128>,
    pub user_id: ActiveField<u128>,
    pub ty: ActiveField<ProviderVariant>,
    pub url: ActiveField<String>,
}

impl ProviderActive {
    /// A record with no column set.
    pub open spec fn spec_blank() -> ProviderActive {
        ProviderActive {
            provider_id: ActiveField::NotSet,
            user_id: ActiveField::NotSet,
            ty: ActiveField::NotSet,
            url: ActiveField::NotSet,
        }
    }

    /// A record with no column set.
    pub fn blank() -> (r: ProviderActive)
        ensures
            r == ProviderActive::spec_blank(),
    {
        ProviderActive {
            provider_id: ActiveField::NotSet,
            user_id: ActiveField::NotSet,
            ty: ActiveField::NotSet,
            url: ActiveField::NotSet,
        }
    }

    /// A record for a new provider: only the address and the kind are set.
    pub fn with_url_and_ty(url: String, ty: ProviderVariant) -> (r: ProviderActive)
        ensures
            r == (ProviderActive {
                url: ActiveField::Assigned(url),
                ty: ActiveField::Assigned(ty),
                ..ProviderActive::spec_blank()
            }),
    {
        ProviderActive {
            provider_id: ActiveField::NotSet,
            user_id: ActiveField::NotSet,
            ty: ActiveField::Assigned(ty),
            url: ActiveField::Assigned(url),
        }
    }

    /// Same columns in the same states, texts compared by their characters.
    pub open spec fn same_as(self, other: ProviderActive) -> bool {
        &&& self.provider_id == other.provider_id
        &&& self.user_id == other.user_id
        &&& self.ty == other.ty
        &&& same_text_field(self.url, other.url)
    }
}

impl Clone for ProviderActive {
    fn clone(&self) -> (copy: Self)
        ensures
            copy == *self,
    {
        ProviderActive {
            provider_id: self.provider_id,
            user_id: self.user_id,
            ty: self.ty,
            url: clone_text_field(&self.url),
        }
    }
}

impl PartialEq for ProviderActive {
    fn eq(&self, other: &Self) -> (same: bool) {
        id_field_eq(self.provider_id, other.provider_id)
            && id_field_eq(self.user_id, other.user_id)
            && variant_field_eq(self.ty, other.ty)
            && text_field_eq(&self.url, &other.url)
    }
}

impl vstd::std_specs::cmp::PartialEqSpecImpl for ProviderActive {
    open spec fn obeys_eq_spec() -> bool {
        true
    }

    open spec fn eq_spec(&self, other: &ProviderActive) -> bool {
        self.same_as(*other)
    }
}

pub fn id_field_eq(a: ActiveField<u128>, b: ActiveField<u128>) -> (same: bool)
    ensures
        same == (a == b),
{
    match (a, b) {
        (ActiveField::Assigned(x), ActiveField::Assigned(y)) => x == y,
        (ActiveField::Unchanged(x), ActiveField::Unchanged(y)) => x == y,
        (ActiveField::NotSet, ActiveField::NotSet) => true,
        _ => false,
    }
}

pub fn variant_field_eq(a: ActiveField<ProviderVariant>, b: ActiveField<ProviderVariant>) -> (same: bool)
    ensures
        same == (a == b),
{
    match (a, b) {
        (ActiveField::Assigned(x), ActiveField::Assigned(y)) => x == y,
        (ActiveField::Unchanged(x), ActiveField::Unchanged(y)) => x == y,
        (ActiveField::NotSet, ActiveField::NotSet) => true,
        _ => false,
    }
}

/// A source record being edited: which item of which provider a media item
/// was indexed from.
#[derive(Debug, Clone, Copy)]
pub struct SourceActive {
    pub source_id: ActiveField<u128>,
    pub parent_id: ActiveField<u128>,
    pub provider_id: ActiveField<u128>,
}

/// An image record being edited.
#[derive(Debug)]
pub struct ImageActive {
    pub url: ActiveField<String>,
    pub ty: ActiveField<ImageType>,
    pub provider_id: ActiveField<u128>,
    pub provider: Option<ProviderActive>,
}

/// A content record being edited.
#[derive(Debug)]
pub struct ContentActive {
    pub parent_id: ActiveField<u128>,
    pub ty: ActiveField<ContentType>,
    pub description: ActiveField<String>,
}

/// The columns of a media item record being edited.
#[derive(Debug)]
pub struct MediaItemRecord {
    pub music_brainz_id: ActiveField<u128>,
    pub weak_id: ActiveField<String>,
    pub ty: ActiveField<MediaItemType>,
    pub is_tmp: ActiveField<bool>,
    pub outline_gradient: ActiveField<String>,
}

/// A media item record being edited, with the related records that are
/// saved along with it.
#[derive(Debug)]
pub struct MediaItemActive {
    pub record: MediaItemRecord,
    pub providers: Vec<ProviderActive>,
    pub sources: Vec<SourceActive>,
    pub content: Vec<ContentActive>,
    pub images: Vec<ImageActive>,
    pub parents: Vec<MediaItemRecord>,
}

} // verus!
