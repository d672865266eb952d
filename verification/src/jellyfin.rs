//! Reading the items a Jellyfin server reports.
use vstd::prelude::*;
use crate::enums::{ContentType, ImageType, MediaItemType};
use crate::error::{IndexerError, JellyfinIndexerError, JourneyDbError};
use crate::ids::{format_uuid, parse_uuid, uuid_from_text, uuid_text, url_parse};
use crate::indexer::{JellyfinIndexer, check_entry};
use crate::provider::url_outcome;
use crate::text::text_eq;

verus! {

/// The kinds of item the server reports that the indexer tells apart.
#[derive(Clone, Copy, Debug, PartialEq, Eq, Structural)]
pub enum ItemKind {
    Audio,
    MusicGenre,
    MusicAlbum,
    MusicArtist,
    Playlist,
    /// Any other kind.
    Other,
}

/// The kinds of image the server reports.
#[derive(Clone, Copy, Debug, PartialEq, Eq, Structural)]
pub enum ServerImageType {
    Primary,
    Art,
    Backdrop,
    Banner,
    Logo,
    Thumb,
    Disc,
    Box,
    Screenshot,
    Menu,
    Chapter,
    BoxRear,
    Profile,
    /// Any other kind.
    Other,
}

/// An artist the server names for an item.
#[derive(Debug)]
pub struct ArtistRef {
    pub id: Option<u128>,
    pub name: Option<String>,
}

/// What the server reports of one item; every entry may be missing.
#[derive(Debug)]
pub struct ItemInfo {
    pub id: Option<u128>,
    pub name: Option<String>,
    pub kind: Option<ItemKind>,
    /// The ids other databases know the item by, as (database, id) pairs
    /// with distinct databases.
    pub provider_ids: Option<Vec<(String, String)>>,
    pub album_id: Option<u128>,
    pub album_artists: Option<Vec<ArtistRef>>,
    pub album: Option<String>,
    pub album_artist: Option<String>,
    pub container: Option<String>,
    /// The premiere date in its display form.
    pub premiere_date: Option<String>,
}

/// An item read from the server, ready to be indexed.
#[derive(Debug)]
pub struct PreparedItem {
    pub source_id: u128,
    pub weak_id: String,
    pub ty: MediaItemType,
    pub music_brainz_id: Option<u128>,
    pub content: Vec<(ContentType, Option<String>)>,
    pub parent_source_ids: Vec<u128>,
}

pub open spec fn spec_item_type(kind: ItemKind) -> MediaItemType {
    match kind {
        ItemKind::Audio => MediaItemType::Audio,
        ItemKind::MusicGenre => MediaItemType::Genre,
        ItemKind::MusicAlbum => MediaItemType::Album,
        ItemKind::MusicArtist => MediaItemType::Artist,
        ItemKind::Playlist => MediaItemType::Playlist,
        ItemKind::Other => MediaItemType::Unknown,
    }
}

pub open spec fn spec_image_type(kind: ServerImageType) -> ImageType {
    match kind {
        ServerImageType::Art => ImageType::Art,
        ServerImageType::Backdrop => ImageType::Backdrop,
        ServerImageType::Banner => ImageType::Banner,
        ServerImageType::Box => ImageType::Box,
        ServerImageType::BoxRear => ImageType::BoxRear,
        ServerImageType::Chapter => ImageType::Chapter,
        ServerImageType::Disc => ImageType::Disc,
        ServerImageType::Logo => ImageType::Logo,
        ServerImageType::Menu => ImageType::Menu,
        ServerImageType::Primary => ImageType::Primary,
        ServerImageType::Profile => ImageType::Profile,
        ServerImageType::Screenshot => ImageType::Screenshot,
        ServerImageType::Thumb => ImageType::Thumb,
        ServerImageType::Other => ImageType::Unknown,
    }
}

/// The database whose id stands for an item of kind `ty`, if any.
pub open spec fn music_brainz_key(ty: MediaItemType) -> Option<Seq<char>> {
    match ty {
        MediaItemType::Artist => Some("MusicBrainzArtist"@),
        MediaItemType::Album => Some("MusicBrainzReleaseGroup"@),
        MediaItemType::Audio => Some("MusicBrainzReleaseGroup"@),
        _ => None,
    }
}

/// The id recorded for database `key` among `pairs`: the first pair with
/// that database.
pub open spec fn lookup_pair(pairs: Seq<(String, String)>, key: Seq<char>) -> Option<Seq<char>>
    decreases pairs.len(),
{
    if pairs.len() == 0 {
        None
    } else if pairs[0].0@ == key {
        Some(pairs[0].1@)
    } else {
        lookup_pair(pairs.drop_first(), key)
    }
}

/// The ids of an item's parents on the server: its album, then its album
/// artists, skipping those without an id.
pub open spec fn parent_ids(item: ItemInfo) -> Seq<u128> {
    let album: Seq<u128> = match item.album_id {
        Some(id) => seq![id],
        None => Seq::empty(),
    };
    match item.album_artists {
        Some(artists) => album + artist_ids(artists@),
        None => album,
    }
}

pub open spec fn artist_ids(artists: Seq<ArtistRef>) -> Seq<u128>
    decreases artists.len(),
{
    if artists.len() == 0 {
        Seq::empty()
    } else {
        let earlier = artist_ids(artists.drop_last());
        match artists.last().id {
            Some(id) => earlier.push(id),
            None => earlier,
        }
    }
}

fn clone_text(s: &Option<String>) -> (copy: Option<String>)
    ensures
        copy == *s,
{
    match s {
        Some(t) => Some(t.clone()),
        None => None,
    }
}

impl JellyfinIndexer {
    /// The kind of media item an item of the server's kind `kind` becomes.
    pub fn match_item_type(&self, kind: ItemKind) -> (r: Result<MediaItemType, IndexerError>)
        ensures
            r == Ok::<MediaItemType, IndexerError>(spec_item_type(kind)),
    {
        Ok(match kind {
            ItemKind::Audio => MediaItemType::Audio,
            ItemKind::MusicGenre => MediaItemType::Genre,
            ItemKind::MusicAlbum => MediaItemType::Album,
            ItemKind::MusicArtist => MediaItemType::Artist,
            ItemKind::Playlist => MediaItemType::Playlist,
            ItemKind::Other => MediaItemType::Unknown,
        })
    }

    /// The kind of image an image of the server's kind `kind` becomes.
    pub fn match_image_type(&self, kind: ServerImageType) -> (r: Result<ImageType, IndexerError>)
        ensures
            r == Ok::<ImageType, IndexerError>(spec_image_type(kind)),
    {
        Ok(match kind {
            ServerImageType::Art => ImageType::Art,
            ServerImageType::Backdrop => ImageType::Backdrop,
            ServerImageType::Banner => ImageType::Banner,
            ServerImageType::Box => ImageType::Box,
            ServerImageType::BoxRear => ImageType::BoxRear,
            ServerImageType::Chapter => ImageType::Chapter,
            ServerImageType::Disc => ImageType::Disc,
            ServerImageType::Logo => ImageType::Logo,
            ServerImageType::Menu => ImageType::Menu,
            ServerImageType::Primary => ImageType::Primary,
            ServerImageType::Profile => ImageType::Profile,
            ServerImageType::Screenshot => ImageType::Screenshot,
            ServerImageType::Thumb => ImageType::Thumb,
            ServerImageType::Other => ImageType::Unknown,
        })
    }

    /// The MusicBrainz id of an item of kind `ty`: the id of the database
    /// that stands for the kind, when present and readable as a UUID. An item
    /// without any database ids is an error.
    pub fn get_music_brainz_id(&self, item: &ItemInfo, ty: MediaItemType) -> (r: Result<Option<u128>, IndexerError>)
        ensures
            match item.provider_ids {
                None => r matches Err(IndexerError::JellyfinIndexerError(JellyfinIndexerError::ApiEntryRetrievalError(None))),
                Some(pairs) => r == Ok::<Option<u128>, IndexerError>(match music_brainz_key(ty) {
                    Some(key) => match lookup_pair(pairs@, key) {
                        Some(text) => uuid_from_text(text),
                        None => None,
                    },
                    None => None,
                }),
            },
    {
        let known = match &item.provider_ids {
            Some(pairs) => pairs,
            None => {
                return Err(IndexerError::JellyfinIndexerError(JellyfinIndexerError::ApiEntryRetrievalError(None)));
            },
        };
        let key: &str = match ty {
            MediaItemType::Artist => "MusicBrainzArtist",
            MediaItemType::Album => "MusicBrainzReleaseGroup",
            MediaItemType::Audio => "MusicBrainzReleaseGroup",
            _ => {
                return Ok(None);
            },
        };
        let mut i: usize = 0;
        assert(known@.skip(0) == known@);
        while i < known.len()
            invariant
                i <= known@.len(),
                item.provider_ids == Some(*known),
                music_brainz_key(ty) == Some(key@),
                lookup_pair(known@, key@) == lookup_pair(known@.skip(i as int), key@),
            decreases known@.len() - i,
        {
            assert(known@.skip(i as int).drop_first() == known@.skip(i + 1));
            assert(known@.skip(i as int)[0] == known@[i as int]);
            if text_eq(known[i].0.as_str(), key) {
                return Ok(parse_uuid(known[i].1.as_str()));
            }
            i = i + 1;
        }
        Ok(None)
    }

    /// The server ids of an item's parents.
    pub fn get_parent_source_ids(&self, item: &ItemInfo) -> (ids: Vec<u128>)
        ensures
            ids@ == parent_ids(*item),
    {
        let mut ids: Vec<u128> = Vec::new();
        match item.album_id {
            Some(id) => ids.push(id),
            None => {},
        }
        let ghost album = ids@;
        match &item.album_artists {
            Some(artists) => {
                let mut i: usize = 0;
                while i < artists.len()
                    invariant
                        i <= artists@.len(),
                        ids@ == album + artist_ids(artists@.subrange(0, i as int)),
                    decreases artists@.len() - i,
                {
                    assert(artists@.subrange(0, i + 1).drop_last() == artists@.subrange(0, i as int));
                    match artists[i].id {
                        Some(id) => ids.push(id),
                        None => {},
                    }
                    i = i + 1;
                }
                assert(artists@.subrange(0, artists@.len() as int) == artists@);
            },
            None => {},
        }
        ids
    }

    /// The content candidates an item offers: its album, album artist,
    /// container and premiere date, each possibly missing.
    pub fn get_content(&self, item: &ItemInfo) -> (r: Result<Vec<(ContentType, Option<String>)>, IndexerError>)
        ensures
            r matches Ok(v) && v@ == seq![
                (ContentType::Album, item.album),
                (ContentType::Artists, item.album_artist),
                (ContentType::Container, item.container),
                (ContentType::ReleaseDate, item.premiere_date),
            ],
    {
        let mut v = Vec::new();
        v.push((ContentType::Album, clone_text(&item.album)));
        v.push((ContentType::Artists, clone_text(&item.album_artist)));
        v.push((ContentType::Container, clone_text(&item.container)));
        v.push((ContentType::ReleaseDate, clone_text(&item.premiere_date)));
        Ok(v)
    }

    /// Reads an item for indexing: it must have an id, a name and a kind.
    pub fn prepare_item(&self, item: &ItemInfo) -> (r: Result<PreparedItem, IndexerError>)
        ensures
            match (item.id, item.name, item.kind) {
                (Some(source_id), Some(name), Some(kind)) => match item.provider_ids {
                    None => r matches Err(IndexerError::JellyfinIndexerError(JellyfinIndexerError::ApiEntryRetrievalError(None))),
                    Some(pairs) => r matches Ok(p) && p.source_id == source_id && p.weak_id == name
                        && p.ty == spec_item_type(kind)
                        && p.music_brainz_id == match music_brainz_key(spec_item_type(kind)) {
                            Some(key) => match lookup_pair(pairs@, key) {
                                Some(text) => uuid_from_text(text),
                                None => None,
                            },
                            None => None,
                        }
                        && p.content@ == seq![
                            (ContentType::Album, item.album),
                            (ContentType::Artists, item.album_artist),
                            (ContentType::Container, item.container),
                            (ContentType::ReleaseDate, item.premiere_date),
                        ]
                        && p.parent_source_ids@ == parent_ids(*item),
                },
                _ => r matches Err(IndexerError::JellyfinIndexerError(JellyfinIndexerError::ApiEntryRetrievalError(None))),
            },
    {
        let source_id = check_entry(item.id)?;
        let weak_id = check_entry(clone_text(&item.name))?;
        let kind = check_entry(item.kind)?;
        let ty = self.match_item_type(kind)?;
        let music_brainz_id = self.get_music_brainz_id(item, ty)?;
        let content = self.get_content(item)?;
        let parent_source_ids = self.get_parent_source_ids(item);
        Ok(PreparedItem { source_id, weak_id, ty, music_brainz_id, content, parent_source_ids })
    }
}

/// The address of an image of kind `ty` of the server item `source_id`.
pub open spec fn image_address(base_url: Seq<char>, source_id: u128, ty: ImageType) -> Seq<char> {
    base_url + "Items/"@ + uuid_text(source_id) + "/Images/"@ + ty.spec_name()
}

/// The kinds of item indexed, one pass each, in this order: artists, then
/// albums, then tracks, so that parents are indexed before their children.
pub fn index_passes() -> (kinds: Vec<ItemKind>)
    ensures
        kinds@ == seq![ItemKind::MusicArtist, ItemKind::MusicAlbum, ItemKind::Audio],
{
    let mut kinds = Vec::new();
    kinds.push(ItemKind::MusicArtist);
    kinds.push(ItemKind::MusicAlbum);
    kinds.push(ItemKind::Audio);
    kinds
}

impl JellyfinIndexer {
    /// The user id in the form the server's item queries take.
    pub fn user_id_text(&self) -> (r: Result<String, IndexerError>)
        ensures
            match self.spec_user_id() {
                Ok(id) => r matches Ok(t) && t@ == uuid_text(id),
                Err(e) => r == Err::<String, IndexerError>(e),
            },
    {
        let id = self.user_id()?;
        Ok(format_uuid(id))
    }

    /// The images to attach for the server item `source_id`, given the kinds
    /// of image the server lists for it: each at its address under the
    /// server's address. An image without a kind is an error.
    pub fn image_metadata(&self, source_id: u128, kinds: Vec<Option<ServerImageType>>) -> (r: Result<Vec<(String, ImageType)>, IndexerError>)
        ensures
            match url_outcome(self.model) {
                Some(Ok(address)) => if forall|i: int| 0 <= i < kinds@.len() ==> (#[trigger] kinds@[i]) is Some {
                    r matches Ok(v) && v@.len() == kinds@.len() && forall|i: int| 0 <= i < v@.len() ==> {
                        let ty = spec_image_type(kinds@[i]->0);
                        &&& (#[trigger] v@[i]).1 == ty
                        &&& v@[i].0@ == image_address(address, source_id, ty)
                    }
                } else {
                    r matches Err(IndexerError::JellyfinIndexerError(JellyfinIndexerError::ApiEntryRetrievalError(None)))
                },
                _ => r is Err && self.url_result(Err(r->Err_0)),
            },
    {
        let base_url = self.url()?;
        let source_text = format_uuid(source_id);
        let mut out: Vec<(String, ImageType)> = Vec::new();
        let mut i: usize = 0;
        while i < kinds.len()
            invariant
                i <= kinds@.len(),
                url_outcome(self.model) == Some(Ok::<Seq<char>, Seq<char>>(base_url@)),
                source_text@ == uuid_text(source_id),
                out@.len() == i,
                forall|j: int| 0 <= j < i ==> (#[trigger] kinds@[j]) is Some,
                forall|j: int| 0 <= j < i ==> {
                    let ty = spec_image_type(kinds@[j]->0);
                    &&& (#[trigger] out@[j]).1 == ty
                    &&& out@[j].0@ == image_address(base_url@, source_id, ty)
                },
            decreases kinds@.len() - i,
        {
            let kind = match check_entry(kinds[i]) {
                Ok(kind) => kind,
                Err(e) => {
                    assert(!(kinds@[i as int] is Some));
                    return Err(e);
                },
            };
            let ty = self.match_image_type(kind)?;
            let mut address = base_url.clone();
            address.append("Items/");
            address.append(source_text.as_str());
            address.append("/Images/");
            address.append(ty.name());
            out.push((address, ty));
            i = i + 1;
        }
        Ok(out)
    }
}

/// The error for an indexing pass whose transaction could not be begun: the
/// first pass reports it as the indexer's own failure, later passes as a
/// database failure.
pub fn begin_failure(pass: usize, message: String) -> (e: IndexerError)
    ensures
        pass == 0 ==> e == IndexerError::FailedTransactionError(message),
        pass != 0 ==> e == IndexerError::JourneyDbError(JourneyDbError::FailedTransactionError(message)),
{
    if pass == 0 {
        IndexerError::FailedTransactionError(message)
    } else {
        IndexerError::JourneyDbError(JourneyDbError::FailedTransactionError(message))
    }
}

/// Which of an item's provider ids gives its MusicBrainz id: tracks and
/// albums are identified by their release group, artists by their artist id,
/// and other kinds of item by none.
pub proof fn law_music_brainz_database(pairs: Seq<(String, String)>)
    ensures
        (match music_brainz_key(MediaItemType::Audio) {
            Some(key) => lookup_pair(pairs, key),
            None => None,
        }) == lookup_pair(pairs, "MusicBrainzReleaseGroup"@),
        (match music_brainz_key(MediaItemType::Album) {
            Some(key) => lookup_pair(pairs, key),
            None => None,
        }) == lookup_pair(pairs, "MusicBrainzReleaseGroup"@),
        (match music_brainz_key(MediaItemType::Artist) {
            Some(key) => lookup_pair(pairs, key),
            None => None,
        }) == lookup_pair(pairs, "MusicBrainzArtist"@),
        music_brainz_key(MediaItemType::Genre) is None,
        music_brainz_key(MediaItemType::Playlist) is None,
        music_brainz_key(MediaItemType::Unknown) is None,
{
}

} // verus!
