use journey::active::{ActiveField, ProviderActive};
use journey::enums::{ContentType, ImageType, MediaItemType, ProviderVariant};
use journey::error::{IndexerError, JellyfinIndexerError, JourneyDbError};
use journey::indexer::JellyfinIndexer;
use journey::jellyfin::{ArtistRef, ItemInfo, ItemKind, ServerImageType, begin_failure, index_passes};

const PROVIDER: u128 = 0x0123456789abcdef0123456789abcdef;

fn indexer() -> JellyfinIndexer {
    let mut model = ProviderActive::with_url_and_ty("http://smth.example.com".to_string(), ProviderVariant::JellyfinProvider);
    model.provider_id = ActiveField::Unchanged(PROVIDER);
    model.user_id = ActiveField::Unchanged(PROVIDER);
    JellyfinIndexer { model, config: None }
}

fn item() -> ItemInfo {
    ItemInfo {
        id: Some(7),
        name: Some("Blue".to_string()),
        kind: Some(ItemKind::MusicAlbum),
        provider_ids: Some(vec![
            ("MusicBrainzArtist".to_string(), "ffffffff-ffff-ffff-ffff-ffffffffffff".to_string()),
            ("MusicBrainzReleaseGroup".to_string(), "01234567-89ab-cdef-0123-456789abcdef".to_string()),
        ]),
        album_id: Some(1),
        album_artists: Some(vec![
            ArtistRef { id: Some(2), name: Some("A".to_string()) },
            ArtistRef { id: None, name: None },
            ArtistRef { id: Some(3), name: None },
        ]),
        album: Some("Blue".to_string()),
        album_artist: None,
        container: Some("flac".to_string()),
        premiere_date: None,
    }
}

#[test]
fn item_kinds_and_image_kinds() {
    let idx = indexer();
    assert_eq!(idx.match_item_type(ItemKind::MusicGenre).unwrap(), MediaItemType::Genre);
    assert_eq!(idx.match_item_type(ItemKind::Other).unwrap(), MediaItemType::Unknown);
    assert_eq!(idx.match_image_type(ServerImageType::BoxRear).unwrap(), ImageType::BoxRear);
    assert_eq!(idx.match_image_type(ServerImageType::Other).unwrap(), ImageType::Unknown);
    assert_eq!(index_passes(), vec![ItemKind::MusicArtist, ItemKind::MusicAlbum, ItemKind::Audio]);
}

#[test]
fn music_brainz_ids_by_kind() {
    let idx = indexer();
    let it = item();
    assert_eq!(idx.get_music_brainz_id(&it, MediaItemType::Album).unwrap(), Some(PROVIDER));
    assert_eq!(idx.get_music_brainz_id(&it, MediaItemType::Artist).unwrap(), Some(u128::MAX));
    assert_eq!(idx.get_music_brainz_id(&it, MediaItemType::Genre).unwrap(), None);
    let mut odd = item();
    odd.provider_ids = Some(vec![("MusicBrainzReleaseGroup".to_string(), "not-a-uuid".to_string())]);
    assert_eq!(idx.get_music_brainz_id(&odd, MediaItemType::Audio).unwrap(), None);
    odd.provider_ids = None;
    assert!(matches!(
        idx.get_music_brainz_id(&odd, MediaItemType::Audio),
        Err(IndexerError::JellyfinIndexerError(JellyfinIndexerError::ApiEntryRetrievalError(None)))
    ));
}

#[test]
fn parents_and_content() {
    let idx = indexer();
    let it = item();
    assert_eq!(idx.get_parent_source_ids(&it), vec![1, 2, 3]);
    let content = idx.get_content(&it).unwrap();
    assert_eq!(content, vec![
        (ContentType::Album, Some("Blue".to_string())),
        (ContentType::Artists, None),
        (ContentType::Container, Some("flac".to_string())),
        (ContentType::ReleaseDate, None),
    ]);
}

#[test]
fn prepared_items_need_id_name_and_kind() {
    let idx = indexer();
    let p = idx.prepare_item(&item()).unwrap();
    assert_eq!(p.source_id, 7);
    assert_eq!(p.weak_id, "Blue");
    assert_eq!(p.ty, MediaItemType::Album);
    assert_eq!(p.music_brainz_id, Some(PROVIDER));
    assert_eq!(p.parent_source_ids, vec![1, 2, 3]);
    let mut nameless = item();
    nameless.name = None;
    assert!(idx.prepare_item(&nameless).is_err());
}

#[test]
fn image_addresses() {
    let idx = indexer();
    let images = idx.image_metadata(7, vec![Some(ServerImageType::Primary), Some(ServerImageType::Other)]).unwrap();
    assert_eq!(images, vec![
        ("http://smth.example.com/Items/00000000-0000-0000-0000-000000000007/Images/Primary".to_string(), ImageType::Primary),
        ("http://smth.example.com/Items/00000000-0000-0000-0000-000000000007/Images/Unknown".to_string(), ImageType::Unknown),
    ]);
    assert!(idx.image_metadata(7, vec![None]).is_err());
    assert_eq!(idx.user_id_text().unwrap(), "01234567-89ab-cdef-0123-456789abcdef");
}

#[test]
fn transaction_failures_by_pass() {
    match begin_failure(0, "busy".to_string()) {
        IndexerError::FailedTransactionError(m) => assert_eq!(m, "busy"),
        other => panic!("unexpected {:?}", other),
    }
    match begin_failure(2, "busy".to_string()) {
        IndexerError::JourneyDbError(JourneyDbError::FailedTransactionError(m)) => assert_eq!(m, "busy"),
        other => panic!("unexpected {:?}", other),
    }
}
