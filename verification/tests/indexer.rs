use journey::active::{ActiveField, ContentActive, ImageActive, MediaItemActive, MediaItemRecord, ProviderActive, SourceActive};
use journey::enums::{ContentType, ImageType, MediaItemType, ProviderVariant};
use journey::error::{IndexerError, IndexerManagerError, JellyfinIndexerError, JourneyDbError};
use journey::indexer::{
    IndexerKey, JellyfinIndexer, LookupFailure, build_media_item, check_entry, collect_found, delivery_outcome,
    index_report, lookup_outcome, new_media_item, resolve_music_brainz_id,
};
use journey::indexer_manager::IndexerManager;

const PROVIDER: u128 = 0x0123456789abcdef0123456789abcdef;
const USER: u128 = 0xa1a2a3a4b1b2c1c2d1d2d3d4d5d6d7d8;

fn indexer() -> JellyfinIndexer {
    let mut model = ProviderActive::with_url_and_ty("http://smth.example.com".to_string(), ProviderVariant::JellyfinProvider);
    model.provider_id = ActiveField::Unchanged(PROVIDER);
    model.user_id = ActiveField::Unchanged(USER);
    JellyfinIndexer { model, config: None }
}

fn empty_item() -> MediaItemActive {
    new_media_item(MediaItemType::Album, 42, &"Album".to_string(), false)
}

#[test]
fn indexer_key_and_text() {
    let key = indexer().key().unwrap();
    assert_eq!(key, IndexerKey { variant: ProviderVariant::JellyfinProvider, provider_id: PROVIDER });
    assert_eq!(
        key.to_string(),
        "Key for server: 01234567-89ab-cdef-0123-456789abcdef, provider: JellyfinProvider"
    );
}

#[test]
fn indexer_without_kind_has_no_key() {
    let mut idx = indexer();
    idx.model.ty = ActiveField::NotSet;
    assert!(matches!(idx.key(), Err(IndexerError::MissingVariantError)));
    assert!(matches!(idx.get_config(), Err(IndexerError::JellyfinIndexerError(JellyfinIndexerError::ApiEntryRetrievalError(None)))));
}

#[test]
fn check_entry_reports_missing_entries() {
    assert_eq!(check_entry(Some(3)).unwrap(), 3);
    assert!(matches!(check_entry::<u8>(None), Err(IndexerError::JellyfinIndexerError(JellyfinIndexerError::ApiEntryRetrievalError(None)))));
}

#[test]
fn source_is_added_once() {
    let idx = indexer();
    let new = idx.validate_source(&[], 42, 7).unwrap().unwrap();
    assert!(matches!(new.source_id, ActiveField::Assigned(7)));
    assert!(matches!(new.parent_id, ActiveField::Assigned(42)));
    assert!(matches!(new.provider_id, ActiveField::Assigned(PROVIDER)));
    let known = SourceActive { source_id: ActiveField::Unchanged(7), parent_id: ActiveField::NotSet, provider_id: ActiveField::NotSet };
    assert!(idx.validate_source(&[known], 42, 7).unwrap().is_none());
    let mut no_id = indexer();
    no_id.model.provider_id = ActiveField::NotSet;
    assert!(matches!(no_id.validate_source(&[], 42, 7), Err(IndexerError::MissingServerIdError)));
}

#[test]
fn content_skips_known_and_missing_descriptions() {
    let idx = indexer();
    let known = ContentActive {
        parent_id: ActiveField::Unchanged(42),
        ty: ActiveField::Unchanged(ContentType::Album),
        description: ActiveField::Unchanged("Blue".to_string()),
    };
    let potential = vec![
        (ContentType::Album, Some("Blue".to_string())),
        (ContentType::Artists, None),
        (ContentType::Container, Some("flac".to_string())),
        (ContentType::Album, Some("Red".to_string())),
    ];
    let new = idx.validate_content(&[known], 42, potential).unwrap();
    assert_eq!(new.len(), 2);
    assert!(matches!(&new[0].description, ActiveField::Assigned(d) if d == "flac"));
    assert!(matches!(new[0].ty, ActiveField::Assigned(ContentType::Container)));
    assert!(matches!(new[1].parent_id, ActiveField::Assigned(42)));
}

#[test]
fn added_content_is_not_proposed_again() {
    let idx = indexer();
    let potential = vec![
        (ContentType::Container, Some("flac".to_string())),
        (ContentType::Album, Some("Red".to_string())),
        (ContentType::Artists, None),
    ];
    let existing = idx.validate_content(&[], 42, potential.clone()).unwrap();
    assert_eq!(existing.len(), 2);
    let again = idx.validate_content(&existing, 42, potential).unwrap();
    assert!(again.is_empty());
}

#[test]
fn images_skip_known_addresses_and_report_bad_ones() {
    let idx = indexer();
    let known = ImageActive {
        url: ActiveField::Unchanged("http://a.example/x".to_string()),
        ty: ActiveField::NotSet,
        provider_id: ActiveField::NotSet,
        provider: None,
    };
    let new = idx
        .validate_images(&[known], vec![
            ("http://a.example/x".to_string(), ImageType::Primary),
            ("http://a.example/y".to_string(), ImageType::Logo),
        ])
        .unwrap();
    assert_eq!(new.len(), 1);
    assert!(matches!(&new[0].url, ActiveField::Assigned(u) if u == "http://a.example/y"));
    assert!(matches!(new[0].ty, ActiveField::Assigned(ImageType::Logo)));
    assert!(new[0].provider.is_some());
    match idx.validate_images(&[], vec![("bad".to_string(), ImageType::Art)]) {
        Err(IndexerError::FailedParseUrlError(m)) => {
            assert_eq!(m, "failed with: relative URL without a base for base: bad/Art")
        },
        other => panic!("unexpected {:?}", other.map(|v| v.len())),
    }
}

#[test]
fn attach_relations_is_idempotent() {
    let idx = indexer();
    let item = empty_item();
    let item = idx
        .attach_relations(item, 42, 7, vec![(ContentType::Album, Some("Blue".to_string()))], vec![
            ("http://a.example/y".to_string(), ImageType::Logo),
        ])
        .unwrap();
    assert_eq!(item.providers.len(), 1);
    assert_eq!(item.sources.len(), 1);
    assert_eq!(item.content.len(), 1);
    assert_eq!(item.images.len(), 1);
    let item = idx
        .attach_relations(item, 42, 7, vec![(ContentType::Album, Some("Blue".to_string()))], vec![
            ("http://a.example/y".to_string(), ImageType::Logo),
        ])
        .unwrap();
    assert_eq!(item.providers.len(), 1);
    assert_eq!(item.sources.len(), 1);
    assert_eq!(item.content.len(), 1);
    assert_eq!(item.images.len(), 1);
}

#[test]
fn attach_parents_appends() {
    let mut item = empty_item();
    let parent = MediaItemRecord {
        music_brainz_id: ActiveField::Unchanged(1),
        weak_id: ActiveField::Unchanged("Artist".to_string()),
        ty: ActiveField::Unchanged(MediaItemType::Artist),
        is_tmp: ActiveField::Unchanged(false),
        outline_gradient: ActiveField::NotSet,
    };
    JellyfinIndexer::attach_parents(&mut item, collect_found(vec![None, Some(parent), None]));
    assert_eq!(item.parents.len(), 1);
}

#[test]
fn new_items_and_found_items() {
    let item = empty_item();
    assert!(matches!(&item.record.outline_gradient, ActiveField::Assigned(g) if g == "#ff000000"));
    assert!(matches!(&item.record.weak_id, ActiveField::Assigned(w) if w == "Album"));
    let (built, id, existed) = build_media_item((None, 9), &"Song".to_string(), MediaItemType::Audio, true);
    assert_eq!(id, 9);
    assert!(!existed);
    assert!(matches!(built.record.is_tmp, ActiveField::Assigned(true)));
    let (_, id, existed) = build_media_item((Some(empty_item()), 42), &"Song".to_string(), MediaItemType::Audio, true);
    assert_eq!(id, 42);
    assert!(existed);
    assert_eq!(resolve_music_brainz_id(Some(5)), (5, false));
    assert!(resolve_music_brainz_id(None).1);
}

#[test]
fn reports_and_lookups() {
    let (msg, err) = index_report("Song".to_string(), Err("disk full".to_string()), true);
    assert_eq!(msg.item.as_deref(), Some("Song"));
    assert!(!msg.success && msg.already_exists);
    assert!(matches!(err, Some(IndexerError::JourneyDbError(JourneyDbError::Unknown(ref m))) if m == "disk full"));
    let (msg, err) = index_report("Song".to_string(), Ok(()), false);
    assert!(msg.success && err.is_none());
    assert!(matches!(delivery_outcome(Err("closed".to_string()), None), Err(IndexerError::FailedMsgSendError(ref m)) if m == "closed"));
    assert!(delivery_outcome(Ok(()), None).unwrap().is_none());
    assert!(lookup_outcome::<u8>(Ok(vec![])).unwrap().is_none());
    assert_eq!(lookup_outcome(Ok(vec![1u8])).unwrap(), Some(vec![1u8]));
    assert!(lookup_outcome::<u8>(Err(LookupFailure::RecordNotFound("x".to_string()))).unwrap().is_none());
    assert!(matches!(
        lookup_outcome::<u8>(Err(LookupFailure::Other("gone".to_string()))),
        Err(IndexerError::JourneyDbError(JourneyDbError::RecordNotFound(ref m))) if m == "gone"
    ));
}

#[test]
fn status_receivers_are_consumed_once() {
    let mut manager: IndexerManager<&str, u8> = IndexerManager::new(3);
    let key = IndexerKey { variant: ProviderVariant::JellyfinProvider, provider_id: PROVIDER };
    manager.insert_comm(key, "first");
    manager.insert_comm(key, "second");
    assert_eq!(*manager.get_runner(), 3);
    assert_eq!(manager.consume_status(&key).unwrap(), "second");
    match manager.consume_status(&key) {
        Err(IndexerManagerError::NoSuchCommError(m)) => {
            assert_eq!(m, "Key for server: 01234567-89ab-cdef-0123-456789abcdef, provider: JellyfinProvider")
        },
        other => panic!("unexpected {:?}", other),
    }
}
