use journey::convert::{Convertible, to_dto_vec, to_vec};
use journey::dto::{ImageDTO, MediaItemDTO, ProviderDTO, ProviderKey, ContentDTO, OriginalDTO};
use journey::enums::{ContentType, ImageType, ProviderVariant};
use journey::error::ConversionError;
use journey::model::{ContentModel, ImageModel, MediaItemModel, OriginalModel, ProviderModel};

fn media(uuid: u128) -> MediaItemModel {
    MediaItemModel {
        uuid,
        kind: "Album".to_string(),
        outline_gradient: "#ff000000".to_string(),
        loaded: true,
        local: "".to_string(),
        original: vec![],
        content: vec![],
        providers: vec![],
        images: vec![],
        children: vec![],
        parents: vec![],
    }
}

fn provider(url: &str) -> ProviderModel {
    ProviderModel { provider_id: 1, user_id: 2, ty: ProviderVariant::JellyfinProvider, url: url.to_string(), media_items: vec![], images: vec![] }
}

#[test]
fn provider_converts_with_normalized_address() {
    let dto = ProviderDTO::from_model(provider("http://Example.com")).unwrap();
    assert_eq!(dto.url.as_deref(), Some("http://example.com/"));
    assert_eq!(dto.key, ProviderKey { user_id: 2, provider_id: 1 });
    assert_eq!(dto.authenticated, Some(false));
    assert!(dto.media_items.is_none() && dto.images.is_none());
}

#[test]
fn media_item_converts_all_relations() {
    let mut m = media(5);
    m.children.push(media(6));
    m.content.push(ContentModel { id: 1, parent_id: Some(5), parent: None, ty: ContentType::Album, description: Some("Blue".to_string()) });
    m.original.push(OriginalModel { id: 1, uuid: 9, parent_id: None, parent: Some(Box::new(media(7))), server_id: 3 });
    let dto = MediaItemDTO::from_model(m).unwrap();
    assert_eq!(dto.uuid, 5);
    assert_eq!(dto.children.as_ref().unwrap().len(), 1);
    assert!(dto.parents.as_ref().unwrap().is_empty());
    let content = &dto.content.as_ref().unwrap()[0];
    assert_eq!(content.ty, ContentType::Unknown);
    assert_eq!(content.description.as_deref(), Some("Blue"));
    assert_eq!(dto.original.as_ref().unwrap()[0].parent.as_ref().unwrap().uuid, 7);
}

#[test]
fn first_bad_address_is_reported() {
    let mut m = media(5);
    m.providers.push(provider("http://ok.example"));
    m.images.push(ImageModel { id: 1, url: "first bad".to_string(), server_id: None, provider: None, ty: ImageType::Art, media_items: vec![] });
    m.parents.push(media(8));
    let mut p = media(9);
    p.providers.push(provider("second bad"));
    m.parents.push(p);
    match MediaItemDTO::from_model(m) {
        Err(ConversionError::FailedParseUrl(e)) => assert_eq!(e, "relative URL without a base"),
        Ok(_) => panic!("should fail"),
    }
}

#[test]
fn image_converts_with_provider_and_items() {
    let image = ImageModel {
        id: 1,
        url: "http://img.example/a.png".to_string(),
        server_id: Some(4),
        provider: Some(Box::new(provider("http://ok.example"))),
        ty: ImageType::Thumb,
        media_items: vec![media(1)],
    };
    let dto = ImageDTO::from_model(image).unwrap();
    assert_eq!(dto.url, "http://img.example/a.png");
    assert_eq!(dto.ty, ImageType::Thumb);
    assert_eq!(dto.provider.unwrap().url.as_deref(), Some("http://ok.example/"));
    assert_eq!(dto.media_items.unwrap().len(), 1);
}

#[test]
fn lists_and_optional_lists() {
    assert!(to_dto_vec::<MediaItemModel, MediaItemDTO>(vec![]).unwrap().is_none());
    assert_eq!(to_dto_vec::<MediaItemModel, MediaItemDTO>(vec![media(1), media(2)]).unwrap().unwrap().len(), 2);
    assert!(to_vec::<ContentModel, ContentDTO>(vec![]).unwrap().is_empty());
    let originals = to_vec::<OriginalModel, OriginalDTO>(vec![OriginalModel { id: 1, uuid: 1, parent_id: Some(3), parent: None, server_id: 4 }]).unwrap();
    assert_eq!(originals[0].parent_id, Some(3));
    assert!(to_vec::<ProviderModel, ProviderDTO>(vec![provider("bad")]).is_err());
}
