//! Turning stored records into transfer objects. The only step that can fail
//! is reading a stored address as a URL; records are visited depth first, in
//! field order, and the first address that does not parse is reported.
use vstd::prelude::*;
use crate::dto::{ContentDTO, ImageDTO, MediaItemDTO, OriginalDTO, ProviderDTO, ProviderKey};
use crate::enums::ContentType;
use crate::error::ConversionError;
use crate::ids::{parse_url, url_parse};
use crate::model::{ContentModel, ImageModel, MediaItemModel, OriginalModel, ProviderModel};

verus! {

// ---- The first address that does not parse -------------------------------

/// The parser's message for `url`, if it does not parse.
pub open spec fn url_err(url: Seq<char>) -> Option<Seq<char>> {
    match url_parse(url) {
        Err(e) => Some(e),
        Ok(_) => None,
    }
}

/// The first of two failures, in visiting order.
pub open spec fn first_err(a: Option<Seq<char>>, b: Option<Seq<char>>) -> Option<Seq<char>> {
    match a {
        Some(e) => Some(e),
        None => b,
    }
}

pub open spec fn media_err(m: MediaItemModel) -> Option<Seq<char>>
    decreases m, 0nat,
{
    first_err(originals_err(m.original@), first_err(contents_err(m.content@),
        first_err(providers_err(m.providers@), first_err(images_err(m.images@),
        first_err(medias_err(m.children@), medias_err(m.parents@))))))
}

pub open spec fn original_err(o: OriginalModel) -> Option<Seq<char>>
    decreases o, 0nat,
{
    match o.parent {
        Some(p) => media_err(*p),
        None => None,
    }
}

pub open spec fn content_err(c: ContentModel) -> Option<Seq<char>>
    decreases c, 0nat,
{
    match c.parent {
        Some(p) => media_err(*p),
        None => None,
    }
}

pub open spec fn image_err(i: ImageModel) -> Option<Seq<char>>
    decreases i, 0nat,
{
    let provider = match i.provider {
        Some(p) => provider_err(*p),
        None => None,
    };
    first_err(provider, first_err(medias_err(i.media_items@), url_err(i.url@)))
}

pub open spec fn provider_err(p: ProviderModel) -> Option<Seq<char>>
    decreases p, 0nat,
{
    first_err(medias_err(p.media_items@), first_err(images_err(p.images@), url_err(p.url@)))
}

pub open spec fn medias_err(s: Seq<MediaItemModel>) -> Option<Seq<char>>
    decreases s, 1nat,
{
    if s.len() == 0 {
        None
    } else {
        first_err(media_err(s[0]), medias_err(s.subrange(1, s.len() as int)))
    }
}

pub open spec fn originals_err(s: Seq<OriginalModel>) -> Option<Seq<char>>
    decreases s, 1nat,
{
    if s.len() == 0 {
        None
    } else {
        first_err(original_err(s[0]), originals_err(s.subrange(1, s.len() as int)))
    }
}

pub open spec fn contents_err(s: Seq<ContentModel>) -> Option<Seq<char>>
    decreases s, 1nat,
{
    if s.len() == 0 {
        None
    } else {
        first_err(content_err(s[0]), contents_err(s.subrange(1, s.len() as int)))
    }
}

pub open spec fn providers_err(s: Seq<ProviderModel>) -> Option<Seq<char>>
    decreases s, 1nat,
{
    if s.len() == 0 {
        None
    } else {
        first_err(provider_err(s[0]), providers_err(s.subrange(1, s.len() as int)))
    }
}

pub open spec fn images_err(s: Seq<ImageModel>) -> Option<Seq<char>>
    decreases s, 1nat,
{
    if s.len() == 0 {
        None
    } else {
        first_err(image_err(s[0]), images_err(s.subrange(1, s.len() as int)))
    }
}

// ---- What a successful conversion gives ----------------------------------

/// `d` is the media item `m` with all its loaded relations, each given even
/// when empty.
pub open spec fn media_of(m: MediaItemModel, d: MediaItemDTO) -> bool
    decreases m, 0nat,
{
    &&& d.uuid == m.uuid
    &&& d.kind == m.kind
    &&& d.outline_gradient == m.outline_gradient
    &&& d.loaded == m.loaded
    &&& d.local == m.local
    &&& d.original matches Some(v) && originals_of(m.original@, v@)
    &&& d.content matches Some(v) && contents_of(m.content@, v@)
    &&& d.providers matches Some(v) && providers_of(m.providers@, v@)
    &&& d.images matches Some(v) && images_of(m.images@, v@)
    &&& d.children matches Some(v) && medias_of(m.children@, v@)
    &&& d.parents matches Some(v) && medias_of(m.parents@, v@)
}

pub open spec fn original_of(o: OriginalModel, d: OriginalDTO) -> bool
    decreases o, 0nat,
{
    &&& d.parent_id == o.parent_id
    &&& d.server_id == o.server_id
    &&& match (o.parent, d.parent) {
        (None, None) => true,
        (Some(p), Some(dp)) => media_of(*p, dp),
        _ => false,
    }
}

/// `d` is the content entry `c`; its kind is always reported as unknown.
pub open spec fn content_of(c: ContentModel, d: ContentDTO) -> bool
    decreases c, 0nat,
{
    &&& d.parent_id == c.parent_id
    &&& d.ty == ContentType::Unknown
    &&& d.description == c.description
    &&& match (c.parent, d.parent) {
        (None, None) => true,
        (Some(p), Some(dp)) => media_of(*p, dp),
        _ => false,
    }
}

/// `d` is the image `i`; its media items are given only when there are any.
pub open spec fn image_of(i: ImageModel, d: ImageDTO) -> bool
    decreases i, 0nat,
{
    &&& url_parse(i.url@) matches Ok(address) && d.url@ == address
    &&& d.server_id == i.server_id
    &&& d.ty == i.ty
    &&& match (i.provider, d.provider) {
        (None, None) => true,
        (Some(p), Some(dp)) => provider_of(*p, dp),
        _ => false,
    }
    &&& if i.media_items@.len() == 0 {
        d.media_items is None
    } else {
        d.media_items matches Some(v) && medias_of(i.media_items@, v@)
    }
}

/// `d` is the provider `p`, reported as not authenticated and without
/// sign-in ways; its media items and images are given only when there are
/// any.
pub open spec fn provider_of(p: ProviderModel, d: ProviderDTO) -> bool
    decreases p, 0nat,
{
    &&& d.authenticated == Some(false)
    &&& d.key == (ProviderKey { user_id: p.user_id, provider_id: p.provider_id })
    &&& d.ty == p.ty
    &&& d.auth_schema@.len() == 0
    &&& url_parse(p.url@) matches Ok(address) && d.url matches Some(u) && u@ == address
    &&& if p.media_items@.len() == 0 {
        d.media_items is None
    } else {
        d.media_items matches Some(v) && medias_of(p.media_items@, v@)
    }
    &&& if p.images@.len() == 0 {
        d.images is None
    } else {
        d.images matches Some(v) && images_of(p.images@, v@)
    }
}

pub open spec fn medias_of(s: Seq<MediaItemModel>, t: Seq<MediaItemDTO>) -> bool
    decreases s, 1nat,
{
    &&& s.len() == t.len()
    &&& forall|i: int| 0 <= i < s.len() ==> media_of(#[trigger] s[i], t[i])
}

pub open spec fn originals_of(s: Seq<OriginalModel>, t: Seq<OriginalDTO>) -> bool
    decreases s, 1nat,
{
    &&& s.len() == t.len()
    &&& forall|i: int| 0 <= i < s.len() ==> original_of(#[trigger] s[i], t[i])
}

pub open spec fn contents_of(s: Seq<ContentModel>, t: Seq<ContentDTO>) -> bool
    decreases s, 1nat,
{
    &&& s.len() == t.len()
    &&& forall|i: int| 0 <= i < s.len() ==> content_of(#[trigger] s[i], t[i])
}

pub open spec fn providers_of(s: Seq<ProviderModel>, t: Seq<ProviderDTO>) -> bool
    decreases s, 1nat,
{
    &&& s.len() == t.len()
    &&& forall|i: int| 0 <= i < s.len() ==> provider_of(#[trigger] s[i], t[i])
}

pub open spec fn images_of(s: Seq<ImageModel>, t: Seq<ImageDTO>) -> bool
    decreases s, 1nat,
{
    &&& s.len() == t.len()
    &&& forall|i: int| 0 <= i < s.len() ==> image_of(#[trigger] s[i], t[i])
}

// ---- The conversions ------------------------------------------------------

/// Reads a stored address as a URL.
fn parse_stored_url(url: &String) -> (r: Result<String, ConversionError>)
    ensures
        match r {
            Ok(a) => url_parse(url@) == Ok::<Seq<char>, Seq<char>>(a@),
            Err(ConversionError::FailedParseUrl(e)) => url_err(url@) == Some(e@),
        },
{
    match parse_url(url.as_str()) {
        Ok(a) => Ok(a),
        Err(e) => Err(ConversionError::FailedParseUrl(e)),
    }
}

/// The media item `m` as a transfer object.
pub fn media_from_model(m: MediaItemModel) -> (r: Result<MediaItemDTO, ConversionError>)
    ensures
        match r {
            Ok(d) => media_err(m) is None && media_of(m, d),
            Err(ConversionError::FailedParseUrl(e)) => media_err(m) == Some(e@),
        },
    decreases m, 0nat,
{
    let MediaItemModel { uuid, kind, outline_gradient, loaded, local, original, content, providers, images, children, parents } = m;
    let original = originals_from_models(original)?;
    let content = contents_from_models(content)?;
    let providers = providers_from_models(providers)?;
    let images = images_from_models(images)?;
    let children = medias_from_models(children)?;
    let parents = medias_from_models(parents)?;
    Ok(MediaItemDTO {
        uuid,
        kind,
        outline_gradient,
        loaded,
        local,
        original: Some(original),
        content: Some(content),
        providers: Some(providers),
        images: Some(images),
        children: Some(children),
        parents: Some(parents),
    })
}

/// The origin `o` as a transfer object.
pub fn original_from_model(o: OriginalModel) -> (r: Result<OriginalDTO, ConversionError>)
    ensures
        match r {
            Ok(d) => original_err(o) is None && original_of(o, d),
            Err(ConversionError::FailedParseUrl(e)) => original_err(o) == Some(e@),
        },
    decreases o, 0nat,
{
    let OriginalModel { id: _, uuid: _, parent_id, parent, server_id } = o;
    let parent = match parent {
        Some(p) => Some(media_from_model(*p)?),
        None => None,
    };
    Ok(OriginalDTO { parent_id, parent, server_id })
}

/// The content entry `c` as a transfer object.
pub fn content_from_model(c: ContentModel) -> (r: Result<ContentDTO, ConversionError>)
    ensures
        match r {
            Ok(d) => content_err(c) is None && content_of(c, d),
            Err(ConversionError::FailedParseUrl(e)) => content_err(c) == Some(e@),
        },
    decreases c, 0nat,
{
    let ContentModel { id: _, parent_id, parent, ty: _, description } = c;
    let parent = match parent {
        Some(p) => Some(media_from_model(*p)?),
        None => None,
    };
    Ok(ContentDTO { parent_id, parent, ty: ContentType::Unknown, description })
}

/// The image `i` as a transfer object.
pub fn image_from_model(i: ImageModel) -> (r: Result<ImageDTO, ConversionError>)
    ensures
        match r {
            Ok(d) => image_err(i) is None && image_of(i, d),
            Err(ConversionError::FailedParseUrl(e)) => image_err(i) == Some(e@),
        },
    decreases i, 0nat,
{
    let ImageModel { id: _, url, server_id, provider, ty, media_items } = i;
    let provider = match provider {
        Some(p) => Some(provider_from_model(*p)?),
        None => None,
    };
    let media_items = medias_to_dto_vec(media_items)?;
    let url = parse_stored_url(&url)?;
    Ok(ImageDTO { url, server_id, provider, ty, media_items })
}

/// The provider `p` as a transfer object.
pub fn provider_from_model(p: ProviderModel) -> (r: Result<ProviderDTO, ConversionError>)
    ensures
        match r {
            Ok(d) => provider_err(p) is None && provider_of(p, d),
            Err(ConversionError::FailedParseUrl(e)) => provider_err(p) == Some(e@),
        },
    decreases p, 0nat,
{
    let ProviderModel { provider_id, user_id, ty, url, media_items, images } = p;
    let media_items = medias_to_dto_vec(media_items)?;
    let images = images_to_dto_vec(images)?;
    let url = parse_stored_url(&url)?;
    Ok(ProviderDTO {
        authenticated: Some(false),
        key: ProviderKey { user_id, provider_id },
        ty,
        auth_schema: Vec::new(),
        url: Some(url),
        media_items,
        images,
    })
}

/// The records `v` as transfer objects, in order.
pub fn medias_from_models(v: Vec<MediaItemModel>) -> (r: Result<Vec<MediaItemDTO>, ConversionError>)
    ensures
        match r {
            Ok(d) => medias_err(v@) is None && medias_of(v@, d@),
            Err(ConversionError::FailedParseUrl(e)) => medias_err(v@) == Some(e@),
        },
    decreases v@, 1nat,
{
    let ghost all = v@;
    let mut out: Vec<MediaItemDTO> = Vec::new();
    let mut rest = v;
    while rest.len() > 0
        invariant
            all == v@,
            out@.len() <= all.len(),
            rest@ == all.subrange(out@.len() as int, all.len() as int),
            medias_err(all) == medias_err(rest@),
            forall|i: int| 0 <= i < out@.len() ==> media_of(#[trigger] all[i], out@[i]),
        decreases rest@.len(),
    {
        let ghost k = out@.len() as int;
        let next = rest.remove(0);
        assert(next == all[k]);
        assert(rest@ == all.subrange(k + 1, all.len() as int));
        assert(decreases_to!(all => all[k]));
        let d = media_from_model(next)?;
        out.push(d);
    }
    Ok(out)
}

/// The records `v` as transfer objects, in order.
pub fn originals_from_models(v: Vec<OriginalModel>) -> (r: Result<Vec<OriginalDTO>, ConversionError>)
    ensures
        match r {
            Ok(d) => originals_err(v@) is None && originals_of(v@, d@),
            Err(ConversionError::FailedParseUrl(e)) => originals_err(v@) == Some(e@),
        },
    decreases v@, 1nat,
{
    let ghost all = v@;
    let mut out: Vec<OriginalDTO> = Vec::new();
    let mut rest = v;
    while rest.len() > 0
        invariant
            all == v@,
            out@.len() <= all.len(),
            rest@ == all.subrange(out@.len() as int, all.len() as int),
            originals_err(all) == originals_err(rest@),
            forall|i: int| 0 <= i < out@.len() ==> original_of(#[trigger] all[i], out@[i]),
        decreases rest@.len(),
    {
        let ghost k = out@.len() as int;
        let next = rest.remove(0);
        assert(next == all[k]);
        assert(rest@ == all.subrange(k + 1, all.len() as int));
        assert(decreases_to!(all => all[k]));
        let d = original_from_model(next)?;
        out.push(d);
    }
    Ok(out)
}

/// The records `v` as transfer objects, in order.
pub fn contents_from_models(v: Vec<ContentModel>) -> (r: Result<Vec<ContentDTO>, ConversionError>)
    ensures
        match r {
            Ok(d) => contents_err(v@) is None && contents_of(v@, d@),
            Err(ConversionError::FailedParseUrl(e)) => contents_err(v@) == Some(e@),
        },
    decreases v@, 1nat,
{
    let ghost all = v@;
    let mut out: Vec<ContentDTO> = Vec::new();
    let mut rest = v;
    while rest.len() > 0
        invariant
            all == v@,
            out@.len() <= all.len(),
            rest@ == all.subrange(out@.len() as int, all.len() as int),
            contents_err(all) == contents_err(rest@),
            forall|i: int| 0 <= i < out@.len() ==> content_of(#[trigger] all[i], out@[i]),
        decreases rest@.len(),
    {
        let ghost k = out@.len() as int;
        let next = rest.remove(0);
        assert(next == all[k]);
        assert(rest@ == all.subrange(k + 1, all.len() as int));
        assert(decreases_to!(all => all[k]));
        let d = content_from_model(next)?;
        out.push(d);
    }
    Ok(out)
}

/// The records `v` as transfer objects, in order.
pub fn providers_from_models(v: Vec<ProviderModel>) -> (r: Result<Vec<ProviderDTO>, ConversionError>)
    ensures
        match r {
            Ok(d) => providers_err(v@) is None && providers_of(v@, d@),
            Err(ConversionError::FailedParseUrl(e)) => providers_err(v@) == Some(e@),
        },
    decreases v@, 1nat,
{
    let ghost all = v@;
    let mut out: Vec<ProviderDTO> = Vec::new();
    let mut rest = v;
    while rest.len() > 0
        invariant
            all == v@,
            out@.len() <= all.len(),
            rest@ == all.subrange(out@.len() as int, all.len() as int),
            providers_err(all) == providers_err(rest@),
            forall|i: int| 0 <= i < out@.len() ==> provider_of(#[trigger] all[i], out@[i]),
        decreases rest@.len(),
    {
        let ghost k = out@.len() as int;
        let next = rest.remove(0);
        assert(next == all[k]);
        assert(rest@ == all.subrange(k + 1, all.len() as int));
        assert(decreases_to!(all => all[k]));
        let d = provider_from_model(next)?;
        out.push(d);
    }
    Ok(out)
}

/// The records `v` as transfer objects, in order.
pub fn images_from_models(v: Vec<ImageModel>) -> (r: Result<Vec<ImageDTO>, ConversionError>)
    ensures
        match r {
            Ok(d) => images_err(v@) is None && images_of(v@, d@),
            Err(ConversionError::FailedParseUrl(e)) => images_err(v@) == Some(e@),
        },
    decreases v@, 1nat,
{
    let ghost all = v@;
    let mut out: Vec<ImageDTO> = Vec::new();
    let mut rest = v;
    while rest.len() > 0
        invariant
            all == v@,
            out@.len() <= all.len(),
            rest@ == all.subrange(out@.len() as int, all.len() as int),
            images_err(all) == images_err(rest@),
            forall|i: int| 0 <= i < out@.len() ==> image_of(#[trigger] all[i], out@[i]),
        decreases rest@.len(),
    {
        let ghost k = out@.len() as int;
        let next = rest.remove(0);
        assert(next == all[k]);
        assert(rest@ == all.subrange(k + 1, all.len() as int));
        assert(decreases_to!(all => all[k]));
        let d = image_from_model(next)?;
        out.push(d);
    }
    Ok(out)
}

/// The records `v` as transfer objects, or nothing when there are none.
pub fn medias_to_dto_vec(v: Vec<MediaItemModel>) -> (r: Result<Option<Vec<MediaItemDTO>>, ConversionError>)
    ensures
        match r {
            Ok(d) => medias_err(v@) is None && if v@.len() == 0 {
                d is None
            } else {
                d matches Some(list) && medias_of(v@, list@)
            },
            Err(ConversionError::FailedParseUrl(e)) => medias_err(v@) == Some(e@),
        },
    decreases v@, 2nat,
{
    if v.len() == 0 {
        Ok(None)
    } else {
        Ok(Some(medias_from_models(v)?))
    }
}

/// The records `v` as transfer objects, or nothing when there are none.
pub fn images_to_dto_vec(v: Vec<ImageModel>) -> (r: Result<Option<Vec<ImageDTO>>, ConversionError>)
    ensures
        match r {
            Ok(d) => images_err(v@) is None && if v@.len() == 0 {
                d is None
            } else {
                d matches Some(list) && images_of(v@, list@)
            },
            Err(ConversionError::FailedParseUrl(e)) => images_err(v@) == Some(e@),
        },
    decreases v@, 2nat,
{
    if v.len() == 0 {
        Ok(None)
    } else {
        Ok(Some(images_from_models(v)?))
    }
}

// ---- Conversion as a trait -------------------------------------------------

/// Records of type `T` that convert to transfer objects.
pub trait Convertible<T>: Sized {
    type DTO;

    /// The message of the first address in `item` that does not parse.
    spec fn conversion_err(item: T) -> Option<Seq<char>>;

    /// Whether `dto` is the transfer object made from `item`.
    spec fn converts(item: T, dto: Self::DTO) -> bool;

    /// The transfer object made from `item`.
    fn from_model(item: T) -> (r: Result<Self::DTO, ConversionError>)
        ensures
            match r {
                Ok(d) => Self::conversion_err(item) is None && Self::converts(item, d),
                Err(ConversionError::FailedParseUrl(e)) => Self::conversion_err(item) == Some(e@),
            },
    ;
}

/// The message of the first item of `s` that fails to convert.
pub open spec fn list_err<T, U: Convertible<T>>(s: Seq<T>) -> Option<Seq<char>>
    decreases s.len(),
{
    if s.len() == 0 {
        None
    } else {
        first_err(U::conversion_err(s[0]), list_err::<T, U>(s.subrange(1, s.len() as int)))
    }
}

/// Whether `t` holds, in order, the transfer objects made from `s`.
pub open spec fn all_converted<T, U: Convertible<T>>(s: Seq<T>, t: Seq<U::DTO>) -> bool {
    &&& s.len() == t.len()
    &&& forall|i: int| 0 <= i < s.len() ==> U::converts(#[trigger] s[i], t[i])
}

/// The transfer objects made from `items`, in order; fails with the first
/// item that fails.
pub fn to_vec<T, U: Convertible<T>>(items: Vec<T>) -> (r: Result<Vec<U::DTO>, ConversionError>)
    ensures
        match r {
            Ok(d) => list_err::<T, U>(items@) is None && all_converted::<T, U>(items@, d@),
            Err(ConversionError::FailedParseUrl(e)) => list_err::<T, U>(items@) == Some(e@),
        },
{
    let ghost all = items@;
    let mut out: Vec<U::DTO> = Vec::new();
    let mut rest = items;
    while rest.len() > 0
        invariant
            all == items@,
            out@.len() <= all.len(),
            rest@ == all.subrange(out@.len() as int, all.len() as int),
            list_err::<T, U>(all) == list_err::<T, U>(rest@),
            forall|i: int| 0 <= i < out@.len() ==> U::converts(#[trigger] all[i], out@[i]),
        decreases rest@.len(),
    {
        let ghost k = out@.len() as int;
        let next = rest.remove(0);
        assert(next == all[k]);
        assert(rest@ == all.subrange(k + 1, all.len() as int));
        let d = U::from_model(next)?;
        out.push(d);
    }
    Ok(out)
}

/// The transfer objects made from `items`, in order, or nothing when there
/// are no items; fails with the first item that fails.
pub fn to_dto_vec<T, U: Convertible<T>>(items: Vec<T>) -> (r: Result<Option<Vec<U::DTO>>, ConversionError>)
    ensures
        match r {
            Ok(d) => list_err::<T, U>(items@) is None && if items@.len() == 0 {
                d is None
            } else {
                d matches Some(list) && all_converted::<T, U>(items@, list@)
            },
            Err(ConversionError::FailedParseUrl(e)) => list_err::<T, U>(items@) == Some(e@),
        },
{
    if items.len() == 0 {
        return Ok(None);
    }
    let list = to_vec::<T, U>(items)?;
    Ok(Some(list))
}

impl Convertible<MediaItemModel> for MediaItemDTO {
    type DTO = MediaItemDTO;

    open spec fn conversion_err(item: MediaItemModel) -> Option<Seq<char>> {
        media_err(item)
    }

    open spec fn converts(item: MediaItemModel, dto: MediaItemDTO) -> bool {
        media_of(item, dto)
    }

    fn from_model(item: MediaItemModel) -> (r: Result<MediaItemDTO, ConversionError>) {
        media_from_model(item)
    }
}

impl Convertible<OriginalModel> for OriginalDTO {
    type DTO = OriginalDTO;

    open spec fn conversion_err(item: OriginalModel) -> Option<Seq<char>> {
        original_err(item)
    }

    open spec fn converts(item: OriginalModel, dto: OriginalDTO) -> bool {
        original_of(item, dto)
    }

    fn from_model(item: OriginalModel) -> (r: Result<OriginalDTO, ConversionError>) {
        original_from_model(item)
    }
}

impl Convertible<ContentModel> for ContentDTO {
    type DTO = ContentDTO;

    open spec fn conversion_err(item: ContentModel) -> Option<Seq<char>> {
        content_err(item)
    }

    open spec fn converts(item: ContentModel, dto: ContentDTO) -> bool {
        content_of(item, dto)
    }

    fn from_model(item: ContentModel) -> (r: Result<ContentDTO, ConversionError>) {
        content_from_model(item)
    }
}

impl Convertible<ImageModel> for ImageDTO {
    type DTO = ImageDTO;

    open spec fn conversion_err(item: ImageModel) -> Option<Seq<char>> {
        image_err(item)
    }

    open spec fn converts(item: ImageModel, dto: ImageDTO) -> bool {
        image_of(item, dto)
    }

    fn from_model(item: ImageModel) -> (r: Result<ImageDTO, ConversionError>) {
        image_from_model(item)
    }
}

impl Convertible<ProviderModel> for ProviderDTO {
    type DTO = ProviderDTO;

    open spec fn conversion_err(item: ProviderModel) -> Option<Seq<char>> {
        provider_err(item)
    }

    open spec fn converts(item: ProviderModel, dto: ProviderDTO) -> bool {
        provider_of(item, dto)
    }

    fn from_model(item: ProviderModel) -> (r: Result<ProviderDTO, ConversionError>) {
        provider_from_model(item)
    }
}

/// Converting an original record keeps its parent id and its server id: the
/// transfer object's server id is the record's server id, whatever its own
/// id; the record's parent, if any, is converted too.
pub proof fn law_original_keeps_ids(o: OriginalModel, d: OriginalDTO)
    requires
        original_of(o, d),
    ensures
        d.server_id == o.server_id,
        d.parent_id == o.parent_id,
        o.parent is Some <==> d.parent is Some,
{
}

} // verus!
