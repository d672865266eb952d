//! Indexing a provider's library into the local database: deciding which
//! related records a media item gains.
use vstd::prelude::*;
use crate::active::{
    ActiveField, ContentActive, ImageActive, MediaItemActive, MediaItemRecord, ProviderActive,
    SourceActive,
};
use crate::enums::{ContentType, ImageType, MediaItemType, ProviderVariant};
use crate::error::{IndexerError, JellyfinIndexerError, JourneyDbError};
use crate::helpers::check_exists;
use crate::ids::{format_uuid, parse_url, url_parse, uuid_text};
use crate::provider::{SdkConfig, held_id, read_id, url_outcome};
use vstd::std_specs::cmp::PartialEqSpec;

verus! {

/// What an indexer reports about one media item.
#[derive(Debug)]
pub struct IndexerMsg {
    pub item: Option<String>,
    pub success: bool,
    pub already_exists: bool,
}

/// Identifies a running indexer: the kind of provider and its record.
#[derive(Clone, Copy, Debug, PartialEq, Eq, Hash, Structural)]
pub struct IndexerKey {
    pub variant: ProviderVariant,
    pub provider_id: u128,
}

impl IndexerKey {
    /// `Key for server: <provider id>, provider: <kind>`.
    pub open spec fn spec_text(self) -> Seq<char> {
        "Key for server: "@ + uuid_text(self.provider_id) + ", provider: "@ + self.variant.spec_name()
    }

    pub fn to_string(&self) -> (text: String)
        ensures
            text@ == self.spec_text(),
    {
        let mut text = String::from_str("Key for server: ");
        let id = format_uuid(self.provider_id);
        text.append(id.as_str());
        text.append(", provider: ");
        text.append(self.variant.name());
        text
    }
}

/// Indexes the library of a Jellyfin provider.
#[derive(Debug)]
pub struct JellyfinIndexer {
    pub model: ProviderActive,
    pub config: Option<SdkConfig>,
}

/// An entry taken from the server's answer, which may lack it.
pub fn check_entry<T>(entry: Option<T>) -> (r: Result<T, IndexerError>)
    ensures
        match entry {
            Some(v) => r == Ok::<T, IndexerError>(v),
            None => r matches Err(IndexerError::JellyfinIndexerError(JellyfinIndexerError::ApiEntryRetrievalError(None))),
        },
{
    match entry {
        Some(v) => Ok(v),
        None => Err(IndexerError::JellyfinIndexerError(JellyfinIndexerError::ApiEntryRetrievalError(None))),
    }
}

impl JellyfinIndexer {
    /// The session the indexer talks to the server with.
    pub fn get_config(&self) -> (r: Result<&SdkConfig, IndexerError>)
        ensures
            match self.config {
                Some(c) => r matches Ok(got) && *got == c,
                None => r matches Err(IndexerError::JellyfinIndexerError(JellyfinIndexerError::ApiEntryRetrievalError(None))),
            },
    {
        match &self.config {
            Some(c) => Ok(c),
            None => Err(IndexerError::JellyfinIndexerError(JellyfinIndexerError::ApiEntryRetrievalError(None))),
        }
    }

    pub open spec fn spec_ty(self) -> Result<ProviderVariant, IndexerError> {
        match self.model.ty.value() {
            Some(v) => Ok(v),
            None => Err(IndexerError::MissingVariantError),
        }
    }

    /// The kind of provider recorded for the indexer.
    pub fn ty(&self) -> (r: Result<ProviderVariant, IndexerError>)
        ensures
            r == self.spec_ty(),
    {
        match self.model.ty.try_as_ref() {
            Some(v) => Ok(*v),
            None => Err(IndexerError::MissingVariantError),
        }
    }

    pub open spec fn spec_user_id(self) -> Result<u128, IndexerError> {
        match held_id(self.model.user_id) {
            Some(id) => Ok(id),
            None => Err(IndexerError::MissingUserIdError),
        }
    }

    /// The user's id on the server; a missing or nil id is reported as a
    /// missing user id.
    pub fn user_id(&self) -> (r: Result<u128, IndexerError>)
        ensures
            r == self.spec_user_id(),
    {
        match read_id(&self.model.user_id) {
            Some(id) => Ok(id),
            None => Err(IndexerError::MissingUserIdError),
        }
    }

    pub open spec fn spec_provider_id(self) -> Result<u128, IndexerError> {
        match held_id(self.model.provider_id) {
            Some(id) => Ok(id),
            None => Err(IndexerError::MissingServerIdError),
        }
    }

    /// The id of the provider record.
    pub fn provider_id(&self) -> (r: Result<u128, IndexerError>)
        ensures
            r == self.spec_provider_id(),
    {
        match read_id(&self.model.provider_id) {
            Some(id) => Ok(id),
            None => Err(IndexerError::MissingServerIdError),
        }
    }

    /// Whether `r` is what reading the server's address gives.
    pub open spec fn url_result(self, r: Result<String, IndexerError>) -> bool {
        match url_outcome(self.model) {
            None => r matches Err(IndexerError::MissingUrlError),
            Some(Ok(address)) => r matches Ok(s) && s@ == address,
            Some(Err(message)) => r matches Err(IndexerError::FailedParseUrlError(m)) && m@ == message,
        }
    }

    /// The server's address.
    pub fn url(&self) -> (r: Result<String, IndexerError>)
        ensures
            self.url_result(r),
    {
        match self.model.url.try_as_ref() {
            Some(text) => match parse_url(text.as_str()) {
                Ok(address) => Ok(address),
                Err(message) => Err(IndexerError::FailedParseUrlError(message)),
            },
            None => Err(IndexerError::MissingUrlError),
        }
    }

    pub open spec fn spec_key(self) -> Result<IndexerKey, IndexerError> {
        match self.spec_ty() {
            Err(e) => Err(e),
            Ok(variant) => match self.spec_provider_id() {
                Err(e) => Err(e),
                Ok(provider_id) => Ok(IndexerKey { variant, provider_id }),
            },
        }
    }

    /// The key under which the indexer reports.
    pub fn key(&self) -> (r: Result<IndexerKey, IndexerError>)
        ensures
            r == self.spec_key(),
    {
        let variant = self.ty()?;
        let provider_id = self.provider_id()?;
        Ok(IndexerKey { variant, provider_id })
    }
}

/// Whether some existing source record already refers to the item `source_id`.
pub open spec fn source_known(existing: Seq<SourceActive>, source_id: u128) -> bool {
    exists|i: int| 0 <= i < existing.len() && #[trigger] existing[i].source_id.value() == Some(source_id)
}

/// Whether an existing content record holds this parent, kind and
/// description, all three present.
pub open spec fn content_known(existing: Seq<ContentActive>, parent_id: u128, ty: ContentType, description: Seq<char>) -> bool {
    exists|i: int| 0 <= i < existing.len() && {
        let c = #[trigger] existing[i];
        &&& c.parent_id.value() == Some(parent_id)
        &&& c.ty.value() == Some(ty)
        &&& c.description.value() matches Some(d) && d@ == description
    }
}

/// The content records to add for the candidates `potential`, in order: each
/// candidate with a description that no existing record already holds.
pub open spec fn new_content(existing: Seq<ContentActive>, parent_id: u128, potential: Seq<(ContentType, Option<String>)>) -> Seq<ContentActive>
    decreases potential.len(),
{
    if potential.len() == 0 {
        Seq::empty()
    } else {
        let earlier = new_content(existing, parent_id, potential.drop_last());
        let (ty, description) = potential.last();
        match description {
            Some(d) => if content_known(existing, parent_id, ty, d@) {
                earlier
            } else {
                earlier.push(ContentActive {
                    parent_id: ActiveField::Assigned(parent_id),
                    ty: ActiveField::Assigned(ty),
                    description: ActiveField::Assigned(d),
                })
            },
            None => earlier,
        }
    }
}

fn content_is_known(existing: &[ContentActive], parent_id: u128, ty: ContentType, description: &String) -> (known: bool)
    ensures
        known == content_known(existing@, parent_id, ty, description@),
{
    let mut i: usize = 0;
    while i < existing.len()
        invariant
            i <= existing@.len(),
            forall|j: int| 0 <= j < i ==> {
                let c = #[trigger] existing@[j];
                !(c.parent_id.value() == Some(parent_id) && c.ty.value() == Some(ty)
                    && (c.description.value() matches Some(d) && d@ == description@))
            },
        decreases existing@.len() - i,
    {
        let c = &existing[i];
        match (c.parent_id.try_as_ref(), c.ty.try_as_ref(), c.description.try_as_ref()) {
            (Some(p), Some(t), Some(d)) => {
                if *p == parent_id && *t == ty && *d == *description {
                    assert({
                        let c = existing@[i as int];
                        c.parent_id.value() == Some(parent_id) && c.ty.value() == Some(ty)
                            && (c.description.value() matches Some(x) && x@ == description@)
                    });
                    return true;
                }
            },
            _ => {},
        }
        i = i + 1;
    }
    false
}

impl JellyfinIndexer {
    /// The source record to add for the item `source_id`, unless an existing
    /// record already refers to it.
    pub fn validate_source(&self, existing: &[SourceActive], music_brainz_id: u128, source_id: u128) -> (r: Result<Option<SourceActive>, IndexerError>)
        ensures
            match self.spec_provider_id() {
                Err(e) => r == Err::<Option<SourceActive>, IndexerError>(e),
                Ok(provider_id) => if source_known(existing@, source_id) {
                    r == Ok::<Option<SourceActive>, IndexerError>(None)
                } else {
                    r == Ok::<Option<SourceActive>, IndexerError>(Some(SourceActive {
                        source_id: ActiveField::Assigned(source_id),
                        parent_id: ActiveField::Assigned(music_brainz_id),
                        provider_id: ActiveField::Assigned(provider_id),
                    }))
                },
            },
    {
        let provider_id = self.provider_id()?;
        let source = SourceActive {
            source_id: ActiveField::Assigned(source_id),
            parent_id: ActiveField::Assigned(music_brainz_id),
            provider_id: ActiveField::Assigned(provider_id),
        };
        let mut source_exists = false;
        let mut i: usize = 0;
        while i < existing.len()
            invariant
                i <= existing@.len(),
                source_exists <==> exists|j: int| 0 <= j < i && #[trigger] existing@[j].source_id.value() == Some(source_id),
            decreases existing@.len() - i,
        {
            match existing[i].source_id.try_as_ref() {
                Some(known) => {
                    if *known == source_id {
                        source_exists = true;
                    }
                },
                None => {},
            }
            i = i + 1;
        }
        if source_exists {
            Ok(None)
        } else {
            Ok(Some(source))
        }
    }

    /// The content records to add for the candidates `potential_content`;
    /// candidates without a description are skipped. Never fails.
    pub fn validate_content(
        &self,
        existing: &[ContentActive],
        parent_id: u128,
        potential_content: Vec<(ContentType, Option<String>)>,
    ) -> (r: Result<Vec<ContentActive>, IndexerError>)
        ensures
            r matches Ok(v) && v@ == new_content(existing@, parent_id, potential_content@),
    {
        let ghost all = potential_content@;
        let mut out: Vec<ContentActive> = Vec::new();
        let mut rest = potential_content;
        let ghost mut done: Seq<(ContentType, Option<String>)> = Seq::empty();
        while rest.len() > 0
            invariant
                done + rest@ == all,
                out@ == new_content(existing@, parent_id, done),
            decreases rest@.len(),
        {
            let (ty, description) = rest.remove(0);
            proof {
                let next = done.push((ty, description));
                assert(next.drop_last() == done);
                assert(next + rest@ == all);
                done = next;
            }
            match description {
                Some(d) => {
                    if !content_is_known(existing, parent_id, ty, &d) {
                        out.push(ContentActive {
                            parent_id: ActiveField::Assigned(parent_id),
                            ty: ActiveField::Assigned(ty),
                            description: ActiveField::Assigned(d),
                        });
                    }
                },
                None => {},
            }
        }
        assert(done == all);
        Ok(out)
    }
}

/// Whether an existing image record already has the address `url`.
pub open spec fn url_known(existing: Seq<ImageActive>, url: Seq<char>) -> bool {
    exists|i: int| 0 <= i < existing.len() && (#[trigger] existing[i].url.value() matches Some(u) && u@ == url)
}

fn url_is_known(existing: &[ImageActive], url: &String) -> (known: bool)
    ensures
        known == url_known(existing@, url@),
{
    let mut i: usize = 0;
    while i < existing.len()
        invariant
            i <= existing@.len(),
            forall|j: int| 0 <= j < i ==> !(#[trigger] existing@[j].url.value() matches Some(u) && u@ == url@),
        decreases existing@.len() - i,
    {
        match existing[i].url.try_as_ref() {
            Some(u) => {
                if *u == *url {
                    assert(existing@[i as int].url.value() matches Some(x) && x@ == url@);
                    return true;
                }
            },
            None => {},
        }
        i = i + 1;
    }
    false
}

impl JellyfinIndexer {
    /// Whether adding the image candidate `entry` fails: its address is new
    /// and either does not parse or the provider record has no id.
    pub open spec fn image_entry_fails(self, existing: Seq<ImageActive>, entry: (String, ImageType)) -> bool {
        &&& !url_known(existing, entry.0@)
        &&& (url_parse(entry.0@) is Err || self.spec_provider_id() is Err)
    }

    /// Whether `e` is the error of a failing image candidate: the parser's
    /// message with the address and kind, or the missing provider id.
    pub open spec fn image_failure(self, entry: (String, ImageType), e: IndexerError) -> bool {
        match url_parse(entry.0@) {
            Err(m) => e matches IndexerError::FailedParseUrlError(x)
                && x@ == "failed with: "@ + m + " for base: "@ + entry.0@ + "/"@ + entry.1.spec_name(),
            Ok(_) => Err::<u128, IndexerError>(e) == self.spec_provider_id(),
        }
    }

    /// Whether `img` is the image record built for the candidate `entry`.
    pub open spec fn image_built(self, entry: (String, ImageType), img: ImageActive) -> bool {
        &&& url_parse(entry.0@) matches Ok(address)
        &&& img.url matches ActiveField::Assigned(u) && u@ == address
        &&& img.ty == ActiveField::Assigned(entry.1)
        &&& self.spec_provider_id() matches Ok(provider_id)
        &&& img.provider_id == ActiveField::Assigned(provider_id)
        &&& img.provider == Some(self.model)
    }

    /// Whether `output` holds, in order, the image records built for the
    /// candidates of `input` whose address is new.
    pub open spec fn images_relate(self, existing: Seq<ImageActive>, input: Seq<(String, ImageType)>, output: Seq<ImageActive>) -> bool
        decreases input.len(),
    {
        if input.len() == 0 {
            output.len() == 0
        } else if url_known(existing, input.last().0@) {
            self.images_relate(existing, input.drop_last(), output)
        } else {
            &&& output.len() > 0
            &&& self.image_built(input.last(), output.last())
            &&& self.images_relate(existing, input.drop_last(), output.drop_last())
        }
    }

    /// The image records to add for the candidates `image_metadata`: one for
    /// each candidate whose address no existing image has. Fails at the first
    /// new address that does not parse.
    pub fn validate_images(&self, existing: &[ImageActive], image_metadata: Vec<(String, ImageType)>) -> (r: Result<Vec<ImageActive>, IndexerError>)
        ensures
            match r {
                Ok(v) => self.images_relate(existing@, image_metadata@, v@)
                    && forall|i: int| 0 <= i < image_metadata@.len() ==> !self.image_entry_fails(existing@, #[trigger] image_metadata@[i]),
                Err(e) => exists|i: int| 0 <= i < image_metadata@.len() && {
                    &&& forall|j: int| 0 <= j < i ==> !self.image_entry_fails(existing@, #[trigger] image_metadata@[j])
                    &&& self.image_entry_fails(existing@, #[trigger] image_metadata@[i])
                    &&& self.image_failure(image_metadata@[i], e)
                },
            },
    {
        let ghost all = image_metadata@;
        let mut out: Vec<ImageActive> = Vec::new();
        let mut rest = image_metadata;
        let ghost mut done: Seq<(String, ImageType)> = Seq::empty();
        while rest.len() > 0
            invariant
                done + rest@ == all,
                all == image_metadata@,
                self.images_relate(existing@, done, out@),
                forall|j: int| 0 <= j < done.len() ==> !self.image_entry_fails(existing@, #[trigger] done[j]),
            decreases rest@.len(),
        {
            let (init_url, ty) = rest.remove(0);
            let ghost entry = (init_url, ty);
            let ghost next = done.push(entry);
            assert(next.drop_last() == done);
            assert(next + rest@ == all);
            assert(all[done.len() as int] == entry);
            if !url_is_known(existing, &init_url) {
                let address = match parse_url(init_url.as_str()) {
                    Ok(address) => address,
                    Err(message) => {
                        let mut text = String::from_str("failed with: ");
                        text.append(message.as_str());
                        text.append(" for base: ");
                        text.append(init_url.as_str());
                        text.append("/");
                        text.append(ty.name());
                        let ghost k = done.len() as int;
                        assert(self.image_entry_fails(existing@, all[k]));
                        assert forall|j: int| 0 <= j < k implies !self.image_entry_fails(existing@, #[trigger] all[j]) by {
                            assert(all[j] == done[j]);
                        }
                        let err = IndexerError::FailedParseUrlError(text);
                        assert(self.image_failure(all[k], err));
                        assert(all == image_metadata@);
                        return Err(err);
                    },
                };
                let provider_id = match self.provider_id() {
                    Ok(id) => id,
                    Err(e) => {
                        let ghost k = done.len() as int;
                        assert(self.image_entry_fails(existing@, all[k]));
                        assert forall|j: int| 0 <= j < k implies !self.image_entry_fails(existing@, #[trigger] all[j]) by {
                            assert(all[j] == done[j]);
                        }
                        assert(self.image_failure(all[k], e));
                        assert(all == image_metadata@);
                        return Err(e);
                    },
                };
                let image = ImageActive {
                    url: ActiveField::Assigned(address),
                    ty: ActiveField::Assigned(ty),
                    provider_id: ActiveField::Assigned(provider_id),
                    provider: Some(self.model.clone()),
                };
                let ghost before = out@;
                out.push(image);
                assert(out@.drop_last() == before);
            }
            proof {
                assert forall|j: int| 0 <= j < next.len() implies !self.image_entry_fails(existing@, #[trigger] next[j]) by {
                    if j < done.len() {
                        assert(next[j] == done[j]);
                    }
                }
                done = next;
            }
        }
        assert(done == all);
        Ok(out)
    }
}

impl JellyfinIndexer {
    /// Whether `r` is what attaching the relations to `item` gives: on
    /// success the provider, the source, the new content and the new images
    /// added after what the item held; on failure the error of the first
    /// image candidate that fails.
    pub open spec fn attach_result(
        self,
        item: MediaItemActive,
        music_brainz_id: u128,
        source_id: u128,
        potential_content: Seq<(ContentType, Option<String>)>,
        potential_images: Seq<(String, ImageType)>,
        r: Result<MediaItemActive, IndexerError>,
    ) -> bool {
        match self.spec_provider_id() {
            Err(e) => r == Err::<MediaItemActive, IndexerError>(e),
            Ok(provider_id) => match r {
                Ok(new) => {
                    &&& new.record == item.record
                    &&& new.parents == item.parents
                    &&& new.providers@ == if exists|i: int| 0 <= i < item.providers@.len()
                        && #[trigger] item.providers@[i].same_as(self.model) {
                        item.providers@
                    } else {
                        item.providers@.push(self.model)
                    }
                    &&& new.sources@ == if source_known(item.sources@, source_id) {
                        item.sources@
                    } else {
                        item.sources@.push(SourceActive {
                            source_id: ActiveField::Assigned(source_id),
                            parent_id: ActiveField::Assigned(music_brainz_id),
                            provider_id: ActiveField::Assigned(provider_id),
                        })
                    }
                    &&& new.content@ == item.content@ + new_content(item.content@, music_brainz_id, potential_content)
                    &&& new.images@.len() >= item.images@.len()
                    &&& new.images@.subrange(0, item.images@.len() as int) == item.images@
                    &&& self.images_relate(item.images@, potential_images,
                        new.images@.subrange(item.images@.len() as int, new.images@.len() as int))
                },
                Err(e) => exists|i: int| 0 <= i < potential_images.len() && {
                    &&& forall|j: int| 0 <= j < i ==> !self.image_entry_fails(item.images@, #[trigger] potential_images[j])
                    &&& self.image_entry_fails(item.images@, #[trigger] potential_images[i])
                    &&& self.image_failure(potential_images[i], e)
                },
            },
        }
    }

    /// Adds to a media item what it gains from being indexed from this
    /// provider: the provider itself unless already listed, a source record
    /// for the server item `source_id` unless already known, the new content
    /// entries and the new images. Parents are added separately, once they
    /// have been looked up.
    pub fn attach_relations(
        &self,
        item: MediaItemActive,
        music_brainz_id: u128,
        source_id: u128,
        potential_new_content: Vec<(ContentType, Option<String>)>,
        potential_new_image: Vec<(String, ImageType)>,
    ) -> (r: Result<MediaItemActive, IndexerError>)
        ensures
            self.attach_result(item, music_brainz_id, source_id, potential_new_content@, potential_new_image@, r),
    {
        let MediaItemActive { record, mut providers, mut sources, mut content, mut images, parents } = item;
        let ghost old_providers = providers@;
        let listed = check_exists(&self.model, providers.as_slice());
        assert(listed <==> exists|i: int| 0 <= i < old_providers.len()
            && #[trigger] old_providers[i].same_as(self.model)) by {
            if listed {
                let i = choose|i: int| 0 <= i < old_providers.len() && #[trigger] old_providers[i].eq_spec(&self.model);
                assert(old_providers[i].same_as(self.model));
            } else {
                assert forall|i: int| 0 <= i < old_providers.len() implies !#[trigger] old_providers[i].same_as(self.model) by {
                    assert(!old_providers[i].eq_spec(&self.model));
                }
            }
        }
        if !listed {
            providers.push(self.model.clone());
        }
        let ghost old_sources = sources@;
        match self.validate_source(sources.as_slice(), music_brainz_id, source_id)? {
            Some(source) => sources.push(source),
            None => {},
        }
        assert(sources@ == if source_known(old_sources, source_id) {
            old_sources
        } else {
            old_sources.push(SourceActive {
                source_id: ActiveField::Assigned(source_id),
                parent_id: ActiveField::Assigned(music_brainz_id),
                provider_id: ActiveField::Assigned(self.spec_provider_id()->Ok_0),
            })
        });
        let mut new_entries = match self.validate_content(content.as_slice(), music_brainz_id, potential_new_content) {
            Ok(v) => v,
            Err(e) => {
                return Err(e);
            },
        };
        content.append(&mut new_entries);
        let ghost old_images = images@;
        let mut new_images = self.validate_images(images.as_slice(), potential_new_image)?;
        let ghost added = new_images@;
        images.append(&mut new_images);
        assert(images@.subrange(0, old_images.len() as int) == old_images);
        assert(images@.subrange(old_images.len() as int, images@.len() as int) == added);
        Ok(MediaItemActive { record, providers, sources, content, images, parents })
    }

    /// Adds the parents that were found for the item's parent sources.
    pub fn attach_parents(item: &mut MediaItemActive, parents: Vec<MediaItemRecord>)
        ensures
            final(item).record == old(item).record,
            final(item).providers == old(item).providers,
            final(item).sources == old(item).sources,
            final(item).content == old(item).content,
            final(item).images == old(item).images,
            final(item).parents@ == old(item).parents@ + parents@,
    {
        let mut parents = parents;
        item.parents.append(&mut parents);
    }
}

/// Whether every image candidate's address is already in the form the URL
/// parser gives back for it.
pub open spec fn addresses_normalized(potential_images: Seq<(String, ImageType)>) -> bool {
    forall|k: int| 0 <= k < potential_images.len()
        ==> url_parse(#[trigger] potential_images[k].0@) == Ok::<Seq<char>, Seq<char>>(potential_images[k].0@)
}

proof fn lemma_content_known_grows(a: Seq<ContentActive>, b: Seq<ContentActive>, parent_id: u128, ty: ContentType, d: Seq<char>)
    requires
        content_known(a, parent_id, ty, d),
    ensures
        content_known(a + b, parent_id, ty, d),
{
    let i = choose|i: int| 0 <= i < a.len() && {
        let c = #[trigger] a[i];
        &&& c.parent_id.value() == Some(parent_id)
        &&& c.ty.value() == Some(ty)
        &&& c.description.value() matches Some(x) && x@ == d
    };
    assert((a + b)[i] == a[i]);
}

/// After the new content is added, every candidate with a description is known.
proof fn lemma_new_content_covers(existing: Seq<ContentActive>, parent_id: u128, potential: Seq<(ContentType, Option<String>)>)
    ensures
        forall|k: int| 0 <= k < potential.len() && (#[trigger] potential[k]).1 is Some ==> content_known(
            existing + new_content(existing, parent_id, potential), parent_id, potential[k].0, potential[k].1->Some_0@),
    decreases potential.len(),
{
    if potential.len() > 0 {
        let init = potential.drop_last();
        lemma_new_content_covers(existing, parent_id, init);
        let earlier = new_content(existing, parent_id, init);
        let all = new_content(existing, parent_id, potential);
        let (ty, description) = potential.last();
        assert(all == earlier || all == earlier.push(ContentActive {
            parent_id: ActiveField::Assigned(parent_id),
            ty: ActiveField::Assigned(ty),
            description: ActiveField::Assigned(description->Some_0),
        }));
        assert(existing + earlier + all.subrange(earlier.len() as int, all.len() as int) == existing + all) by {
            assert(all.subrange(0, earlier.len() as int) == earlier);
        }
        assert forall|k: int| 0 <= k < potential.len() && (#[trigger] potential[k]).1 is Some implies content_known(
            existing + all, parent_id, potential[k].0, potential[k].1->Some_0@) by {
            let d = potential[k].1->Some_0@;
            if k < init.len() {
                assert(potential[k] == init[k]);
                lemma_content_known_grows(existing + earlier, all.subrange(earlier.len() as int, all.len() as int), parent_id, potential[k].0, d);
            } else if content_known(existing, parent_id, ty, d) {
                lemma_content_known_grows(existing, all, parent_id, ty, d);
            } else {
                let n = (existing + all).len() - 1;
                assert((existing + all)[n] == all.last());
            }
        }
    }
}

/// Nothing is added for candidates that are all known already.
proof fn lemma_new_content_none(existing: Seq<ContentActive>, parent_id: u128, potential: Seq<(ContentType, Option<String>)>)
    requires
        forall|k: int| 0 <= k < potential.len() && (#[trigger] potential[k]).1 is Some ==> content_known(
            existing, parent_id, potential[k].0, potential[k].1->Some_0@),
    ensures
        new_content(existing, parent_id, potential).len() == 0,
    decreases potential.len(),
{
    if potential.len() > 0 {
        let init = potential.drop_last();
        assert forall|k: int| 0 <= k < init.len() && (#[trigger] init[k]).1 is Some implies content_known(
            existing, parent_id, init[k].0, init[k].1->Some_0@) by {
            assert(init[k] == potential[k]);
        }
        lemma_new_content_none(existing, parent_id, init);
        assert(potential.last() == potential[potential.len() - 1]);
    }
}

/// Content that was just added is never proposed again: validating the same
/// candidates against the content with the new entries added gives nothing.
pub proof fn law_content_not_proposed_again(
    existing: Seq<ContentActive>,
    parent_id: u128,
    potential: Seq<(ContentType, Option<String>)>,
)
    ensures
        new_content(existing + new_content(existing, parent_id, potential), parent_id, potential).len() == 0,
{
    lemma_new_content_covers(existing, parent_id, potential);
    lemma_new_content_none(existing + new_content(existing, parent_id, potential), parent_id, potential);
}

proof fn lemma_url_known_prefix(a: Seq<ImageActive>, b: Seq<ImageActive>, url: Seq<char>)
    requires
        url_known(a, url),
        a.len() <= b.len(),
        b.subrange(0, a.len() as int) == a,
    ensures
        url_known(b, url),
{
    let i = choose|i: int| 0 <= i < a.len() && (#[trigger] a[i].url.value() matches Some(u) && u@ == url);
    assert(b[i] == b.subrange(0, a.len() as int)[i]);
}

impl JellyfinIndexer {
    /// With normalized addresses, every image candidate's address is known
    /// once the related images are added.
    proof fn lemma_images_cover(self, existing: Seq<ImageActive>, input: Seq<(String, ImageType)>, output: Seq<ImageActive>)
        requires
            self.images_relate(existing, input, output),
            addresses_normalized(input),
        ensures
            forall|k: int| 0 <= k < input.len() ==> url_known(existing + output, (#[trigger] input[k]).0@),
        decreases input.len(),
    {
        if input.len() > 0 {
            let init = input.drop_last();
            let last = input.last();
            assert forall|k: int| 0 <= k < init.len() implies url_parse(#[trigger] init[k].0@) == Ok::<Seq<char>, Seq<char>>(init[k].0@) by {
                assert(init[k] == input[k]);
            }
            assert(url_parse(last.0@) == Ok::<Seq<char>, Seq<char>>(last.0@)) by {
                assert(last == input[input.len() - 1]);
            }
            if url_known(existing, last.0@) {
                self.lemma_images_cover(existing, init, output);
                assert forall|k: int| 0 <= k < input.len() implies url_known(existing + output, (#[trigger] input[k]).0@) by {
                    if k < init.len() {
                        assert(input[k] == init[k]);
                    } else {
                        assert((existing + output).subrange(0, existing.len() as int) == existing);
                        lemma_url_known_prefix(existing, existing + output, last.0@);
                    }
                }
            } else {
                let shorter = output.drop_last();
                self.lemma_images_cover(existing, init, shorter);
                let whole = existing + output;
                assert(whole.subrange(0, (existing + shorter).len() as int) == existing + shorter);
                assert forall|k: int| 0 <= k < input.len() implies url_known(whole, (#[trigger] input[k]).0@) by {
                    if k < init.len() {
                        assert(input[k] == init[k]);
                        lemma_url_known_prefix(existing + shorter, whole, init[k].0@);
                    } else {
                        let n = whole.len() - 1;
                        assert(input[k] == last);
                        assert(whole[n] == output.last());
                        assert(whole[n].url.value() matches Some(u) && u@ == last.0@);
                    }
                }
            }
        }
    }

    /// Nothing is added for image candidates whose addresses are all known.
    proof fn lemma_images_none(self, existing: Seq<ImageActive>, input: Seq<(String, ImageType)>, output: Seq<ImageActive>)
        requires
            self.images_relate(existing, input, output),
            forall|k: int| 0 <= k < input.len() ==> url_known(existing, (#[trigger] input[k]).0@),
        ensures
            output.len() == 0,
        decreases input.len(),
    {
        if input.len() > 0 {
            let init = input.drop_last();
            assert forall|k: int| 0 <= k < init.len() implies url_known(existing, (#[trigger] init[k]).0@) by {
                assert(init[k] == input[k]);
            }
            assert(input.last() == input[input.len() - 1]);
            self.lemma_images_none(existing, init, output);
        }
    }

    /// Indexing the same item twice from the same provider adds nothing the
    /// second time: attaching the same relations again succeeds and leaves
    /// every relation as the first attachment left it. This holds where the
    /// image addresses are already in the form the URL parser gives back.
    pub proof fn law_attach_is_idempotent(
        self,
        item: MediaItemActive,
        music_brainz_id: u128,
        source_id: u128,
        potential_content: Seq<(ContentType, Option<String>)>,
        potential_images: Seq<(String, ImageType)>,
        once: MediaItemActive,
        again: Result<MediaItemActive, IndexerError>,
    )
        requires
            addresses_normalized(potential_images),
            self.attach_result(item, music_brainz_id, source_id, potential_content, potential_images,
                Ok::<MediaItemActive, IndexerError>(once)),
            self.attach_result(once, music_brainz_id, source_id, potential_content, potential_images, again),
        ensures
            again matches Ok(twice) && {
                &&& twice.record == once.record
                &&& twice.parents == once.parents
                &&& twice.providers@ == once.providers@
                &&& twice.sources@ == once.sources@
                &&& twice.content@ == once.content@
                &&& twice.images@ == once.images@
            },
    {
        let added = once.images@.subrange(item.images@.len() as int, once.images@.len() as int);
        self.lemma_images_cover(item.images@, potential_images, added);
        assert(item.images@ + added == once.images@) by {
            assert(once.images@.subrange(0, item.images@.len() as int) == item.images@);
        }
        // The second attachment cannot fail: no image candidate has a new address.
        if again is Err {
            let i = choose|i: int| 0 <= i < potential_images.len() && {
                &&& forall|j: int| 0 <= j < i ==> !self.image_entry_fails(once.images@, #[trigger] potential_images[j])
                &&& self.image_entry_fails(once.images@, #[trigger] potential_images[i])
                &&& self.image_failure(potential_images[i], again->Err_0)
            };
            assert(url_known(once.images@, potential_images[i].0@));
        }
        let twice = again->Ok_0;
        // Providers: the indexer's own record is listed after the first time.
        let providers = once.providers@;
        if !(exists|i: int| 0 <= i < item.providers@.len() && #[trigger] item.providers@[i].same_as(self.model)) {
            assert(providers[providers.len() - 1].same_as(self.model));
        } else {
            let i = choose|i: int| 0 <= i < item.providers@.len() && #[trigger] item.providers@[i].same_as(self.model);
            assert(providers[i].same_as(self.model));
        }
        // Sources: the item's source is known after the first time.
        if !source_known(item.sources@, source_id) {
            let sources = once.sources@;
            assert(sources[sources.len() - 1].source_id.value() == Some(source_id));
        }
        // Content: every candidate is known after the first time.
        lemma_new_content_covers(item.content@, music_brainz_id, potential_content);
        lemma_new_content_none(once.content@, music_brainz_id, potential_content);
        // Images: every address is known after the first time.
        let again_added = twice.images@.subrange(once.images@.len() as int, twice.images@.len() as int);
        self.lemma_images_none(once.images@, potential_images, again_added);
        assert(twice.images@ == twice.images@.subrange(0, once.images@.len() as int));
    }
}

/// The values present among `found`, in order.
pub open spec fn present<T>(found: Seq<Option<T>>) -> Seq<T>
    decreases found.len(),
{
    if found.len() == 0 {
        Seq::empty()
    } else {
        let earlier = present(found.drop_last());
        match found.last() {
            Some(v) => earlier.push(v),
            None => earlier,
        }
    }
}

/// The parent records that the lookups by parent source found, in order;
/// lookups that found nothing are skipped.
pub fn collect_found<T>(found: Vec<Option<T>>) -> (kept: Vec<T>)
    ensures
        kept@ == present(found@),
{
    let ghost all = found@;
    let mut kept: Vec<T> = Vec::new();
    let mut rest = found;
    let ghost mut done: Seq<Option<T>> = Seq::empty();
    while rest.len() > 0
        invariant
            done + rest@ == all,
            kept@ == present(done),
        decreases rest@.len(),
    {
        let next = rest.remove(0);
        proof {
            let grown = done.push(next);
            assert(grown.drop_last() == done);
            assert(grown + rest@ == all);
            done = grown;
        }
        match next {
            Some(v) => kept.push(v),
            None => {},
        }
    }
    assert(done == all);
    kept
}

/// How a lookup of media items in the database failed.
#[derive(Debug)]
pub enum LookupFailure {
    /// The database reported that no record was found.
    RecordNotFound(String),
    /// Any other database failure.
    Other(String),
}

/// What a lookup of media items gives: the items found, nothing when none
/// was found, or the failure.
pub fn lookup_outcome<T>(looked_up: Result<Vec<T>, LookupFailure>) -> (r: Result<Option<Vec<T>>, IndexerError>)
    ensures
        match looked_up {
            Ok(items) => if items@.len() == 0 {
                r matches Ok(None)
            } else {
                r == Ok::<Option<Vec<T>>, IndexerError>(Some(items))
            },
            Err(LookupFailure::RecordNotFound(_)) => r matches Ok(None),
            Err(LookupFailure::Other(m)) => r matches Err(IndexerError::JourneyDbError(JourneyDbError::RecordNotFound(x)))
                && x@ == m@,
        },
{
    match looked_up {
        Ok(items) => if items.len() == 0 {
            Ok(None)
        } else {
            Ok(Some(items))
        },
        Err(LookupFailure::RecordNotFound(_)) => Ok(None),
        Err(LookupFailure::Other(message)) => Err(IndexerError::JourneyDbError(JourneyDbError::RecordNotFound(message))),
    }
}

/// The outline gradient a new media item starts with.
pub open spec fn default_gradient() -> Seq<char> {
    "#ff000000"@
}

/// A new media item record of kind `ty` with the given ids and the default
/// outline gradient, and no related records.
pub fn new_media_item(ty: MediaItemType, music_brainz_id: u128, weak_id: &String, is_tmp: bool) -> (item: MediaItemActive)
    ensures
        item.record.music_brainz_id == ActiveField::Assigned(music_brainz_id),
        item.record.weak_id matches ActiveField::Assigned(w) && w@ == weak_id@,
        item.record.ty == ActiveField::Assigned(ty),
        item.record.is_tmp == ActiveField::Assigned(is_tmp),
        item.record.outline_gradient matches ActiveField::Assigned(g) && g@ == default_gradient(),
        item.providers@.len() == 0,
        item.sources@.len() == 0,
        item.content@.len() == 0,
        item.images@.len() == 0,
        item.parents@.len() == 0,
{
    MediaItemActive {
        record: MediaItemRecord {
            music_brainz_id: ActiveField::Assigned(music_brainz_id),
            weak_id: ActiveField::Assigned(weak_id.clone()),
            ty: ActiveField::Assigned(ty),
            is_tmp: ActiveField::Assigned(is_tmp),
            outline_gradient: ActiveField::Assigned(String::from_str("#ff000000")),
        },
        providers: Vec::new(),
        sources: Vec::new(),
        content: Vec::new(),
        images: Vec::new(),
        parents: Vec::new(),
    }
}

/// The MusicBrainz id to index an item under, and whether it is temporary:
/// the one the server knows, or else a fresh temporary one, a version 7 id,
/// which is not nil.
pub fn resolve_music_brainz_id(known: Option<u128>) -> (r: (u128, bool))
    ensures
        match known {
            Some(id) => r == (id, false),
            None => r.1 && r.0 != crate::ids::NIL_ID && crate::ids::nibble(r.0, 12) == 7,
        },
{
    match known {
        Some(id) => (id, false),
        None => (crate::ids::fresh_uuid(), true),
    }
}

/// The media item to index into, given what looking it up gave: the item
/// found and the id it is known under, or nothing and the id to use. Also
/// tells whether the item already existed.
pub fn build_media_item(
    lookup: (Option<MediaItemActive>, u128),
    weak_id: &String,
    ty: MediaItemType,
    is_tmp: bool,
) -> (r: (MediaItemActive, u128, bool))
    ensures
        r.1 == lookup.1,
        match lookup.0 {
            Some(item) => r.0 == item && r.2,
            None => !r.2 && r.0.record.music_brainz_id == ActiveField::Assigned(lookup.1)
                && (r.0.record.weak_id matches ActiveField::Assigned(w) && w@ == weak_id@)
                && r.0.record.ty == ActiveField::Assigned(ty)
                && r.0.record.is_tmp == ActiveField::Assigned(is_tmp)
                && (r.0.record.outline_gradient matches ActiveField::Assigned(g) && g@ == default_gradient())
                && r.0.providers@.len() == 0 && r.0.sources@.len() == 0 && r.0.content@.len() == 0
                && r.0.images@.len() == 0 && r.0.parents@.len() == 0,
        },
{
    let (found, music_brainz_id) = lookup;
    match found {
        Some(item) => (item, music_brainz_id, true),
        None => (new_media_item(ty, music_brainz_id, weak_id, is_tmp), music_brainz_id, false),
    }
}

/// The report on one indexed item and the error to keep, given how saving
/// it went.
pub fn index_report(weak_id: String, saved: Result<(), String>, already_exists: bool) -> (r: (IndexerMsg, Option<IndexerError>))
    ensures
        r.0.item == Some(weak_id),
        r.0.success == saved is Ok,
        r.0.already_exists == already_exists,
        match saved {
            Ok(_) => r.1 is None,
            Err(m) => r.1 matches Some(IndexerError::JourneyDbError(JourneyDbError::Unknown(x))) && x@ == m@,
        },
{
    let (success, error) = match saved {
        Ok(_) => (true, None),
        Err(message) => (false, Some(IndexerError::JourneyDbError(JourneyDbError::Unknown(message)))),
    };
    (IndexerMsg { item: Some(weak_id), success, already_exists }, error)
}

/// The outcome of indexing one item once its report was sent: the kept error,
/// or a failure to send.
pub fn delivery_outcome(sent: Result<(), String>, error: Option<IndexerError>) -> (r: Result<Option<IndexerError>, IndexerError>)
    ensures
        match sent {
            Ok(_) => r == Ok::<Option<IndexerError>, IndexerError>(error),
            Err(m) => r matches Err(IndexerError::FailedMsgSendError(x)) && x@ == m@,
        },
{
    match sent {
        Ok(_) => Ok(error),
        Err(message) => Err(IndexerError::FailedMsgSendError(message)),
    }
}

/// A candidate with a description is proposed exactly when no existing
/// record has the same parent, the same kind and the same description: a
/// record of another kind, or of another parent, with the same description
/// does not make it known.
pub proof fn law_content_known_by_parent_kind_and_description(
    existing: Seq<ContentActive>,
    parent_id: u128,
    ty: ContentType,
    d: String,
)
    ensures
        (exists|i: int| 0 <= i < existing.len() && {
            let c = #[trigger] existing[i];
            &&& c.parent_id.value() == Some(parent_id)
            &&& c.ty.value() == Some(ty)
            &&& c.description.value() matches Some(x) && x@ == d@
        }) ==> new_content(existing, parent_id, seq![(ty, Some(d))]).len() == 0,
        (forall|i: int| 0 <= i < existing.len() && (#[trigger] existing[i]).parent_id.value() == Some(parent_id)
            && (existing[i].description.value() matches Some(x) && x@ == d@) ==> existing[i].ty.value() != Some(ty))
            ==> new_content(existing, parent_id, seq![(ty, Some(d))]) == seq![ContentActive {
                parent_id: ActiveField::Assigned(parent_id),
                ty: ActiveField::Assigned(ty),
                description: ActiveField::Assigned(d),
            }],
{
    let one = seq![(ty, Some(d))];
    assert(one.drop_last() =~= Seq::<(ContentType, Option<String>)>::empty());
    assert(one.last() == (ty, Some(d)));
    assert(new_content(existing, parent_id, one.drop_last()) =~= Seq::<ContentActive>::empty());
}

} // verus!
