//! The registry of signed-in providers, one per user and provider record.
use vstd::prelude::*;
use crate::active::ProviderActive;
use crate::dto::{ProviderDTO, ProviderKey};
use crate::enums::{ProviderAuthSchema, ProviderVariant};
use crate::error::{ProviderError, ProviderManagerError};
use crate::indexer::JellyfinIndexer;
use crate::provider::{AuthReply, HostInfo, JellyfinProvider, auth_applied, reported_ids};
use crate::ids::NIL_ID;
use crate::keyed::{holds_key, keyed_map, keys_unique, lemma_keyed_at, lemma_keyed_push, lemma_keyed_remove, lemma_keyed_update};

verus! {

/// A registered provider under its key.
#[derive(Debug)]
pub struct ProviderEntry {
    pub key: ProviderKey,
    pub provider: JellyfinProvider,
}

/// The providers the application knows, each under its own key.
#[derive(Debug)]
pub struct ProviderManager {
    variants: Vec<ProviderEntry>,
}

/// The entries as (key, provider) pairs.
pub open spec fn entry_pairs(s: Seq<ProviderEntry>) -> Seq<(ProviderKey, JellyfinProvider)> {
    s.map_values(|e: ProviderEntry| (e.key, e.provider))
}

/// Whether no two entries share a key.
pub open spec fn keys_distinct(s: Seq<ProviderEntry>) -> bool {
    keys_unique(entry_pairs(s))
}

/// Whether `k` is the key of some entry.
pub open spec fn has_key(s: Seq<ProviderEntry>, k: ProviderKey) -> bool {
    holds_key(entry_pairs(s), k)
}

/// The entries seen as a map from keys to providers.
pub open spec fn entries_map(s: Seq<ProviderEntry>) -> Map<ProviderKey, JellyfinProvider> {
    keyed_map(entry_pairs(s))
}

impl ProviderManager {
    /// The registered entries, in registration order.
    pub closed spec fn entries(self) -> Seq<ProviderEntry> {
        self.variants@
    }

    /// The registry's well-formedness: no key occurs twice.
    #[verifier::type_invariant]
    spec fn wf(self) -> bool {
        keys_distinct(self.variants@)
    }

    /// The registry as a map from keys to providers.
    pub open spec fn view(self) -> Map<ProviderKey, JellyfinProvider> {
        entries_map(self.entries())
    }

    /// An empty registry.
    pub fn new() -> (m: Self)
        ensures
            m.entries().len() == 0,
            m@ == Map::<ProviderKey, JellyfinProvider>::empty(),
    {
        let m = ProviderManager { variants: Vec::new() };
        assert(m@ =~= Map::<ProviderKey, JellyfinProvider>::empty());
        m
    }

    /// The position of `key` among the entries, if it is registered.
    fn find(&self, key: &ProviderKey) -> (pos: Option<usize>)
        ensures
            match pos {
                Some(i) => i < self.entries().len() && self.entries()[i as int].key == *key,
                None => !has_key(self.entries(), *key),
            },
    {
        let mut i: usize = 0;
        while i < self.variants.len()
            invariant
                i <= self.variants@.len(),
                forall|j: int| 0 <= j < i ==> self.variants@[j].key != *key,
            decreases self.variants@.len() - i,
        {
            if self.variants[i].key == *key {
                return Some(i);
            }
            i = i + 1;
        }
        None
    }

    /// The provider registered under `key`.
    pub fn get_variant(&self, key: &ProviderKey) -> (r: Result<&JellyfinProvider, ProviderManagerError>)
        ensures
            match r {
                Ok(p) => self@.contains_key(*key) && *p == self@[*key],
                Err(e) => !self@.contains_key(*key) && e is NoProviderError,
            },
    {
        proof {
            use_type_invariant(self);
        }
        match self.find(key) {
            Some(i) => {
                proof {
                    lemma_keyed_at(entry_pairs(self.entries()), i as int);
                }
                Ok(&self.variants[i].provider)
            },
            None => Err(ProviderManagerError::NoProviderError),
        }
    }

    /// Whether a provider is registered under `key`; never fails.
    pub fn provider_exists(&self, key: &ProviderKey) -> (r: Result<bool, ProviderManagerError>)
        ensures
            r == Ok::<bool, ProviderManagerError>(self@.contains_key(*key)),
    {
        proof {
            use_type_invariant(self);
        }
        match self.find(key) {
            Some(i) => {
                proof {
                    lemma_keyed_at(entry_pairs(self.entries()), i as int);
                }
                Ok(true)
            },
            None => Ok(false),
        }
    }
}

impl ProviderManager {
    /// Registers `provider` under its key, replacing whatever was registered
    /// under that key. A provider without a key is refused.
    pub fn register(&mut self, provider: JellyfinProvider) -> (r: Result<(), ProviderManagerError>)
        ensures
            match provider.spec_key() {
                Ok(key) => r is Ok && final(self)@ == old(self)@.insert(key, provider),
                Err(e) => r == Err::<(), ProviderManagerError>(ProviderManagerError::ProviderError(e))
                    && final(self)@ == old(self)@,
            },
    {
        let key = match provider.key() {
            Ok(key) => key,
            Err(e) => {
                return Err(ProviderManagerError::ProviderError(e));
            },
        };
        proof {
            use_type_invariant(&*self);
        }
        let ghost old_entries = self.entries();
        let ghost p = provider;
        let pos = self.find(&key);
        let mut variants: Vec<ProviderEntry> = Vec::new();
        std::mem::swap(&mut variants, &mut self.variants);
        match pos {
            Some(i) => {
                variants.set(i, ProviderEntry { key, provider });
                proof {
                    assert(entry_pairs(variants@) =~= entry_pairs(old_entries).update(i as int, (key, p)));
                    lemma_keyed_update(entry_pairs(old_entries), i as int, p);
                }
            },
            None => {
                variants.push(ProviderEntry { key, provider });
                proof {
                    assert(entry_pairs(variants@) =~= entry_pairs(old_entries).push((key, p)));
                    lemma_keyed_push(entry_pairs(old_entries), key, p);
                }
            },
        }
        self.variants = variants;
        Ok(())
    }

    /// Removes and returns the provider registered under `key`; the first
    /// step of deregistering it.
    pub fn take(&mut self, key: &ProviderKey) -> (r: Result<JellyfinProvider, ProviderManagerError>)
        ensures
            match r {
                Ok(p) => old(self)@.contains_key(*key) && p == old(self)@[*key]
                    && final(self)@ == old(self)@.remove(*key),
                Err(e) => !old(self)@.contains_key(*key) && e is DeregisterError
                    && final(self)@ == old(self)@,
            },
    {
        proof {
            use_type_invariant(&*self);
        }
        let ghost old_entries = self.entries();
        match self.find(key) {
            Some(i) => {
                proof {
                    lemma_keyed_at(entry_pairs(old_entries), i as int);
                }
                let mut variants: Vec<ProviderEntry> = Vec::new();
                std::mem::swap(&mut variants, &mut self.variants);
                let entry = variants.remove(i);
                proof {
                    assert(entry_pairs(variants@) =~= entry_pairs(old_entries).remove(i as int));
                    lemma_keyed_remove(entry_pairs(old_entries), i as int);
                }
                self.variants = variants;
                Ok(entry.provider)
            },
            None => Err(ProviderManagerError::DeregisterError),
        }
    }
}

/// Whether `r` is what asking `p` for an indexer gives, when looking for
/// tokens gave `auth`: only a provider with tokens is indexed, and it needs a
/// kind, a valid address and a session.
pub open spec fn indexer_for_result(
    p: JellyfinProvider,
    auth: Result<bool, String>,
    r: Result<JellyfinIndexer, ProviderManagerError>,
) -> bool {
    match auth {
        Err(message) => r matches Err(ProviderManagerError::NotAuthenticatedError(m)) && m@ == message@,
        Ok(false) => r matches Err(ProviderManagerError::NotAuthenticatedError(m)) && m@ == Seq::<char>::empty(),
        Ok(true) => match p.spec_stored_ty() {
            Err(e) => r == Err::<JellyfinIndexer, ProviderManagerError>(ProviderManagerError::ProviderError(e)),
            Ok(_) => match crate::provider::url_outcome(p.model) {
                Some(Ok(_)) => match p.config {
                    Some(config) => r matches Ok(indexer) && indexer.model == p.model
                        && indexer.config == Some(config),
                    None => r matches Err(ProviderManagerError::ProviderError(
                        ProviderError::JellyfinProviderError(
                            crate::error::JellyfinProviderError::ApiEntryRetrievalError(None),
                        ),
                    )),
                },
                _ => r matches Err(ProviderManagerError::ProviderError(e)) && p.url_result(Err(e)),
            },
        },
    }
}

/// Whether asking `p` for an indexer succeeds when looking for tokens gave
/// `auth`.
pub open spec fn indexer_for_ok(p: JellyfinProvider, auth: Result<bool, String>) -> bool {
    &&& auth == Ok::<bool, String>(true)
    &&& p.spec_stored_ty() is Ok
    &&& crate::provider::url_outcome(p.model) matches Some(Ok(_))
    &&& p.config is Some
}

impl ProviderManager {
    /// A provider of kind `ty` for the record `model`; only Jellyfin providers
    /// exist.
    pub fn get_type(
        &self,
        ty: &ProviderVariant,
        model: ProviderActive,
        host: &HostInfo,
    ) -> (r: Result<JellyfinProvider, ProviderManagerError>)
        ensures
            match *ty {
                ProviderVariant::JellyfinProvider => r matches Ok(p) && p.model == model
                    && freshly_created(p, *host),
                ProviderVariant::Unknown => r matches Err(ProviderManagerError::UnknownProviderError),
            },
    {
        match ty {
            ProviderVariant::JellyfinProvider => Ok(JellyfinProvider::new(model, host)),
            ProviderVariant::Unknown => Err(ProviderManagerError::UnknownProviderError),
        }
    }

    /// The kinds of provider that can be created.
    pub fn get_supported_variants(&self) -> (variants: Vec<ProviderVariant>)
        ensures
            variants@ == seq![ProviderVariant::JellyfinProvider],
    {
        let mut variants = Vec::new();
        variants.push(ProviderVariant::JellyfinProvider);
        variants
    }

    /// The ways a provider of kind `variant` can sign in.
    pub fn get_supported_auth_schema(&self, variant: ProviderVariant) -> (r: Result<Vec<ProviderAuthSchema>, ProviderManagerError>)
        ensures
            match variant {
                ProviderVariant::JellyfinProvider => r matches Ok(v) && v@ == seq![ProviderAuthSchema::Password],
                ProviderVariant::Unknown => r matches Err(ProviderManagerError::UnknownProviderError),
            },
    {
        match variant {
            ProviderVariant::JellyfinProvider => {
                let mut schemas = Vec::new();
                schemas.push(ProviderAuthSchema::Password);
                Ok(schemas)
            },
            ProviderVariant::Unknown => Err(ProviderManagerError::UnknownProviderError),
        }
    }

    /// The registered providers, in registration order.
    pub fn get_variants_values(&self) -> (providers: Vec<&JellyfinProvider>)
        ensures
            providers@.len() == self.entries().len(),
            forall|i: int| 0 <= i < providers@.len() ==> *providers@[i] == #[trigger] self.entries()[i].provider,
    {
        let mut providers: Vec<&JellyfinProvider> = Vec::new();
        let mut i: usize = 0;
        while i < self.variants.len()
            invariant
                i <= self.variants@.len(),
                providers@.len() == i,
                forall|j: int| 0 <= j < i ==> *providers@[j] == #[trigger] self.variants@[j].provider,
            decreases self.variants@.len() - i,
        {
            providers.push(&self.variants[i].provider);
            i = i + 1;
        }
        providers
    }

    /// Every registered provider in a listing, in registration order; fails
    /// with the first provider that lacks a kind or a key.
    pub fn get_providers(&self) -> (r: Result<Vec<ProviderDTO>, ProviderManagerError>)
        ensures
            match r {
                Ok(v) => v@.len() == self.entries().len() && forall|i: int| 0 <= i < v@.len() ==> {
                    let p = #[trigger] self.entries()[i].provider;
                    &&& p.spec_stored_ty() == Ok::<ProviderVariant, ProviderError>(v@[i].ty)
                    &&& p.spec_key() == Ok::<ProviderKey, ProviderError>(v@[i].key)
                    &&& v@[i].authenticated is None && v@[i].url is None && v@[i].auth_schema@.len() == 0
                    &&& v@[i].media_items is None && v@[i].images is None
                },
                Err(e) => exists|i: int| #![trigger self.entries()[i]] 0 <= i < self.entries().len() && {
                    &&& forall|j: int| 0 <= j < i ==> {
                        let q = #[trigger] self.entries()[j].provider;
                        q.spec_stored_ty() is Ok && q.spec_key() is Ok
                    }
                    &&& {
                        let p = self.entries()[i].provider;
                        match (p.spec_stored_ty(), p.spec_key()) {
                            (Err(pe), _) => e == ProviderManagerError::ProviderError(pe),
                            (Ok(_), Err(pe)) => e == ProviderManagerError::ProviderError(pe),
                            _ => false,
                        }
                    }
                },
            },
    {
        let mut out: Vec<ProviderDTO> = Vec::new();
        let mut i: usize = 0;
        while i < self.variants.len()
            invariant
                i <= self.variants@.len(),
                out@.len() == i,
                forall|j: int| 0 <= j < i ==> {
                    let p = #[trigger] self.variants@[j].provider;
                    &&& p.spec_stored_ty() == Ok::<ProviderVariant, ProviderError>(out@[j].ty)
                    &&& p.spec_key() == Ok::<ProviderKey, ProviderError>(out@[j].key)
                    &&& out@[j].authenticated is None && out@[j].url is None && out@[j].auth_schema@.len() == 0
                    &&& out@[j].media_items is None && out@[j].images is None
                },
            decreases self.variants@.len() - i,
        {
            match self.variants[i].provider.summary() {
                Ok(d) => out.push(d),
                Err(e) => {
                    let ghost k = i as int;
                    assert(forall|j: int| 0 <= j < k ==> {
                        let q = #[trigger] self.entries()[j].provider;
                        q.spec_stored_ty() is Ok && q.spec_key() is Ok
                    });
                    return Err(ProviderManagerError::ProviderError(e));
                },
            }
            i = i + 1;
        }
        Ok(out)
    }

    /// An indexer for `provider`, given what looking for its tokens gave.
    pub fn indexer_for(provider: &JellyfinProvider, auth: &Result<bool, String>) -> (r: Result<JellyfinIndexer, ProviderManagerError>)
        ensures
            indexer_for_result(*provider, *auth, r),
            r is Ok <==> indexer_for_ok(*provider, *auth),
    {
        match auth {
            Ok(true) => {
                match provider.stored_ty() {
                    Ok(_) => {},
                    Err(e) => {
                        return Err(ProviderManagerError::ProviderError(e));
                    },
                }
                match provider.url() {
                    Ok(_) => {},
                    Err(e) => {
                        return Err(ProviderManagerError::ProviderError(e));
                    },
                }
                match provider.get_indexer() {
                    Ok(indexer) => Ok(indexer),
                    Err(e) => Err(ProviderManagerError::ProviderError(e)),
                }
            },
            Ok(false) => Err(ProviderManagerError::NotAuthenticatedError(String::new())),
            Err(message) => Err(ProviderManagerError::NotAuthenticatedError(message.clone())),
        }
    }

    /// Indexers for all registered providers, in registration order, given
    /// what looking for each provider's tokens gave; fails with the first
    /// provider that cannot be indexed.
    pub fn get_indexers(&self, auths: &Vec<Result<bool, String>>) -> (r: Result<Vec<JellyfinIndexer>, ProviderManagerError>)
        requires
            auths@.len() == self.entries().len(),
        ensures
            match r {
                Ok(v) => v@.len() == self.entries().len() && forall|i: int| 0 <= i < v@.len() ==>
                    indexer_for_result(#[trigger] self.entries()[i].provider, auths@[i], Ok(v@[i])),
                Err(e) => exists|i: int| #![trigger self.entries()[i]] 0 <= i < self.entries().len() && {
                    &&& forall|j: int| 0 <= j < i ==> indexer_for_ok(#[trigger] self.entries()[j].provider, auths@[j])
                    &&& indexer_for_result(self.entries()[i].provider, auths@[i], Err(e))
                },
            },
    {
        let mut out: Vec<JellyfinIndexer> = Vec::new();
        let mut i: usize = 0;
        while i < self.variants.len()
            invariant
                i <= self.variants@.len(),
                auths@.len() == self.variants@.len(),
                out@.len() == i,
                forall|j: int| 0 <= j < i ==> indexer_for_result(#[trigger] self.variants@[j].provider, auths@[j], Ok(out@[j])),
                forall|j: int| 0 <= j < i ==> indexer_for_ok(#[trigger] self.variants@[j].provider, auths@[j]),
            decreases self.variants@.len() - i,
        {
            match Self::indexer_for(&self.variants[i].provider, &auths[i]) {
                Ok(indexer) => out.push(indexer),
                Err(e) => {
                    return Err(e);
                },
            }
            i = i + 1;
        }
        Ok(out)
    }

    /// The first half of validating a freshly signed-in provider: a provider
    /// that has tokens may not take a key that is already registered.
    pub fn check_provider_free(&self, provider: &JellyfinProvider, authenticated: bool) -> (r: Result<(), ProviderManagerError>)
        ensures
            !authenticated ==> r is Ok,
            authenticated ==> match provider.spec_key() {
                Err(e) => r == Err::<(), ProviderManagerError>(ProviderManagerError::ProviderError(e)),
                Ok(key) => if self@.contains_key(key) {
                    r matches Err(ProviderManagerError::ProviderInUseError)
                } else {
                    r is Ok
                },
            },
    {
        if authenticated {
            let key = match provider.key() {
                Ok(key) => key,
                Err(e) => {
                    return Err(ProviderManagerError::ProviderError(e));
                },
            };
            match self.provider_exists(&key) {
                Ok(true) => {
                    return Err(ProviderManagerError::ProviderInUseError);
                },
                _ => {},
            }
        }
        Ok(())
    }
}

/// The key a provider with the record `m` is registered under.
pub open spec fn model_key(m: ProviderActive) -> Result<ProviderKey, ProviderError> {
    match crate::provider::held_id(m.user_id) {
        None => Err(ProviderError::MissingUserIdError),
        Some(user_id) => match crate::provider::held_id(m.provider_id) {
            None => Err(ProviderError::MissingServerIdError),
            Some(provider_id) => Ok(ProviderKey { user_id, provider_id }),
        },
    }
}

/// The records of the registered providers, by key.
pub open spec fn registered_models(m: Map<ProviderKey, JellyfinProvider>) -> Map<ProviderKey, ProviderActive> {
    m.map_values(|p: JellyfinProvider| p.model)
}

/// What registering the stored records `known` one after the other makes of
/// the registered records `before`: the records registered up to the first
/// one that cannot be, and that one's error.
pub open spec fn init_outcome(
    before: Map<ProviderKey, ProviderActive>,
    known: Seq<(ProviderVariant, ProviderActive)>,
) -> (Map<ProviderKey, ProviderActive>, Option<ProviderManagerError>)
    decreases known.len(),
{
    if known.len() == 0 {
        (before, None)
    } else {
        let earlier = init_outcome(before, known.drop_last());
        if earlier.1 is Some {
            earlier
        } else {
            let (ty, model) = known.last();
            match ty {
                ProviderVariant::Unknown => (earlier.0, Some(ProviderManagerError::UnknownProviderError)),
                ProviderVariant::JellyfinProvider => match model_key(model) {
                    Ok(key) => (earlier.0.insert(key, model), None),
                    Err(e) => (earlier.0, Some(ProviderManagerError::ProviderError(e))),
                },
            }
        }
    }
}

/// Once a record cannot be registered, the records after it are not looked at.
proof fn lemma_init_stops(
    before: Map<ProviderKey, ProviderActive>,
    done: Seq<(ProviderVariant, ProviderActive)>,
    rest: Seq<(ProviderVariant, ProviderActive)>,
)
    requires
        init_outcome(before, done).1 is Some,
    ensures
        init_outcome(before, done + rest) == init_outcome(before, done),
    decreases rest.len(),
{
    if rest.len() > 0 {
        lemma_init_stops(before, done, rest.drop_last());
        assert((done + rest).drop_last() == done + rest.drop_last());
    } else {
        assert(done + rest == done);
    }
}

/// Whether `p` is a provider created afresh for this application and host:
/// not signed in, introducing itself as the application and as a device named
/// after the host, with a fresh version 7 id, which is not nil.
pub open spec fn freshly_created(p: JellyfinProvider, host: HostInfo) -> bool {
    &&& p.config is None
    &&& p.client_info.name@ == crate::provider::product_name()
    &&& p.client_info.version@ == crate::provider::product_version()
    &&& p.device_info.name@ == crate::provider::device_name(host)
    &&& p.device_info.id != crate::ids::NIL_ID
    &&& crate::ids::nibble(p.device_info.id, 12) == 7
}

impl ProviderManager {
    /// Registers a provider for each of the stored records `known`, in order,
    /// each created for this application and host; stops at the first record
    /// of an unknown kind or without a key.
    pub fn init(
        &mut self,
        known: Vec<(ProviderVariant, ProviderActive)>,
        host: &HostInfo,
    ) -> (r: Result<(), ProviderManagerError>)
        ensures
            registered_models(final(self)@) == init_outcome(registered_models(old(self)@), known@).0,
            match init_outcome(registered_models(old(self)@), known@).1 {
                None => r is Ok,
                Some(e) => r == Err::<(), ProviderManagerError>(e),
            },
            forall|k: ProviderKey| #[trigger] final(self)@.contains_key(k) ==> (old(self)@.contains_key(k)
                && final(self)@[k] == old(self)@[k]) || freshly_created(final(self)@[k], *host),
    {
        let ghost all = known@;
        let ghost start = registered_models(self@);
        let ghost first = self@;
        let mut rest = known;
        let ghost mut done: Seq<(ProviderVariant, ProviderActive)> = Seq::empty();
        while rest.len() > 0
            invariant
                done + rest@ == all,
                all == known@,
                start == registered_models(old(self)@),
                first == old(self)@,
                init_outcome(start, done) == (registered_models(self@), None::<ProviderManagerError>),
                forall|k: ProviderKey| #[trigger] self@.contains_key(k) ==> (first.contains_key(k)
                    && self@[k] == first[k]) || freshly_created(self@[k], *host),
            decreases rest@.len(),
        {
            let (ty, model) = rest.remove(0);
            let ghost m = model;
            proof {
                let next = done.push((ty, model));
                assert(next.drop_last() == done);
                assert(next + rest@ == all);
                done = next;
            }
            let ghost before = self@;
            let provider = match self.get_type(&ty, model, host) {
                Ok(p) => p,
                Err(e) => {
                    proof {
                        lemma_init_stops(start, done, rest@);
                    }
                    return Err(e);
                },
            };
            assert(provider.spec_key() == model_key(m));
            match self.register(provider) {
                Ok(_) => {},
                Err(e) => {
                    proof {
                        lemma_init_stops(start, done, rest@);
                    }
                    return Err(e);
                },
            }
            proof {
                let key = model_key(m)->Ok_0;
                assert(registered_models(self@) =~= registered_models(before).insert(key, m));
            }
        }
        assert(done == all);
        Ok(())
    }
}

/// A sign-in that succeeds reports a user and a server; when neither id is
/// nil, the signed-in provider's key is made of the two, and registering the
/// provider registers it under that key.
pub proof fn law_sign_in_then_register(
    before: Map<ProviderKey, JellyfinProvider>,
    fresh: JellyfinProvider,
    reply: AuthReply,
    signed_in: JellyfinProvider,
    token: String,
    sid: u128,
    uid: u128,
)
    requires
        auth_applied(fresh, reply, signed_in, Ok::<String, ProviderError>(token)),
    ensures
        reported_ids(reply) is Some,
        reported_ids(reply) == Some((sid, uid)) && sid != NIL_ID && uid != NIL_ID ==> {
            let key = ProviderKey { user_id: uid, provider_id: sid };
            &&& signed_in.spec_provider_id() == Ok::<u128, ProviderError>(sid)
            &&& signed_in.spec_user_id() == Ok::<u128, ProviderError>(uid)
            &&& signed_in.spec_key() == Ok::<ProviderKey, ProviderError>(key)
            &&& before.insert(key, signed_in).contains_key(key)
            &&& before.insert(key, signed_in)[key] == signed_in
        },
{
}

/// A provider registered under its key is what looking that key up gives.
pub proof fn law_lookup_after_register(
    before: Map<ProviderKey, JellyfinProvider>,
    provider: JellyfinProvider,
    key: ProviderKey,
)
    requires
        provider.spec_key() == Ok::<ProviderKey, ProviderError>(key),
    ensures
        before.insert(key, provider).contains_key(key),
        before.insert(key, provider)[key] == provider,
{
}

/// Registering a provider leaves every other key as it was.
pub proof fn law_register_keeps_other_keys(
    before: Map<ProviderKey, JellyfinProvider>,
    provider: JellyfinProvider,
    key: ProviderKey,
    other: ProviderKey,
)
    requires
        provider.spec_key() == Ok::<ProviderKey, ProviderError>(key),
        other != key,
    ensures
        before.insert(key, provider).contains_key(other) == before.contains_key(other),
        before.contains_key(other) ==> before.insert(key, provider)[other] == before[other],
{
}

/// Registering a second provider under the same key replaces the first.
pub proof fn law_register_replaces(
    before: Map<ProviderKey, JellyfinProvider>,
    first: JellyfinProvider,
    second: JellyfinProvider,
    key: ProviderKey,
)
    requires
        first.spec_key() == Ok::<ProviderKey, ProviderError>(key),
        second.spec_key() == Ok::<ProviderKey, ProviderError>(key),
    ensures
        before.insert(key, first).insert(key, second) == before.insert(key, second),
{
    assert(before.insert(key, first).insert(key, second) =~= before.insert(key, second));
}

/// Deregistering a provider right after registering it gives it back and
/// leaves the registry as it was, but for that key.
pub proof fn law_take_after_register(
    before: Map<ProviderKey, JellyfinProvider>,
    provider: JellyfinProvider,
    key: ProviderKey,
)
    requires
        provider.spec_key() == Ok::<ProviderKey, ProviderError>(key),
    ensures
        before.insert(key, provider).contains_key(key),
        before.insert(key, provider)[key] == provider,
        before.insert(key, provider).remove(key) == before.remove(key),
        !before.contains_key(key) ==> before.insert(key, provider).remove(key) == before,
{
    assert(before.insert(key, provider).remove(key) =~= before.remove(key));
    if !before.contains_key(key) {
        assert(before.remove(key) =~= before);
    }
}

/// Once a provider is registered under a key, a signed-in provider that
/// claims the same key is refused as already in use.
pub proof fn law_registered_key_in_use(
    before: Map<ProviderKey, JellyfinProvider>,
    registered: JellyfinProvider,
    newcomer: JellyfinProvider,
    key: ProviderKey,
)
    requires
        registered.spec_key() == Ok::<ProviderKey, ProviderError>(key),
        newcomer.spec_key() == Ok::<ProviderKey, ProviderError>(key),
    ensures
        before.insert(key, registered).contains_key(newcomer.spec_key()->Ok_0),
{
}

} // verus!
