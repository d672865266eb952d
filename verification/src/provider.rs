//! A Jellyfin provider: the record that identifies the user on a server, and
//! the client session once the user has signed in.
use vstd::prelude::*;
use crate::active::{ActiveField, ProviderActive, clone_text_field};
use crate::dto::{ProviderDTO, ProviderKey};
use crate::enums::{ProviderAuthSchema, ProviderVariant};
use crate::error::{JellyfinProviderError, ProviderError};
use crate::ids::{NIL_ID, nibble, fresh_uuid, format_uuid, parse_url, parse_uuid, url_parse, uuid_from_text, uuid_text};
use crate::indexer::JellyfinIndexer;
use crate::text::owned;

verus! {

/// The application as it introduces itself to a server.
#[derive(Debug)]
pub struct ClientInfo {
    pub name: String,
    pub version: String,
}

/// The device as it introduces itself to a server.
#[derive(Debug)]
pub struct DeviceInfo {
    pub id: u128,
    pub name: String,
}

/// What the operating system tells about the machine.
#[derive(Debug)]
pub struct HostInfo {
    pub hostname: String,
    pub platform: String,
    pub arch: String,
    pub version: String,
}

/// Everything a client of the Jellyfin API is configured with.
#[derive(Debug)]
pub struct SdkConfig {
    pub base_url: String,
    pub client_info: ClientInfo,
    pub device_info: DeviceInfo,
    pub access_token: Option<String>,
}

/// The user as the server describes it after sign-in.
#[derive(Debug)]
pub struct UserRef {
    pub id: Option<u128>,
}

/// What the server answers to a sign-in with user name and password. Each
/// entry may be absent, or present and empty.
#[derive(Debug)]
pub struct AuthReply {
    pub access_token: Option<Option<String>>,
    pub server_id: Option<Option<String>>,
    pub user: Option<Option<UserRef>>,
}

/// The value of a column that identifies something: present and not nil.
pub open spec fn held_id(f: ActiveField<u128>) -> Option<u128> {
    match f.value() {
        Some(id) => if id != NIL_ID { Some(id) } else { None },
        None => None,
    }
}

/// The id held by a column, when present and not nil.
pub fn read_id(f: &ActiveField<u128>) -> (id: Option<u128>)
    ensures
        id == held_id(*f),
{
    match f.try_as_ref() {
        Some(v) => if *v != NIL_ID { Some(*v) } else { None },
        None => None,
    }
}

pub fn clone_string(s: &String) -> (copy: String)
    ensures
        copy == *s,
{
    s.clone()
}

impl ClientInfo {
    pub fn duplicate(&self) -> (copy: ClientInfo)
        ensures
            copy == *self,
    {
        ClientInfo { name: clone_string(&self.name), version: clone_string(&self.version) }
    }
}

impl DeviceInfo {
    pub fn duplicate(&self) -> (copy: DeviceInfo)
        ensures
            copy == *self,
    {
        DeviceInfo { id: self.id, name: clone_string(&self.name) }
    }
}

impl SdkConfig {
    pub fn duplicate(&self) -> (copy: SdkConfig)
        ensures
            copy == *self,
    {
        SdkConfig {
            base_url: clone_string(&self.base_url),
            client_info: self.client_info.duplicate(),
            device_info: self.device_info.duplicate(),
            access_token: match &self.access_token {
                Some(t) => Some(clone_string(t)),
                None => None,
            },
        }
    }
}

/// The device name under which the application signs in:
/// `hostname-platform-arch-version`.
pub open spec fn device_name(host: HostInfo) -> Seq<char> {
    host.hostname@ + "-"@ + host.platform@ + "-"@ + host.arch@ + "-"@ + host.version@
}

/// A Jellyfin provider.
#[derive(Debug)]
pub struct JellyfinProvider {
    pub model: ProviderActive,
    pub config: Option<SdkConfig>,
    pub client_info: ClientInfo,
    pub device_info: DeviceInfo,
}

/// The name the application introduces itself to servers with.
pub open spec fn product_name() -> Seq<char> {
    "journey"@
}

/// The version the application introduces itself to servers with.
pub open spec fn product_version() -> Seq<char> {
    "0.1.0"@
}

impl JellyfinProvider {
    /// A provider for the record `model`, not signed in, introducing itself
    /// as the application and as a device named after `host` with a fresh
    /// version 7 id, which is not nil.
    pub fn new(model: ProviderActive, host: &HostInfo) -> (p: Self)
        ensures
            p.model == model,
            p.config is None,
            p.client_info.name@ == product_name(),
            p.client_info.version@ == product_version(),
            p.device_info.name@ == device_name(*host),
            p.device_info.id != NIL_ID,
            nibble(p.device_info.id, 12) == 7,
    {
        let client_info = ClientInfo { name: owned("journey"), version: owned("0.1.0") };
        let mut name = clone_string(&host.hostname);
        name.append("-");
        name.append(host.platform.as_str());
        name.append("-");
        name.append(host.arch.as_str());
        name.append("-");
        name.append(host.version.as_str());
        JellyfinProvider {
            model,
            config: None,
            client_info,
            device_info: DeviceInfo { id: fresh_uuid(), name },
        }
    }

    /// The kind of provider this is.
    pub fn ty(&self) -> (v: ProviderVariant)
        ensures
            v == ProviderVariant::JellyfinProvider,
    {
        ProviderVariant::JellyfinProvider
    }

    /// The kind recorded in the provider's record.
    pub open spec fn spec_stored_ty(self) -> Result<ProviderVariant, ProviderError> {
        match self.model.ty.value() {
            Some(v) => Ok(v),
            None => Err(ProviderError::MissingVariantError),
        }
    }

    pub fn stored_ty(&self) -> (r: Result<ProviderVariant, ProviderError>)
        ensures
            r == self.spec_stored_ty(),
    {
        match self.model.ty.try_as_ref() {
            Some(v) => Ok(*v),
            None => Err(ProviderError::MissingVariantError),
        }
    }

    pub open spec fn spec_user_id(self) -> Result<u128, ProviderError> {
        match held_id(self.model.user_id) {
            Some(id) => Ok(id),
            None => Err(ProviderError::MissingUserIdError),
        }
    }

    /// The user's id on the server; a missing or nil id is reported as a
    /// missing user id.
    pub fn user_id(&self) -> (r: Result<u128, ProviderError>)
        ensures
            r == self.spec_user_id(),
    {
        match read_id(&self.model.user_id) {
            Some(id) => Ok(id),
            None => Err(ProviderError::MissingUserIdError),
        }
    }

    pub open spec fn spec_provider_id(self) -> Result<u128, ProviderError> {
        match held_id(self.model.provider_id) {
            Some(id) => Ok(id),
            None => Err(ProviderError::MissingServerIdError),
        }
    }

    /// The id of the provider record: the id of the server it signs in to.
    pub fn provider_id(&self) -> (r: Result<u128, ProviderError>)
        ensures
            r == self.spec_provider_id(),
    {
        match read_id(&self.model.provider_id) {
            Some(id) => Ok(id),
            None => Err(ProviderError::MissingServerIdError),
        }
    }

    /// Whether `r` is what reading the server's address gives: the URL
    /// serialization, a parse failure with the parser's message, or a missing
    /// address.
    pub open spec fn url_result(self, r: Result<String, ProviderError>) -> bool {
        match url_outcome(self.model) {
            None => r matches Err(ProviderError::MissingUrlError),
            Some(Ok(address)) => r matches Ok(s) && s@ == address,
            Some(Err(message)) => r matches Err(ProviderError::FailedParseUrlError(m)) && m@ == message,
        }
    }

    /// The server's address.
    pub fn url(&self) -> (r: Result<String, ProviderError>)
        ensures
            self.url_result(r),
    {
        match self.model.url.try_as_ref() {
            Some(text) => match parse_url(text.as_str()) {
                Ok(address) => Ok(address),
                Err(message) => Err(ProviderError::FailedParseUrlError(message)),
            },
            None => Err(ProviderError::MissingUrlError),
        }
    }
}

impl JellyfinProvider {
    pub open spec fn spec_key(self) -> Result<ProviderKey, ProviderError> {
        match self.spec_user_id() {
            Err(e) => Err(e),
            Ok(user_id) => match self.spec_provider_id() {
                Err(e) => Err(e),
                Ok(provider_id) => Ok(ProviderKey { user_id, provider_id }),
            },
        }
    }

    /// The key under which the provider is registered.
    pub fn key(&self) -> (r: Result<ProviderKey, ProviderError>)
        ensures
            r == self.spec_key(),
    {
        let user_id = self.user_id()?;
        let provider_id = self.provider_id()?;
        Ok(ProviderKey { user_id, provider_id })
    }

    /// The user name of the keyring entry that holds the access token:
    /// `provider_id-user_id`, both in hyphenated form.
    pub fn token_entry_name(&self) -> (r: Result<String, ProviderError>)
        ensures
            match (self.spec_provider_id(), self.spec_user_id()) {
                (Err(e), _) => r == Err::<String, ProviderError>(e),
                (Ok(_), Err(e)) => r == Err::<String, ProviderError>(e),
                (Ok(p), Ok(u)) => r matches Ok(name) && name@ == uuid_text(p) + "-"@ + uuid_text(u),
            },
    {
        let provider_id = self.provider_id()?;
        let user_id = self.user_id()?;
        let mut name = format_uuid(provider_id);
        name.append("-");
        let user_text = format_uuid(user_id);
        name.append(user_text.as_str());
        Ok(name)
    }

    /// Whether tokens were found for the provider: any token counts.
    pub fn authenticated_from(token_count: usize) -> (authenticated: bool)
        ensures
            authenticated == (token_count != 0),
    {
        token_count != 0
    }

    /// The outcome of removing the provider's tokens once `removed` entries
    /// were deleted: exactly one is expected.
    pub fn token_removal_outcome(removed: usize) -> (r: Result<(), ProviderError>)
        ensures
            removed > 1 ==> r matches Err(ProviderError::TooManyCredentialsError),
            removed < 1 ==> (r matches Err(ProviderError::NoCredentialsError(m)) && m@ == Seq::<char>::empty()),
            removed == 1 ==> r is Ok,
    {
        if removed > 1 {
            Err(ProviderError::TooManyCredentialsError)
        } else if removed < 1 {
            Err(ProviderError::NoCredentialsError(String::new()))
        } else {
            Ok(())
        }
    }

    /// Forgets the provider's record and session.
    pub fn invalidate(&mut self) -> (r: Result<(), ProviderError>)
        ensures
            r is Ok,
            final(self).model == ProviderActive::spec_blank(),
            final(self).config is None,
            final(self).client_info == old(self).client_info,
            final(self).device_info == old(self).device_info,
    {
        self.model = ProviderActive::blank();
        self.config = None;
        Ok(())
    }

    /// An indexer for the provider's library; it needs a signed-in session.
    pub fn get_indexer(&self) -> (r: Result<JellyfinIndexer, ProviderError>)
        ensures
            match self.config {
                Some(config) => r matches Ok(indexer) && indexer.model == self.model
                    && indexer.config == Some(config),
                None => r matches Err(ProviderError::JellyfinProviderError(
                    JellyfinProviderError::ApiEntryRetrievalError(None),
                )),
            },
    {
        match &self.config {
            Some(config) => Ok(JellyfinIndexer { model: self.model.clone(), config: Some(config.duplicate()) }),
            None => Err(ProviderError::JellyfinProviderError(JellyfinProviderError::ApiEntryRetrievalError(None))),
        }
    }

    /// Records the server id the server reported, if it reported one that
    /// reads as a UUID, as the provider record's id.
    pub fn set_server_id(&mut self, server_id: Option<Option<String>>) -> (r: Result<(), ProviderError>)
        ensures
            final(self).config == old(self).config,
            final(self).client_info == old(self).client_info,
            final(self).device_info == old(self).device_info,
            match server_id {
                Some(Some(text)) => match uuid_from_text(text@) {
                    Some(id) => r is Ok && final(self).model == (ProviderActive {
                        provider_id: set_ne_spec(old(self).model.provider_id, id),
                        ..old(self).model
                    }),
                    None => r matches Err(ProviderError::FailedUuidParseError(m)) && m@ == text@
                        && final(self).model == old(self).model,
                },
                _ => r matches Err(ProviderError::JellyfinProviderError(
                    JellyfinProviderError::ApiEntryRetrievalError(None),
                )) && final(self).model == old(self).model,
            },
    {
        let text = match server_id {
            Some(Some(text)) => text,
            _ => {
                return Err(ProviderError::JellyfinProviderError(JellyfinProviderError::ApiEntryRetrievalError(None)));
            },
        };
        match parse_uuid(text.as_str()) {
            Some(id) => {
                self.model.provider_id.set_ne(id);
                Ok(())
            },
            None => Err(ProviderError::FailedUuidParseError(text)),
        }
    }

    /// Records the user id the server reported.
    pub fn set_user_id(&mut self, user: Option<Option<UserRef>>) -> (r: Result<(), ProviderError>)
        ensures
            final(self).config == old(self).config,
            final(self).client_info == old(self).client_info,
            final(self).device_info == old(self).device_info,
            match user {
                Some(Some(u)) => match u.id {
                    Some(id) => r is Ok && final(self).model == (ProviderActive {
                        user_id: set_ne_spec(old(self).model.user_id, id),
                        ..old(self).model
                    }),
                    None => r matches Err(ProviderError::MissingUserIdError) && final(self).model == old(self).model,
                },
                _ => r matches Err(ProviderError::JellyfinProviderError(
                    JellyfinProviderError::ApiEntryRetrievalError(None),
                )) && final(self).model == old(self).model,
            },
    {
        let u = match user {
            Some(Some(u)) => u,
            _ => {
                return Err(ProviderError::JellyfinProviderError(JellyfinProviderError::ApiEntryRetrievalError(None)));
            },
        };
        match u.id {
            Some(id) => {
                self.model.user_id.set_ne(id);
                Ok(())
            },
            None => Err(ProviderError::MissingUserIdError),
        }
    }
}

/// The server id and the user id a sign-in answer reports, when it reports
/// both and the server id reads as a UUID.
pub open spec fn reported_ids(reply: AuthReply) -> Option<(u128, u128)> {
    match (reply.server_id, reply.user) {
        (Some(Some(text)), Some(Some(u))) => match (uuid_from_text(text@), u.id) {
            (Some(sid), Some(uid)) => Some((sid, uid)),
            _ => None,
        },
        _ => None,
    }
}

/// Whether `after` and `r` are what taking in the server's sign-in answer
/// `reply` makes of the provider `before`: the access token must be there;
/// then the server id and the user id are recorded, in that order, each step
/// stopping at the first failure; the session and the device stay.
pub open spec fn auth_applied(
    before: JellyfinProvider,
    reply: AuthReply,
    after: JellyfinProvider,
    r: Result<String, ProviderError>,
) -> bool {
    &&& after.config == before.config
    &&& after.client_info == before.client_info
    &&& after.device_info == before.device_info
    &&& match reply.access_token {
        Some(Some(token)) => match reply.server_id {
            Some(Some(text)) => match uuid_from_text(text@) {
                Some(server_id) => {
                    let with_server = ProviderActive {
                        provider_id: set_ne_spec(before.model.provider_id, server_id),
                        ..before.model
                    };
                    match reply.user {
                        Some(Some(u)) => match u.id {
                            Some(user_id) => r == Ok::<String, ProviderError>(token)
                                && after.model == (ProviderActive {
                                    user_id: set_ne_spec(with_server.user_id, user_id),
                                    ..with_server
                                }),
                            None => r matches Err(ProviderError::MissingUserIdError)
                                && after.model == with_server,
                        },
                        _ => r matches Err(ProviderError::JellyfinProviderError(
                            JellyfinProviderError::ApiEntryRetrievalError(None),
                        )) && after.model == with_server,
                    }
                },
                None => r matches Err(ProviderError::FailedUuidParseError(m)) && m@ == text@
                    && after.model == before.model,
            },
            _ => r matches Err(ProviderError::JellyfinProviderError(
                JellyfinProviderError::ApiEntryRetrievalError(None),
            )) && after.model == before.model,
        },
        _ => r matches Err(ProviderError::JellyfinProviderError(
            JellyfinProviderError::ApiEntryRetrievalError(None),
        )) && after.model == before.model,
    }
}

impl JellyfinProvider {
    /// Takes in the server's answer to a sign-in: the access token must be
    /// there; then the server id and the user id are recorded, in that order,
    /// each step stopping at the first failure. Returns the access token.
    pub fn apply_auth_reply(&mut self, reply: AuthReply) -> (r: Result<String, ProviderError>)
        ensures
            auth_applied(*old(self), reply, *final(self), r),
    {
        let token = match reply.access_token {
            Some(Some(token)) => token,
            _ => {
                return Err(ProviderError::JellyfinProviderError(JellyfinProviderError::ApiEntryRetrievalError(None)));
            },
        };
        self.set_server_id(reply.server_id)?;
        self.set_user_id(reply.user)?;
        Ok(token)
    }

    /// The client configuration for talking to the provider's server, with
    /// the access token if one is given.
    pub fn client_config(&self, access_token: Option<String>) -> (r: Result<SdkConfig, ProviderError>)
        ensures
            match url_outcome(self.model) {
                Some(Ok(address)) => r matches Ok(c) && c.base_url@ == address
                    && c.client_info == self.client_info && c.device_info == self.device_info
                    && c.access_token == access_token,
                _ => r is Err && self.url_result(Err(r->Err_0)),
            },
    {
        let base_url = self.url()?;
        Ok(SdkConfig {
            base_url,
            client_info: self.client_info.duplicate(),
            device_info: self.device_info.duplicate(),
            access_token,
        })
    }

    /// Keeps the session configuration of a successful sign-in.
    pub fn set_session(&mut self, config: SdkConfig)
        ensures
            final(self).config == Some(config),
            final(self).model == old(self).model,
            final(self).client_info == old(self).client_info,
            final(self).device_info == old(self).device_info,
    {
        self.config = Some(config);
    }

    /// The provider as the user interface sees it in a listing: its kind and
    /// key.
    pub fn summary(&self) -> (r: Result<ProviderDTO, ProviderError>)
        ensures
            match (self.spec_stored_ty(), self.spec_key()) {
                (Err(e), _) => r == Err::<ProviderDTO, ProviderError>(e),
                (Ok(_), Err(e)) => r == Err::<ProviderDTO, ProviderError>(e),
                (Ok(ty), Ok(key)) => r matches Ok(d) && d.ty == ty && d.key == key
                    && d.authenticated is None && d.auth_schema@.len() == 0 && d.url is None
                    && d.media_items is None && d.images is None,
            },
    {
        let ty = self.stored_ty()?;
        let key = self.key()?;
        Ok(ProviderDTO {
            authenticated: None,
            key,
            ty,
            auth_schema: Vec::new(),
            url: None,
            media_items: None,
            images: None,
        })
    }

    /// The provider as the user interface sees it in detail, given whether
    /// tokens were found for it.
    pub fn details(&self, authenticated: bool) -> (r: Result<ProviderDTO, ProviderError>)
        ensures
            match self.spec_stored_ty() {
                Err(e) => r == Err::<ProviderDTO, ProviderError>(e),
                Ok(ty) => match url_outcome(self.model) {
                    Some(Ok(address)) => match self.spec_key() {
                        Err(e) => r == Err::<ProviderDTO, ProviderError>(e),
                        Ok(key) => r matches Ok(d) && d.ty == ty && d.key == key
                            && d.authenticated == Some(authenticated) && d.auth_schema@.len() == 0
                            && d.media_items is None && d.images is None
                            && (d.url matches Some(u) && u@ == address),
                    },
                    _ => r is Err && self.url_result(Err(r->Err_0)),
                },
            },
    {
        let ty = self.stored_ty()?;
        let url = self.url()?;
        let key = self.key()?;
        Ok(ProviderDTO {
            authenticated: Some(authenticated),
            key,
            ty,
            auth_schema: Vec::new(),
            url: Some(url),
            media_items: None,
            images: None,
        })
    }

    /// The ways this provider can sign in.
    pub fn get_auth_schema(&self) -> (schemas: Vec<ProviderAuthSchema>)
        ensures
            schemas@ == seq![ProviderAuthSchema::Password],
    {
        let mut schemas = Vec::new();
        schemas.push(ProviderAuthSchema::Password);
        schemas
    }
}

/// What `ActiveField::set_ne` makes of a column.
pub open spec fn set_ne_spec(f: ActiveField<u128>, v: u128) -> ActiveField<u128> {
    match f {
        ActiveField::Unchanged(current) => if current == v { f } else { ActiveField::Assigned(v) },
        _ => ActiveField::Assigned(v),
    }
}

/// What parsing a record's address gives, if the record has one.
pub open spec fn url_outcome(m: ProviderActive) -> Option<Result<Seq<char>, Seq<char>>> {
    match m.url.value() {
        Some(text) => Some(url_parse(text@)),
        None => None,
    }
}

/// Setting an id column reads back the id that was set, unless it is nil;
/// setting it twice to the same id is the same as setting it once.
pub proof fn law_set_id_reads_back(f: ActiveField<u128>, id: u128)
    ensures
        set_ne_spec(set_ne_spec(f, id), id) == set_ne_spec(f, id),
        id != NIL_ID ==> held_id(set_ne_spec(f, id)) == Some(id),
        id == NIL_ID ==> held_id(set_ne_spec(f, id)) is None,
{
}

/// A provider created for an address and a kind is not signed in: it has no
/// user id and no record id, so it has no key and no keyring entry, which
/// makes the question whether it is authenticated fail; its address reads
/// back as the parser reads it, and its kind as the one it was given.
pub proof fn law_new_provider_is_signed_out(p: JellyfinProvider, url: String, ty: ProviderVariant)
    requires
        p.model == (ProviderActive {
            url: ActiveField::Assigned(url),
            ty: ActiveField::Assigned(ty),
            ..ProviderActive::spec_blank()
        }),
    ensures
        p.spec_user_id() == Err::<u128, ProviderError>(ProviderError::MissingUserIdError),
        p.spec_provider_id() == Err::<u128, ProviderError>(ProviderError::MissingServerIdError),
        p.spec_key() is Err,
        p.spec_stored_ty() == Ok::<ProviderVariant, ProviderError>(ty),
        url_outcome(p.model) == Some(url_parse(url@)),
{
}

/// A provider that was invalidated has forgotten everything: no user id, no
/// record id and so no key or keyring entry, no address and no kind.
pub proof fn law_invalidated_provider_forgets(p: JellyfinProvider)
    requires
        p.model == ProviderActive::spec_blank(),
        p.config is None,
    ensures
        p.spec_user_id() == Err::<u128, ProviderError>(ProviderError::MissingUserIdError),
        p.spec_provider_id() == Err::<u128, ProviderError>(ProviderError::MissingServerIdError),
        p.spec_key() is Err,
        p.spec_stored_ty() == Err::<ProviderVariant, ProviderError>(ProviderError::MissingVariantError),
        url_outcome(p.model) is None,
{
}

/// After the server's ids were recorded, the user id reads back as the one
/// the server reported, unless that one is nil.
pub proof fn law_recorded_user_id_reads_back(before: ProviderActive, p: JellyfinProvider, user_id: u128)
    requires
        p.model == (ProviderActive { user_id: set_ne_spec(before.user_id, user_id), ..before }),
        user_id != NIL_ID,
    ensures
        p.spec_user_id() == Ok::<u128, ProviderError>(user_id),
{
}

/// The stored kind of a provider is the value its kind column holds, whether
/// it was set in this edit or loaded unchanged; only a column that is not set
/// reports a missing kind.
pub proof fn law_stored_kind_is_held_value(p: JellyfinProvider, v: ProviderVariant)
    ensures
        p.model.ty == ActiveField::Unchanged(v) ==> p.spec_stored_ty() == Ok::<ProviderVariant, ProviderError>(v),
        p.model.ty == ActiveField::Assigned(v) ==> p.spec_stored_ty() == Ok::<ProviderVariant, ProviderError>(v),
        p.model.ty == ActiveField::<ProviderVariant>::NotSet
            ==> p.spec_stored_ty() == Err::<ProviderVariant, ProviderError>(ProviderError::MissingVariantError),
{
}

} // verus!
