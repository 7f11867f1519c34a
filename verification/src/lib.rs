//! A small client library for reading and writing versioned secrets in a
//! key-value secret store.
//!
//! The library resolves a credential, composes request paths from a
//! configured mount and base path, plans the single backing call each
//! operation issues, and translates the store's failures into a closed set
//! of domain errors.  The network calls themselves are issued by the caller
//! from the plans this library produces.

pub mod error;
pub mod metadata;
pub mod paths;

use vstd::prelude::*;

use crate::error::ClientFault;
use crate::error::VaultierError;
use crate::paths::data_path_spec;
use crate::paths::resolve_opt;

verus! {

/// Declares vaultrs's VaultClient, the connection handle to the store; it
/// is carried opaquely and only ever handed back to vaultrs.
#[verifier::external_type_specification]
#[verifier::external_body]
pub struct ExVaultClient(vaultrs::client::VaultClient);

/// Declares vaultrs's VaultClientSettings, the validated settings a
/// connection handle is constructed from; carried opaquely.
#[verifier::external_type_specification]
#[verifier::external_body]
pub struct ExVaultClientSettings(vaultrs::client::VaultClientSettings);

/// Whether an address builds valid client settings: the name for the one
/// bit `build_settings` decides.  It is a function of the address alone:
/// the URL parse is pure, the builder's validation reads only the
/// address's scheme, and the token setter and the defaults cannot fail.
pub uninterp spec fn settings_ok(address: Seq<char>) -> bool;

/// Relies on url::Url::parse and vaultrs's VaultClientSettingsBuilder.
/// The address is parsed first because the builder's address setter panics
/// on a malformed URL; re-serializing a parsed URL always parses again.
/// `build` validates the address's scheme and fills every remaining
/// setting with its default; whether it all succeeds depends on the
/// address alone, and a failure comes back as its message.
#[verifier::external_body]
fn build_settings(address: &str, token: &str) -> (r: Result<
    vaultrs::client::VaultClientSettings,
    String,
>)
    ensures
        r is Ok <==> settings_ok(address@),
{
    let url = match url::Url::parse(address) {
        Ok(url) => url,
        Err(e) => return Err(format!("{}", e)),
    };
    match vaultrs::client::VaultClientSettingsBuilder::default().address(url.as_str()).token(
        token,
    ).build() {
        Ok(settings) => Ok(settings),
        Err(e) => Err(format!("{}", e)),
    }
}

/// Relies on vaultrs's VaultClient::new: it configures the backing HTTP
/// client from the settings and fails, among others, when that client
/// cannot be built; the failure comes back as its message.
#[verifier::external_body]
fn build_vault_client(settings: vaultrs::client::VaultClientSettings) -> (r: Result<
    vaultrs::client::VaultClient,
    String,
>) {
    match vaultrs::client::VaultClient::new(settings) {
        Ok(client) => Ok(client),
        Err(e) => Err(format!("{}", e)),
    }
}

/// A client for one secrets engine of the store.
///
/// It holds the connection handle, the mount under which the engine is
/// enabled, and the base path that scopes every operation; all three are
/// fixed at construction.  Operations address
/// `<mount>/data/<base path>[/<sub path>]`.
pub struct SecretClient {
    /// The connection handle to the store; owned exclusively.
    client: vaultrs::client::VaultClient,
    /// The mount under which the secrets engine is enabled.
    mount: String,
    /// The path segment scoping every operation of this client.
    base_path: String,
}

impl SecretClient {
    /// The mount this client addresses, as the contracts speak of it.
    pub closed spec fn spec_mount(self) -> String {
        self.mount
    }

    /// The base path scoping this client, as the contracts speak of it.
    pub closed spec fn spec_base_path(self) -> String {
        self.base_path
    }

    /// The connection handle, for issuing the calls the plans describe.
    pub fn vault(&self) -> &vaultrs::client::VaultClient {
        &self.client
    }

    /// The mount under which the secrets engine is enabled.
    pub fn mount(&self) -> (r: &String)
        ensures
            r == self.spec_mount(),
    {
        &self.mount
    }

    /// The path segment scoping every operation of this client.
    pub fn base_path(&self) -> (r: &String)
        ensures
            r == self.spec_base_path(),
    {
        &self.base_path
    }
}

/// The one backing read an operation issues: the mount, the fully resolved
/// path, and the version to fetch, if one is pinned.
#[derive(Debug, Clone, PartialEq, Eq)]
pub struct ReadPlan {
    pub mount: String,
    pub path: String,
    pub version: Option<u64>,
}

/// The one backing write an operation issues: the mount, the fully
/// resolved path, and the check-and-set version, if the write is under
/// version control.
#[derive(Debug, Clone, PartialEq, Eq)]
pub struct WritePlan {
    pub mount: String,
    pub path: String,
    pub cas: Option<u32>,
}

/// Options for configuring a write; the version, when given, is used as
/// the check-and-set value.
pub struct WriteSecretOptions<A> {
    /// The value to store.
    pub data: A,
    /// The sub path to store it under, joined onto the base path; the base
    /// path alone when absent.
    pub path: Option<String>,
    /// The version the store is expected to hold before the write.
    pub version: Option<u32>,
}

/// One stored version of a secret, as the store's metadata lists it.
#[derive(Debug, Clone, PartialEq, Eq)]
pub struct SecretVersionInfo {
    pub created_time: String,
    pub deletion_time: String,
    pub destroyed: bool,
}

/// The metadata record the store keeps for a secret: its version bounds,
/// timestamps, configuration, custom tags, and the versions it holds.
#[derive(Debug, Clone, PartialEq, Eq)]
pub struct SecretMetadata {
    pub cas_required: bool,
    pub created_time: String,
    /// The version a plain read of the secret returns.
    pub current_version: u64,
    pub delete_version_after: String,
    pub max_versions: u64,
    pub oldest_version: u64,
    pub updated_time: String,
    pub custom_metadata: Option<Vec<(String, String)>>,
    pub versions: Vec<(String, SecretVersionInfo)>,
}

impl SecretMetadata {
    /// The shape of every record the store reports: the custom tags and
    /// the version listing each carry a key once, since the store keeps
    /// both as maps.
    pub open spec fn wf(self) -> bool {
        &&& (self.custom_metadata matches Some(tags) ==> distinct_keys(tags@))
        &&& distinct_keys(self.versions@)
    }
}

/// A decoded secret value bundled with the store's metadata record for it.
pub struct SecretWithMetaData<A> {
    pub data: A,
    pub metadata: SecretMetadata,
}

/// Whether the keyed entries carry each key once, as the entries of a map
/// do.
pub open spec fn distinct_keys<V>(entries: Seq<(String, V)>) -> bool {
    forall|i: int, j: int| #![trigger entries[i], entries[j]]
        0 <= i < j < entries.len() ==> entries[i].0@ != entries[j].0@
}

/// Whether a construction result is the configuration error.
pub open spec fn is_settings_error(r: Result<SecretClient, VaultierError>) -> bool {
    r matches Err(e) && e matches VaultierError::VaultClientSettings { .. }
}

/// Whether a construction result is the IO error.
pub open spec fn is_io_error(r: Result<SecretClient, VaultierError>) -> bool {
    r matches Err(e) && e matches VaultierError::IO { .. }
}

/// What the translation of a failed backing read returns: exactly on an
/// API failure with status 404 the not-found error, whose payload is the
/// full data path; on every other failure the client error with the
/// failure's message.
pub open spec fn read_error_spec(
    mount: Seq<char>,
    path: Seq<char>,
    fault: ClientFault,
    r: VaultierError,
) -> bool {
    match fault {
        ClientFault::Api { code, message } => if code == 404 {
            r matches VaultierError::PathNotFound { path: p } && p@ == data_path_spec(mount, path)
        } else {
            r == (VaultierError::VaultClient { message })
        },
        ClientFault::Other { message } => r == (VaultierError::VaultClient { message }),
    }
}

impl SecretClient {
    /// Constructs a client from the store's address, the mount of the
    /// secrets engine, the base path, and a resolved token.
    ///
    /// Fails with the configuration error exactly when the settings
    /// cannot be built from the address, and with a client error when the
    /// connection handle cannot be constructed.
    pub fn new(address: &str, mount: String, base_path: String, token: &str) -> (r: Result<
        SecretClient,
        VaultierError,
    >)
        ensures
            r matches Ok(c) ==> c.spec_mount() == mount && c.spec_base_path() == base_path,
            r matches Err(e) ==> (e matches VaultierError::VaultClientSettings { .. } || e
                matches VaultierError::VaultClient { .. }),
            is_settings_error(r) <==> !settings_ok(address@),
    {
        let settings = match build_settings(address, token) {
            Ok(settings) => settings,
            Err(message) => return Err(VaultierError::VaultClientSettings { message }),
        };
        match build_vault_client(settings) {
            Ok(client) => Ok(SecretClient { client, mount, base_path }),
            Err(message) => Err(VaultierError::VaultClient { message }),
        }
    }

    /// Constructs a client from an optional explicit token and the
    /// outcome of reading the token file, which is consulted only when no
    /// token was supplied.
    ///
    /// A missing or unreadable token file surfaces as the IO error here,
    /// at construction: no client is produced.  With a credential in
    /// hand, construction continues as [`SecretClient::new`]: the
    /// configuration error exactly when the address does not build valid
    /// settings, a client error when the handle cannot be constructed.
    pub fn new_with_token_file(
        address: &str,
        mount: String,
        base_path: String,
        token: Option<String>,
        token_file: Result<String, String>,
    ) -> (r: Result<SecretClient, VaultierError>)
        ensures
            token is None ==> (match token_file {
                Err(m) => r == Err::<SecretClient, VaultierError>(VaultierError::IO { message: m }),
                Ok(_) => true,
            }),
            r matches Ok(c) ==> c.spec_mount() == mount && c.spec_base_path() == base_path,
            token is Some || token_file is Ok ==> !is_io_error(r),
            token is Some || token_file is Ok ==> (is_settings_error(r) <==> !settings_ok(
                address@,
            )),
    {
        let token = match resolve_credential(token, token_file) {
            Ok(t) => t,
            Err(e) => return Err(e),
        };
        Self::new(address, mount, base_path, token.as_str())
    }

    /// Resolves the path one operation addresses: the base path alone, or
    /// the base path joined with the sub path by a single separator.
    pub fn resolve_path(&self, sub: Option<&str>) -> (r: String)
        ensures
            r@ == resolve_opt(self.spec_base_path()@, sub),
    {
        paths::resolve_path(self.base_path.as_str(), sub)
    }

    /// Plans the single backing read of a read operation.
    pub fn plan_read(&self, sub: Option<&str>, version: Option<u64>) -> (r: ReadPlan)
        ensures
            r.mount == self.spec_mount(),
            r.path@ == resolve_opt(self.spec_base_path()@, sub),
            r.version == version,
    {
        ReadPlan { mount: self.mount.clone(), path: self.resolve_path(sub), version }
    }

    /// Plans the data read that follows a metadata fetch: the same
    /// resolved path, pinned at the version the metadata reports as
    /// current, so the value and the metadata describe the same version.
    /// The record must be well formed, as every record decoded from the
    /// store is.
    pub fn plan_versioned_read(&self, sub: Option<&str>, metadata: &SecretMetadata) -> (r:
        ReadPlan)
        requires
            metadata.wf(),
        ensures
            r.mount == self.spec_mount(),
            r.path@ == resolve_opt(self.spec_base_path()@, sub),
            r.version == Some(metadata.current_version),
    {
        self.plan_read(sub, Some(metadata.current_version))
    }

    /// Plans the single backing write of a write operation.
    pub fn plan_write(&self, sub: Option<&str>, cas: Option<u32>) -> (r: WritePlan)
        ensures
            r.mount == self.spec_mount(),
            r.path@ == resolve_opt(self.spec_base_path()@, sub),
            r.cas == cas,
    {
        WritePlan { mount: self.mount.clone(), path: self.resolve_path(sub), cas }
    }

    /// Plans the backing write of a write under options: the value goes to
    /// the options' sub path joined onto the base path, under check-and-set
    /// exactly when the options carry a version.
    pub fn plan_write_with_options<A>(&self, options: &WriteSecretOptions<A>) -> (r: WritePlan)
        ensures
            r.mount == self.spec_mount(),
            r.path@ == (match options.path {
                Some(p) => paths::join_spec(self.spec_base_path()@, p@),
                None => self.spec_base_path()@,
            }),
            r.cas == options.version,
    {
        match &options.path {
            Some(p) => self.plan_write(Some(p.as_str()), options.version),
            None => self.plan_write(None, options.version),
        }
    }

    /// Translates a failed backing read into the domain error: an API
    /// failure with status 404 becomes the not-found error carrying the
    /// full data path, every other failure stays a client error with its
    /// message.
    pub fn translate_read_error(&self, path: &str, fault: ClientFault) -> (r: VaultierError)
        ensures
            read_error_spec(self.spec_mount()@, path@, fault, r),
    {
        match fault {
            ClientFault::Api { code: 404, .. } => VaultierError::PathNotFound {
                path: paths::data_path(self.mount.as_str(), path),
            },
            ClientFault::Api { code: _, message } => VaultierError::VaultClient { message },
            ClientFault::Other { message } => VaultierError::VaultClient { message },
        }
    }
}

/// The credential for client construction: an explicitly supplied token
/// wins; otherwise the contents of the token file are used, and a failure
/// to read that file is an IO error.
pub fn resolve_credential(explicit: Option<String>, file: Result<String, String>) -> (r: Result<
    String,
    VaultierError,
>)
    ensures
        explicit matches Some(t) ==> r == Ok::<String, VaultierError>(t),
        explicit is None ==> r == (match file {
            Ok(t) => Ok::<String, VaultierError>(t),
            Err(m) => Err::<String, VaultierError>(VaultierError::IO { message: m }),
        }),
{
    match explicit {
        Some(t) => Ok(t),
        None => match file {
            Ok(t) => Ok(t),
            Err(message) => Err(VaultierError::IO { message }),
        },
    }
}

} // verus!
