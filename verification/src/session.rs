//! Session state of the client: server URL, device identity, user identity
//! and credentials, and the two precomputed header values that every request
//! carries. Setters fail closed: on invalid input they return a `Config`
//! error and leave the state unchanged.

use std::hash::Hasher;

use vstd::prelude::*;
use vstd::string::StringSliceAdditionalSpecFns;

use crate::address::{dir_prefix, parse_server_address, parsed_server_of, ServerUrl};
use crate::error::ApiError;
use crate::header::{generate_emby_authorization, spec_emby_authorization};
use crate::text::{dec_val, all_dec_digits, hex_chars, parse_port, u64_to_hex};

verus! {

/// What the 64-bit FNV hasher of the `fnv` crate returns for a byte
/// sequence. The hash is a pure function of the bytes.
pub uninterp spec fn fnv64_of(bs: Seq<u8>) -> u64;

/// Relies on `fnv::FnvHasher` (64-bit FNV-1a): hashing is deterministic in
/// the bytes written, with no per-process seed.
#[verifier::external_body]
fn fnv64(bytes: &Vec<u8>) -> (r: u64)
    ensures
        r == fnv64_of(bytes@),
{
    let mut h = fnv::FnvHasher::default();
    h.write(bytes.as_slice());
    h.finish()
}

/// The stable non-cryptographic hash of a display name, rendered in
/// lower-case hexadecimal; used as a cache-namespace key.
pub fn generate_hash(s: &str) -> (r: String)
    ensures
        r@ == hex_chars(fnv64_of(s.spec_bytes()) as nat),
{
    let bytes = s.as_bytes_vec();
    let h = fnv64(&bytes);
    u64_to_hex(h)
}

/// Relies on `uuid::Uuid::new_v4` and its hyphenated `Display` form: a
/// fresh random identifier renders as 36 characters. Nothing else can be
/// promised of a random value.
#[verifier::external_body]
fn new_random_uuid() -> (r: String)
    ensures
        r@.len() == 36,
{
    uuid::Uuid::new_v4().to_string()
}

/// The per-install device identifier: the stored one when present, or a
/// fresh random one (to be persisted by the caller) when the store was
/// empty. The flag says whether a new identifier was generated.
pub fn resolve_device_id(stored: &str) -> (r: (String, bool))
    ensures
        stored@.len() > 0 ==> r.0@ == stored@ && !r.1,
        stored@.len() == 0 ==> r.0@.len() == 36 && r.1,
{
    if stored.unicode_len() == 0 {
        (new_random_uuid(), true)
    } else {
        (stored.to_owned(), false)
    }
}

/// True when `server` parses to a scheme, a host and an absolute path,
/// and `port` is a decimal TCP port: the inputs `header_change_url`
/// accepts.
pub open spec fn server_address_ok(server: Seq<char>, port: Seq<char>) -> bool {
    &&& all_dec_digits(port)
    &&& dec_val(port) <= 65535
    &&& (parsed_server_of(server) matches Some(p) && p.0.len() > 0 && p.1.len() > 0 && p.2.len()
        > 0 && p.2[0] == '/')
}

/// The server root that `header_change_url` stores for an accepted
/// address: the parsed scheme and host, the given port, and the API root
/// under the parsed path's directory.
pub open spec fn resolved_server(u: ServerUrl, server: Seq<char>, port: Seq<char>) -> bool {
    let p = parsed_server_of(server)->0;
    &&& u.scheme@ == p.0
    &&& u.host@ == p.1
    &&& u.port == dec_val(port)
    &&& u.root_path@ == dir_prefix(p.2) + "emby/"@
}

/// True when every byte may stand in an HTTP header value: horizontal tab,
/// or any byte at or above 32 except delete.
pub open spec fn is_header_value(bs: Seq<u8>) -> bool {
    forall|i: int|
        0 <= i < bs.len() ==> (#[trigger] bs[i] == 9 || (32 <= bs[i] && bs[i] != 127))
}

/// Checks that a string can be carried as an HTTP header value.
pub fn valid_header_value(s: &str) -> (r: bool)
    ensures
        r == is_header_value(s.spec_bytes()),
{
    let bs = s.as_bytes_vec();
    let mut i: usize = 0;
    while i < bs.len()
        invariant
            0 <= i <= bs@.len(),
            bs@ == s.spec_bytes(),
            forall|j: int| 0 <= j < i ==> (#[trigger] bs@[j] == 9 || (32 <= bs@[j] && bs@[j]
                != 127)),
        decreases bs@.len() - i,
    {
        let b = bs[i];
        if !(b == 9 || (32 <= b && b != 127)) {
            return false;
        }
        i = i + 1;
    }
    true
}

/// A saved account, as the settings store hands it to `init`.
pub struct Account {
    pub servername: String,
    pub server: String,
    pub username: String,
    pub password: String,
    pub port: String,
    pub user_id: String,
    pub access_token: String,
    pub server_type: Option<String>,
}

/// The header values attached to every request: a fixed accept-encoding,
/// the composed authorization directive, and the bearer token.
pub struct RequestHeaders {
    pub accept_encoding: String,
    pub authorization: String,
    pub token: String,
}

/// The client's mutable session: resolved server root, device and user
/// identity, credentials, and the two derived header values.
pub struct EmbyClient {
    pub url: Option<ServerUrl>,
    pub device_id: String,
    pub device_name: String,
    pub client_name: String,
    pub app_version: String,
    pub user_id: String,
    pub user_name: String,
    pub user_password: String,
    pub user_access_token: String,
    pub server_name: String,
    pub server_name_hash: String,
    /// The cached `x-emby-authorization` value; regenerated whenever the
    /// user id changes.
    pub auth_header: String,
    /// The cached bearer-token header value.
    pub token_header: String,
}

impl EmbyClient {
    /// Well-formedness: a configured server root, when present, is itself
    /// well formed.
    pub open spec fn wf(&self) -> bool {
        match self.url {
            Some(u) => u.wf(),
            None => true,
        }
    }

    /// A fresh session: no server, empty user identity and credentials,
    /// and an authorization header composed for the empty user id.
    pub fn default(device_id: &str, device_name: &str, app_version: &str) -> (r: EmbyClient)
        ensures
            r.wf(),
            r.url is None,
            r.device_id@ == device_id@,
            r.device_name@ == device_name@,
            r.client_name@ == "Tsukimi"@,
            r.app_version@ == app_version@,
            r.user_id@.len() == 0,
            r.user_name@.len() == 0,
            r.user_password@.len() == 0,
            r.user_access_token@.len() == 0,
            r.server_name@.len() == 0,
            r.server_name_hash@.len() == 0,
            r.auth_header@ == spec_emby_authorization(
                Seq::empty(),
                "Tsukimi"@,
                device_name@,
                device_id@,
                app_version@,
            ),
            r.token_header@.len() == 0,
    {
        let auth = generate_emby_authorization("", "Tsukimi", device_name, device_id, app_version);
        assert(""@ =~= Seq::<char>::empty()) by {
            reveal_strlit("");
        }
        EmbyClient {
            url: None,
            device_id: device_id.to_owned(),
            device_name: device_name.to_owned(),
            client_name: String::from_str("Tsukimi"),
            app_version: app_version.to_owned(),
            user_id: String::new(),
            user_name: String::new(),
            user_password: String::new(),
            user_access_token: String::new(),
            server_name: String::new(),
            server_name_hash: String::new(),
            auth_header: auth,
            token_header: String::new(),
        }
    }

    /// Parses and validates a server address and port, resolves the API
    /// root under it, and stores the result. Rejects an unparsable address,
    /// an address without host or absolute path, and a non-numeric or
    /// out-of-range port, leaving any previously configured URL unchanged.
    pub fn header_change_url(&mut self, url: &str, port: &str) -> (r: Result<(), ApiError>)
        ensures
            r is Ok <==> server_address_ok(url@, port@),
            r is Err ==> *final(self) == *old(self) && r->Err_0 matches ApiError::Config(_),
            r is Ok ==> (final(self).url matches Some(u) && resolved_server(u, url@, port@)),
            r is Ok ==> *final(self) == (EmbyClient { url: final(self).url, ..(*old(self)) }),
            old(self).wf() ==> final(self).wf(),
    {
        let port_num = match parse_port(port) {
            Some(p) => p,
            None => {
                return Err(ApiError::Config(String::from_str("invalid port")));
            },
        };
        let (scheme, host, path) = match parse_server_address(url) {
            Some(t) => t,
            None => {
                return Err(ApiError::Config(String::from_str("unparsable server address")));
            },
        };
        if scheme.as_str().unicode_len() == 0 || host.as_str().unicode_len() == 0 {
            return Err(ApiError::Config(String::from_str("server address has no host")));
        }
        if path.as_str().unicode_len() == 0 || path.as_str().get_char(0) != '/' {
            return Err(ApiError::Config(String::from_str("server address has no root path")));
        }
        let mut root_path = crate::address::dir_prefix_of(path.as_str());
        root_path.append("emby/");
        proof {
            reveal_strlit("emby/");
        }
        assert(root_path@.last() == '/');
        self.url = Some(
            ServerUrl { scheme, host, port: port_num, root_path },
        );
        Ok(())
    }

    /// Stores the bearer token header value. A token that cannot stand in
    /// an HTTP header value (a control byte such as a newline) is rejected
    /// with a `Config` error, and the stored header stays as it was.
    pub fn header_change_token(&mut self, token: &str) -> (r: Result<(), ApiError>)
        ensures
            r is Ok <==> is_header_value(token.spec_bytes()),
            r is Err ==> *final(self) == *old(self) && r->Err_0 matches ApiError::Config(_),
            r is Ok ==> *final(self) == (EmbyClient {
                token_header: final(self).token_header,
                ..(*old(self))
            }) && final(self).token_header@ == token@,
    {
        if !valid_header_value(token) {
            return Err(ApiError::Config(String::from_str("invalid token")));
        }
        self.token_header = token.to_owned();
        Ok(())
    }

    /// Recomposes the authorization header for the given user id; the other
    /// identity directives come from the session.
    pub fn header_change_user_id(&mut self, user_id: &str)
        ensures
            *final(self) == (EmbyClient { auth_header: final(self).auth_header, ..(*old(self)) }),
            final(self).auth_header@ == spec_emby_authorization(
                user_id@,
                old(self).client_name@,
                old(self).device_name@,
                old(self).device_id@,
                old(self).app_version@,
            ),
    {
        self.auth_header = generate_emby_authorization(
            user_id,
            self.client_name.as_str(),
            self.device_name.as_str(),
            self.device_id.as_str(),
            self.app_version.as_str(),
        );
    }

    /// Stores the user id and recomposes the authorization header, so the
    /// very next read of the headers carries the new identity.
    pub fn set_user_id(&mut self, user_id: &str)
        ensures
            *final(self) == (EmbyClient {
                user_id: final(self).user_id,
                auth_header: final(self).auth_header,
                ..(*old(self))
            }),
            final(self).user_id@ == user_id@,
            final(self).auth_header@ == spec_emby_authorization(
                user_id@,
                old(self).client_name@,
                old(self).device_name@,
                old(self).device_id@,
                old(self).app_version@,
            ),
    {
        self.user_id = user_id.to_owned();
        self.header_change_user_id(user_id);
    }

    /// Stores the user name.
    pub fn set_user_name(&mut self, user_name: &str)
        ensures
            *final(self) == (EmbyClient { user_name: final(self).user_name, ..(*old(self)) }),
            final(self).user_name@ == user_name@,
    {
        self.user_name = user_name.to_owned();
    }

    /// Stores the user password (kept for the password-change flow).
    pub fn set_user_password(&mut self, user_password: &str)
        ensures
            *final(self) == (EmbyClient { user_password: final(self).user_password, ..(*old(self)) }),
            final(self).user_password@ == user_password@,
    {
        self.user_password = user_password.to_owned();
    }

    /// Stores the access token field (the bearer header is set separately
    /// by `header_change_token`).
    pub fn set_user_access_token(&mut self, user_access_token: &str)
        ensures
            *final(self) == (EmbyClient {
                user_access_token: final(self).user_access_token,
                ..(*old(self))
            }),
            final(self).user_access_token@ == user_access_token@,
    {
        self.user_access_token = user_access_token.to_owned();
    }

    /// Stores the server display name and derives its stable hash, the
    /// cache-namespace key.
    pub fn set_server_name(&mut self, server_name: &str)
        ensures
            *final(self) == (EmbyClient {
                server_name: final(self).server_name,
                server_name_hash: final(self).server_name_hash,
                ..(*old(self))
            }),
            final(self).server_name@ == server_name@,
            final(self).server_name_hash@ == hex_chars(
                fnv64_of(server_name.spec_bytes()) as nat,
            ),
    {
        self.server_name = server_name.to_owned();
        self.server_name_hash = generate_hash(server_name);
    }

    /// Loads a saved account into the session: server root, token header,
    /// user identity and credentials, and server display name with its
    /// derived cache-namespace hash. An invalid server address or port is
    /// rejected with the session unchanged; an access token that cannot be
    /// a header value is rejected next, with only the server root updated.
    pub fn init(&mut self, account: &Account) -> (r: Result<(), ApiError>)
        ensures
            r is Ok <==> server_address_ok(account.server@, account.port@) && is_header_value(
                vstd::utf8::encode_utf8(account.access_token@),
            ),
            r is Err ==> r->Err_0 matches ApiError::Config(_),
            !server_address_ok(account.server@, account.port@) ==> *final(self) == *old(self),
            server_address_ok(account.server@, account.port@) ==> (final(self).url matches Some(
                u,
            ) && resolved_server(u, account.server@, account.port@)),
            server_address_ok(account.server@, account.port@) && !is_header_value(
                vstd::utf8::encode_utf8(account.access_token@),
            ) ==> *final(self) == (EmbyClient { url: final(self).url, ..(*old(self)) }),
            r is Ok ==> {
                &&& final(self).token_header@ == account.access_token@
                &&& final(self).user_id@ == account.user_id@
                &&& final(self).user_name@ == account.username@
                &&& final(self).user_password@ == account.password@
                &&& final(self).user_access_token@ == account.access_token@
                &&& final(self).server_name@ == account.servername@
                &&& final(self).server_name_hash@ == hex_chars(
                    fnv64_of(vstd::utf8::encode_utf8(account.servername@)) as nat,
                )
                &&& final(self).auth_header@ == spec_emby_authorization(
                    account.user_id@,
                    old(self).client_name@,
                    old(self).device_name@,
                    old(self).device_id@,
                    old(self).app_version@,
                )
            },
            old(self).wf() ==> final(self).wf(),
    {
        self.header_change_url(account.server.as_str(), account.port.as_str())?;
        self.header_change_token(account.access_token.as_str())?;
        self.set_user_id(account.user_id.as_str());
        self.set_user_name(account.username.as_str());
        self.set_user_password(account.password.as_str());
        self.set_user_access_token(account.access_token.as_str());
        self.set_server_name(account.servername.as_str());
        Ok(())
    }

    /// The current user id, as every request path template reads it.
    pub fn user_id(&self) -> (r: String)
        ensures
            r@ == self.user_id@,
    {
        self.user_id.clone()
    }

    /// The resolved base URL and the current header values, or a `Config`
    /// error when no server has been configured yet.
    pub fn get_url_and_headers(&self) -> (r: Result<(String, RequestHeaders), ApiError>)
        ensures
            r is Ok <==> self.url is Some,
            r matches Ok(p) ==> {
                &&& p.0@ == self.url->0.base_chars()
                &&& p.1.accept_encoding@ == "gzip"@
                &&& p.1.authorization@ == self.auth_header@
                &&& p.1.token@ == self.token_header@
            },
            r is Err ==> r->Err_0 matches ApiError::Config(_),
    {
        match &self.url {
            Some(u) => Ok(
                (
                    u.base_string(),
                    RequestHeaders {
                        accept_encoding: String::from_str("gzip"),
                        authorization: self.auth_header.clone(),
                        token: self.token_header.clone(),
                    },
                ),
            ),
            None => Err(ApiError::Config(String::from_str("URL is not set"))),
        }
    }
}

} // verus!
