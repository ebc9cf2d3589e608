//! The Shadowsocks server that a connection goes through.
use crate::cipher::CipherKind;
use shadowsocks::config::{ServerAddr, ServerConfig};
use shadowsocks::crypto::CipherKind as SsCipherKind;
use vstd::prelude::*;

verus! {

/// The address of a server, as the `shadowsocks` crate holds it.
#[verifier::external_type_specification]
#[verifier::external_body]
pub struct ExServerAddr(shadowsocks::config::ServerAddr);

/// The settings of a server, as the `shadowsocks` crate holds them.
#[verifier::external_type_specification]
#[verifier::external_body]
pub struct ExServerConfig(shadowsocks::config::ServerConfig);

/// The settings that the `shadowsocks` crate makes for a server at `addr` that is reached with
/// `method` and `password`, where it accepts the password.
pub uninterp spec fn server_settings(
    addr: ServerAddr,
    password: Seq<char>,
    method: CipherKind,
) -> ServerConfig;

/// What the `shadowsocks` crate makes of a method and a password: the user's part of the password,
/// the encryption key and the identity keys, or the description of what is wrong with the password.
pub uninterp spec fn server_keys(method: CipherKind, password: Seq<char>) -> Result<
    (Seq<char>, Seq<u8>, Seq<Seq<u8>>),
    Seq<char>,
>;

/// Whether the password of a method is the base64 form of a key, which can be malformed, rather than
/// any text.
pub open spec fn password_is_key(method: CipherKind) -> bool {
    match method {
        CipherKind::AEAD2022_BLAKE3_AES_128_GCM => true,
        CipherKind::AEAD2022_BLAKE3_AES_256_GCM => true,
        CipherKind::AEAD2022_BLAKE3_CHACHA20_POLY1305 => true,
        _ => false,
    }
}

/// Whether the password of a method may start with the keys of relays in front of the server.
pub open spec fn password_has_relays(method: CipherKind) -> bool {
    match method {
        CipherKind::AEAD2022_BLAKE3_AES_128_GCM => true,
        CipherKind::AEAD2022_BLAKE3_AES_256_GCM => true,
        _ => false,
    }
}

/// `shadowsocks::config::ServerConfig::new`, with the parts read by `addr`, `password`, `key` and
/// `identity_keys`.
///
/// Trusted: the settings depend on the address, the password and the method alone, and the keys,
/// or the fault that is found with the password, on the last two. The address is kept as it is. A
/// method whose password is not itself a key takes every password. Unless it may have relays, an
/// accepted password is kept whole.
#[verifier::external_body]
fn ss_server_config(addr: ServerAddr, password: &str, method: CipherKind) -> (r: Result<
    (ServerConfig, ServerAddr, String, Vec<u8>, Vec<Vec<u8>>),
    String,
>)
    ensures
        match r {
            Ok((settings, kept, user, key, identity_keys)) => {
                &&& settings == server_settings(addr, password@, method)
                &&& kept == addr
                &&& server_keys(method, password@) == Ok::<
                    (Seq<char>, Seq<u8>, Seq<Seq<u8>>),
                    Seq<char>,
                >((user@, key@, identity_keys.deep_view()))
                &&& !password_has_relays(method) ==> user@ == password@
                    && identity_keys@.len() == 0
            },
            Err(fault) => server_keys(method, password@) == Err::<
                (Seq<char>, Seq<u8>, Seq<Seq<u8>>),
                Seq<char>,
            >(fault@),
        },
        !password_is_key(method) ==> r is Ok,
{
    let method = match method {
        CipherKind::NONE => SsCipherKind::NONE,
        CipherKind::AES_128_GCM => SsCipherKind::AES_128_GCM,
        CipherKind::AES_256_GCM => SsCipherKind::AES_256_GCM,
        CipherKind::CHACHA20_POLY1305 => SsCipherKind::CHACHA20_POLY1305,
        CipherKind::AEAD2022_BLAKE3_AES_128_GCM => SsCipherKind::AEAD2022_BLAKE3_AES_128_GCM,
        CipherKind::AEAD2022_BLAKE3_AES_256_GCM => SsCipherKind::AEAD2022_BLAKE3_AES_256_GCM,
        CipherKind::AEAD2022_BLAKE3_CHACHA20_POLY1305 => SsCipherKind::AEAD2022_BLAKE3_CHACHA20_POLY1305,
    };
    let settings = ServerConfig::new(addr, password, method).map_err(|e| e.to_string())?;
    let (kept, user) = (settings.addr().clone(), settings.password().to_owned());
    let key = settings.key().to_vec();
    let identity_keys = settings.identity_keys().iter().map(|k| k.to_vec()).collect();
    Ok((settings, kept, user, key, identity_keys))
}

/// A server with the keys that its password stands for.
pub struct Server {
    settings: ServerConfig,
    addr: ServerAddr,
    method: CipherKind,
    password: String,
    user_password: String,
    key: Vec<u8>,
    identity_keys: Vec<Vec<u8>>,
}

/// The contents of a [`Server`].
pub struct ServerView {
    /// The settings to dial with.
    pub settings: ServerConfig,
    /// Where the server is.
    pub addr: ServerAddr,
    /// The encryption method.
    pub method: CipherKind,
    /// The password as it was given.
    pub password: Seq<char>,
    /// The user's own part of the password.
    pub user_password: Seq<char>,
    /// The encryption key.
    pub key: Seq<u8>,
    /// The keys of the relays in front of the server.
    pub identity_keys: Seq<Seq<u8>>,
}

impl ServerView {
    /// Whether all the parts belong to one address, method and password.
    pub open spec fn consistent(self) -> bool {
        &&& self.settings == server_settings(self.addr, self.password, self.method)
        &&& server_keys(self.method, self.password) == Ok::<
            (Seq<char>, Seq<u8>, Seq<Seq<u8>>),
            Seq<char>,
        >((self.user_password, self.key, self.identity_keys))
        &&& !password_has_relays(self.method) ==> self.user_password == self.password
            && self.identity_keys.len() == 0
    }
}

impl View for Server {
    type V = ServerView;

    closed spec fn view(&self) -> ServerView {
        ServerView {
            settings: self.settings,
            addr: self.addr,
            method: self.method,
            password: self.password@,
            user_password: self.user_password@,
            key: self.key@,
            identity_keys: self.identity_keys.deep_view(),
        }
    }
}

/// Whether `r` is the server for these three, or the fault found with the password.
pub open spec fn configured(
    addr: ServerAddr,
    password: Seq<char>,
    method: CipherKind,
    r: Result<Server, String>,
) -> bool {
    match r {
        Ok(server) => {
            &&& server@.addr == addr
            &&& server@.password == password
            &&& server@.method == method
            &&& server@.consistent()
        },
        Err(fault) => server_keys(method, password) == Err::<
            (Seq<char>, Seq<u8>, Seq<Seq<u8>>),
            Seq<char>,
        >(fault@),
    }
}

impl Server {
    #[verifier::type_invariant]
    spec fn inv(self) -> bool {
        self@.consistent()
    }

    /// The server at `addr`, reached with `method` and `password`.
    pub fn new(addr: ServerAddr, password: &str, method: CipherKind) -> (r: Result<Server, String>)
        ensures
            configured(addr, password@, method, r),
            !password_is_key(method) ==> r is Ok,
    {
        match ss_server_config(addr, password, method) {
            Ok((settings, addr, user_password, key, identity_keys)) => Ok(
                Server {
                    settings,
                    addr,
                    method,
                    password: password.to_owned(),
                    user_password,
                    key,
                    identity_keys,
                },
            ),
            Err(fault) => Err(fault),
        }
    }

    /// The settings to dial with.
    pub fn settings(&self) -> (r: &ServerConfig)
        ensures
            *r == self@.settings,
            *r == server_settings(self@.addr, self@.password, self@.method),
    {
        proof {
            use_type_invariant(self);
        }
        &self.settings
    }

    /// Where the server is.
    pub fn addr(&self) -> (r: &ServerAddr)
        ensures
            *r == self@.addr,
    {
        &self.addr
    }

    /// The encryption method.
    pub fn method(&self) -> (r: CipherKind)
        ensures
            r == self@.method,
    {
        self.method
    }

    /// The password as it was given.
    pub fn password(&self) -> (r: &str)
        ensures
            r@ == self@.password,
    {
        self.password.as_str()
    }

    /// The user's own part of the password.
    pub fn user_password(&self) -> (r: &str)
        ensures
            r@ == self@.user_password,
    {
        self.user_password.as_str()
    }

    /// The encryption key.
    pub fn key(&self) -> (r: &[u8])
        ensures
            r@ == self@.key,
    {
        self.key.as_slice()
    }

    /// The keys of the relays in front of the server.
    pub fn identity_keys(&self) -> (r: &Vec<Vec<u8>>)
        ensures
            r.deep_view() == self@.identity_keys,
    {
        &self.identity_keys
    }
}

/// A server is made from its address, its password and its method alone: the settings are those for
/// the three, the keys those for the last two, and the fault found with a password is passed on.
pub proof fn server_is_made_from_its_parts(
    addr: ServerAddr,
    password: &str,
    method: CipherKind,
    r: Result<Server, String>,
)
    requires
        call_ensures(Server::new, (addr, password, method), r),
    ensures
        match server_keys(method, password@) {
            Ok((user_password, key, identity_keys)) => r matches Ok(server) && {
                &&& server@.settings == server_settings(addr, password@, method)
                &&& server@.addr == addr
                &&& server@.method == method
                &&& server@.password == password@
                &&& server@.user_password == user_password
                &&& server@.key == key
                &&& server@.identity_keys == identity_keys
            },
            Err(description) => r matches Err(fault) && fault@ == description,
        },
{
}

/// The methods whose password is any text accept all passwords and keep them whole.
pub proof fn plain_passwords_are_kept(
    addr: ServerAddr,
    password: &str,
    method: CipherKind,
    r: Result<Server, String>,
)
    requires
        call_ensures(Server::new, (addr, password, method), r),
        method == CipherKind::NONE || method == CipherKind::AES_128_GCM || method
            == CipherKind::AES_256_GCM || method == CipherKind::CHACHA20_POLY1305,
    ensures
        r matches Ok(server) && server@.user_password == password@
            && server@.identity_keys.len() == 0,
{
}

/// The password of `2022-blake3-chacha20-poly1305` names no relays either.
pub proof fn chacha_has_no_relays(addr: ServerAddr, password: &str, r: Result<Server, String>)
    requires
        call_ensures(
            Server::new,
            (addr, password, CipherKind::AEAD2022_BLAKE3_CHACHA20_POLY1305),
            r,
        ),
    ensures
        r matches Ok(server) ==> server@.user_password == password@
            && server@.identity_keys.len() == 0,
{
}

/// A server gives out what it was made from and with: the settings to dial with are those for its
/// address, password and method.
pub proof fn server_gives_out_its_parts(
    addr: ServerAddr,
    password: &str,
    method: CipherKind,
    server: Server,
    settings: &ServerConfig,
    given_addr: &ServerAddr,
    given_method: CipherKind,
    given_password: &str,
    user_password: &str,
    key: &[u8],
    identity_keys: &Vec<Vec<u8>>,
)
    requires
        call_ensures(Server::new, (addr, password, method), Ok(server)),
        call_ensures(Server::settings, (&server,), settings),
        call_ensures(Server::addr, (&server,), given_addr),
        call_ensures(Server::method, (&server,), given_method),
        call_ensures(Server::password, (&server,), given_password),
        call_ensures(Server::user_password, (&server,), user_password),
        call_ensures(Server::key, (&server,), key),
        call_ensures(Server::identity_keys, (&server,), identity_keys),
    ensures
        *settings == server_settings(addr, password@, method),
        *given_addr == addr,
        given_method == method,
        given_password@ == password@,
        server_keys(method, password@) == Ok::<(Seq<char>, Seq<u8>, Seq<Seq<u8>>), Seq<char>>(
            (user_password@, key@, identity_keys.deep_view()),
        ),
{
}

} // verus!
