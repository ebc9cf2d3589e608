//! The steps from a request to a connection.
//!
//! Opening a connection takes three pieces of outside work: resolving the proxy's address, dialing
//! the destination through the server there and, for `https`, a TLS handshake. Each type here stands
//! for an attempt that waits for one of them. It tells what to do, and the method that takes the
//! outcome leads to what comes next. Work that fails ends the attempt with its own error.
use crate::auth::{parse_proxy_auth, AuthError};
use crate::cipher::CipherKind;
use crate::destination::{Destination, Target};
use crate::proxy_url::ProxyUrl;
use crate::server::Server;
use crate::tls::TlsName;
use shadowsocks::config::ServerAddr;
use vstd::prelude::*;

verus! {

/// Why an attempt ended before its outside work did.
#[derive(Debug, PartialEq, Eq)]
pub enum ConnectError {
    /// The proxy's URL is malformed; with the parser's description.
    ProxyUrl(String),
    /// The proxy's URL holds no credentials.
    Auth(AuthError),
    /// The password does not suit the cipher; with the reason.
    Server(String),
    /// The destination has no host.
    NoHost,
    /// The destination's host cannot be verified in a handshake; with the reason.
    ServerName(String),
}

/// The contents of a [`ConnectError`].
pub enum ConnectErrorView {
    ProxyUrl(Seq<char>),
    Auth(crate::auth::AuthErrorView),
    Server(Seq<char>),
    NoHost,
    ServerName(Seq<char>),
}

impl View for ConnectError {
    type V = ConnectErrorView;

    open spec fn view(&self) -> ConnectErrorView {
        match self {
            ConnectError::ProxyUrl(fault) => ConnectErrorView::ProxyUrl(fault@),
            ConnectError::Auth(e) => ConnectErrorView::Auth(e@),
            ConnectError::Server(fault) => ConnectErrorView::Server(fault@),
            ConnectError::NoHost => ConnectErrorView::NoHost,
            ConnectError::ServerName(fault) => ConnectErrorView::ServerName(fault@),
        }
    }
}

impl ConnectErrorView {
    /// The error in words.
    pub open spec fn message(self) -> Seq<char> {
        match self {
            ConnectErrorView::ProxyUrl(fault) => fault,
            ConnectErrorView::Auth(e) => e.message(),
            ConnectErrorView::Server(fault) => fault,
            ConnectErrorView::NoHost => "no host in url"@,
            ConnectErrorView::ServerName(fault) => fault,
        }
    }
}

impl ConnectError {
    /// The error in words.
    pub fn message(&self) -> (r: String)
        ensures
            r@ == self@.message(),
    {
        match self {
            ConnectError::ProxyUrl(fault) => fault.clone(),
            ConnectError::Auth(e) => e.message(),
            ConnectError::Server(fault) => fault.clone(),
            ConnectError::NoHost => "no host in url".to_owned(),
            ConnectError::ServerName(fault) => fault.clone(),
        }
    }
}

/// The TLS implementation in use.
#[derive(Clone, Copy, Debug, PartialEq, Eq, Structural)]
pub enum TlsBackend {
    Native,
    Rustls,
}

/// The settings of the client that bear on a connection.
#[derive(Clone, Copy, Debug, PartialEq, Eq, Structural)]
pub struct Connector {
    pub tls: TlsBackend,
    /// Whether a connection is to report on its TLS session.
    pub tls_info: bool,
}

/// How a connection presents itself to the client.
#[derive(Clone, Copy, Debug, PartialEq, Eq, Structural)]
pub struct ConnInfo {
    /// Whether requests are addressed to the proxy rather than to the destination.
    pub is_proxy: bool,
    /// Whether the connection reports on its TLS session.
    pub tls_info: bool,
}

/// A TLS handshake to perform.
pub enum Handshake {
    /// With `native-tls`, as `domain`.
    Native { domain: String, accept_invalid_certs: bool },
    /// With `rustls`, as `name`.
    Rustls { name: TlsName },
}

/// An attempt that waits for the addresses of the proxy at `url`.
pub struct Resolving {
    pub connector: Connector,
    pub url: ProxyUrl,
    pub cipher: CipherKind,
    pub password: String,
    pub destination: Destination,
}

/// An attempt that waits for a stream to `target` through `server`.
pub struct Dialing {
    pub connector: Connector,
    pub server: Server,
    pub target: Target,
    /// Whether the stream carries TLS.
    pub secure: bool,
}

/// An attempt that waits for a handshake over its stream.
pub struct Handshaking {
    pub handshake: Handshake,
    pub tls_info: bool,
}

/// What follows a stream that is open.
pub enum Dialed {
    /// The stream is the connection.
    Open(ConnInfo),
    /// The stream is to carry TLS.
    Secure(Handshaking),
}

/// How every connection over a stream presents itself: the proxy is transparent to requests, and
/// only TLS has anything to report.
pub open spec fn conn_info(connector: Connector, secure: bool) -> ConnInfo {
    ConnInfo { is_proxy: false, tls_info: secure && connector.tls_info }
}

/// Whether `r` is the start of an attempt through the proxy at `url`.
pub open spec fn starts(
    connector: Connector,
    url: crate::proxy_url::ProxyUrlView,
    destination: Destination,
    r: Result<Resolving, ConnectError>,
) -> bool {
    match crate::auth::credentials_of(url.username) {
        Err(e) => r matches Err(error) && error@ == ConnectErrorView::Auth(e),
        Ok((cipher, password)) => r matches Ok(next) && {
            &&& next.connector == connector
            &&& next.url@ == url
            &&& next.cipher == cipher
            &&& next.password@ == password
            &&& next.destination == destination
        },
    }
}

/// Whether `r` is the start of an attempt with the credentials in `username`, or the refusal that
/// they meet.
pub open spec fn starts_with_username(
    username: Seq<char>,
    r: Result<Resolving, ConnectError>,
) -> bool {
    match crate::auth::credentials_of(username) {
        Err(e) => r matches Err(error) && error@ == ConnectErrorView::Auth(e),
        Ok((cipher, password)) => r matches Ok(next) && next.cipher == cipher && next.password@
            == password,
    }
}

/// Whether `r` takes the plain user name of a Shadowsocks URL as it stands in `text`, unless the URL
/// is refused as malformed.
pub open spec fn begins_from(text: Seq<char>, r: Result<Resolving, ConnectError>) -> bool {
    forall|username: Seq<char>| #[trigger]
        crate::proxy_url::is_ss_url_of(text, username) ==> (r matches Err(error)
            && error@ is ProxyUrl) || starts_with_username(username, r)
}

/// Whether `r` is what follows `attempt` once the server is configured, or was found faulty.
pub open spec fn dials(
    attempt: Resolving,
    server: Result<Server, String>,
    r: Result<Dialing, ConnectError>,
) -> bool {
    match server {
        Err(fault) => r matches Err(error) && error@ == ConnectErrorView::Server(fault@),
        Ok(server) => match attempt.destination.host {
            None => r matches Err(error) && error@ == ConnectErrorView::NoHost,
            Some(host) => r matches Ok(next) && {
                &&& next.connector == attempt.connector
                &&& next.server == server
                &&& next.target.host@ == host@
                &&& next.target.port == attempt.destination.target_port()
                &&& next.secure == attempt.destination.secure()
            },
        },
    }
}

/// Whether `r` is what follows `attempt` once its proxy was found at `addr`.
pub open spec fn resolves(
    attempt: Resolving,
    addr: ServerAddr,
    r: Result<Dialing, ConnectError>,
) -> bool {
    match crate::server::server_keys(attempt.cipher, attempt.password@) {
        Err(fault) => r matches Err(error) && error@ == ConnectErrorView::Server(fault),
        Ok((user_password, key, identity_keys)) => match attempt.destination.host {
            None => r matches Err(error) && error@ == ConnectErrorView::NoHost,
            Some(host) => r matches Ok(next) && {
                &&& next.connector == attempt.connector
                &&& next.server@ == crate::server::ServerView {
                    settings: crate::server::server_settings(
                        addr,
                        attempt.password@,
                        attempt.cipher,
                    ),
                    addr,
                    method: attempt.cipher,
                    password: attempt.password@,
                    user_password,
                    key,
                    identity_keys,
                }
                &&& next.target.host@ == host@
                &&& next.target.port == attempt.destination.target_port()
                &&& next.secure == attempt.destination.secure()
            },
        },
    }
}

/// Whether `r` is what follows `attempt` once its stream is open.
pub open spec fn opens(attempt: Dialing, r: Result<Dialed, ConnectError>) -> bool {
    if !attempt.secure {
        r == Ok::<Dialed, ConnectError>(Dialed::Open(conn_info(attempt.connector, false)))
    } else {
        match attempt.connector.tls {
            TlsBackend::Native => r matches Ok(Dialed::Secure(next)) && {
                &&& next.handshake matches Handshake::Native { domain, accept_invalid_certs }
                &&& domain@ == attempt.target.host@
                &&& accept_invalid_certs
                &&& next.tls_info == attempt.connector.tls_info
            },
            TlsBackend::Rustls => match crate::tls::tls_name_of(attempt.target.host@) {
                None => r matches Err(error) && error@ == ConnectErrorView::ServerName(
                    crate::tls::tls_name_fault(),
                ),
                Some(text) => r matches Ok(Dialed::Secure(next)) && {
                    &&& next.handshake matches Handshake::Rustls { name }
                    &&& name@ == crate::tls::TlsNameView {
                        name: crate::tls::tls_server_name(attempt.target.host@),
                        host: attempt.target.host@,
                        text,
                    }
                    &&& next.tls_info == attempt.connector.tls_info
                },
            },
        }
    }
}

/// How the connection that ends `attempt` presents itself.
pub open spec fn secured_info(attempt: Handshaking) -> ConnInfo {
    ConnInfo { is_proxy: false, tls_info: attempt.tls_info }
}

impl Resolving {
    /// Starts an attempt through the proxy at `url`.
    pub fn start(connector: Connector, url: ProxyUrl, destination: Destination) -> (r: Result<
        Resolving,
        ConnectError,
    >)
        ensures
            starts(connector, url@, destination, r),
    {
        match parse_proxy_auth(&url) {
            Ok((cipher, password)) => Ok(
                Resolving { connector, url, cipher, password, destination },
            ),
            Err(e) => Err(ConnectError::Auth(e)),
        }
    }

    /// Starts an attempt through a proxy. Its URL is the Shadowsocks URL that it was set up with,
    /// where there is one, and else the URI that it goes by.
    pub fn begin(
        connector: Connector,
        ss: Option<&str>,
        uri: &str,
        destination: Destination,
    ) -> (r: Result<Resolving, ConnectError>)
        ensures
            match crate::proxy_url::url_parsed(
                crate::proxy_url::url_text(ss.deep_view(), uri@),
            ) {
                Err(fault) => r matches Err(error) && error@ == ConnectErrorView::ProxyUrl(fault),
                Ok(url) => starts(connector, url, destination, r),
            },
            begins_from(crate::proxy_url::url_text(ss.deep_view(), uri@), r),
    {
        let text = match ss {
            Some(text) => text,
            None => uri,
        };
        match ProxyUrl::parse(text) {
            Ok(url) => Resolving::start(connector, url, destination),
            Err(fault) => Err(ConnectError::ProxyUrl(fault)),
        }
    }

    /// Goes on with the configured server, or with what was found wrong with it.
    pub fn configured(self, server: Result<Server, String>) -> (r: Result<Dialing, ConnectError>)
        ensures
            dials(self, server, r),
    {
        let server = match server {
            Ok(server) => server,
            Err(fault) => {
                return Err(ConnectError::Server(fault));
            },
        };
        match self.destination.target() {
            Some(target) => Ok(
                Dialing {
                    connector: self.connector,
                    server,
                    target,
                    secure: self.destination.is_https(),
                },
            ),
            None => Err(ConnectError::NoHost),
        }
    }

    /// Goes on with the addresses of the proxy. The first one is taken; there has to be one.
    pub fn resolved(self, addrs: Vec<ServerAddr>) -> (r: Result<Dialing, ConnectError>)
        requires
            addrs@.len() > 0,
        ensures
            resolves(self, addrs@[0], r),
            !crate::server::password_is_key(self.cipher) ==> (r matches Err(error) ==> error@
                == ConnectErrorView::NoHost),
            !crate::server::password_has_relays(self.cipher) ==> (r matches Ok(next)
                ==> next.server@.user_password == self.password@
                && next.server@.identity_keys.len() == 0),
    {
        let mut addrs = addrs;
        let addr = addrs.swap_remove(0);
        let server = Server::new(addr, self.password.as_str(), self.cipher);
        self.configured(server)
    }
}

impl Dialing {
    /// Goes on with the stream, and the name that `rustls` gave the destination, or what was found
    /// wrong with it.
    pub fn named(self, name: Result<TlsName, String>) -> (r: Result<Dialed, ConnectError>)
        ensures
            match name {
                Err(fault) => r matches Err(error) && error@ == ConnectErrorView::ServerName(fault@),
                Ok(name) => r == Ok::<Dialed, ConnectError>(
                    Dialed::Secure(
                        Handshaking {
                            handshake: Handshake::Rustls { name },
                            tls_info: self.connector.tls_info,
                        },
                    ),
                ),
            },
    {
        match name {
            Ok(name) => Ok(
                Dialed::Secure(
                    Handshaking {
                        handshake: Handshake::Rustls { name },
                        tls_info: self.connector.tls_info,
                    },
                ),
            ),
            Err(fault) => Err(ConnectError::ServerName(fault)),
        }
    }

    /// Goes on with the stream. Only one to an `https` destination carries TLS; `native-tls` takes
    /// the destination's host as it is and accepts any certificate, `rustls` wants a valid name.
    pub fn dialed(self) -> (r: Result<Dialed, ConnectError>)
        ensures
            opens(self, r),
    {
        if !self.secure {
            return Ok(Dialed::Open(ConnInfo { is_proxy: false, tls_info: false }));
        }
        match self.connector.tls {
            TlsBackend::Native => Ok(
                Dialed::Secure(
                    Handshaking {
                        handshake: Handshake::Native {
                            domain: self.target.host,
                            accept_invalid_certs: true,
                        },
                        tls_info: self.connector.tls_info,
                    },
                ),
            ),
            TlsBackend::Rustls => {
                let name = TlsName::parse(self.target.host.as_str());
                self.named(name)
            },
        }
    }
}

impl Handshaking {
    /// Ends with the TLS session as the connection.
    pub fn secured(&self) -> (r: ConnInfo)
        ensures
            r == secured_info(*self),
    {
        ConnInfo { is_proxy: false, tls_info: self.tls_info }
    }
}

/// The server is configured with the credentials that the proxy's URL was made from, and is asked
/// for the host and the port that the destination names.
pub proof fn url_credentials_reach_the_server(
    name: Seq<char>,
    kind: CipherKind,
    password: Seq<char>,
    dropped: nat,
    connector: Connector,
    url: crate::proxy_url::ProxyUrlView,
    destination: Destination,
    begun: Result<Resolving, ConnectError>,
    addr: ServerAddr,
    dialing: Result<Dialing, ConnectError>,
)
    requires
        !name.contains(':'),
        crate::cipher::cipher_kind(name) == Some(kind),
        dropped <= crate::auth::padding_of(
            vstd::utf8::encode_utf8(crate::auth::credentials_text(name, password)).len(),
        ),
        url.username == crate::auth::username_for(name, password).take(
            crate::auth::username_for(name, password).len() - dropped,
        ),
        starts(connector, url, destination, begun),
        begun is Ok ==> resolves(begun->Ok_0, addr, dialing),
    ensures
        begun is Ok,
        dialing is Ok <==> crate::server::server_keys(kind, password) is Ok
            && destination.host is Some,
        dialing matches Ok(attempt) ==> {
            &&& attempt.server@.settings == crate::server::server_settings(addr, password, kind)
            &&& attempt.server@.addr == addr
            &&& attempt.server@.method == kind
            &&& attempt.server@.password == password
            &&& crate::server::server_keys(kind, password) == Ok::<
                (Seq<char>, Seq<u8>, Seq<Seq<u8>>),
                Seq<char>,
            >(
                (
                    attempt.server@.user_password,
                    attempt.server@.key,
                    attempt.server@.identity_keys,
                ),
            )
            &&& destination.host.deep_view() == Some(attempt.target.host@)
            &&& attempt.target.port == destination.target_port()
        },
{
    crate::auth::credentials_round_trip(name, kind, password, dropped);
}

/// A Shadowsocks URL whose user name is made from a cipher and a password, its padding left out,
/// starts an attempt with that cipher and that password, unless it is malformed elsewhere.
pub proof fn url_gives_its_credentials(
    text: Seq<char>,
    name: Seq<char>,
    kind: CipherKind,
    password: Seq<char>,
    begun: Result<Resolving, ConnectError>,
)
    requires
        !name.contains(':'),
        crate::cipher::cipher_kind(name) == Some(kind),
        crate::proxy_url::is_ss_url_of(text, crate::auth::bare_username_for(name, password)),
        begins_from(text, begun),
    ensures
        match begun {
            Ok(attempt) => attempt.cipher == kind && attempt.password@ == password,
            Err(error) => error@ is ProxyUrl,
        },
{
    crate::auth::credentials_round_trip(
        name,
        kind,
        password,
        crate::auth::padding_of(
            vstd::utf8::encode_utf8(crate::auth::credentials_text(name, password)).len(),
        ),
    );
}

/// A handshake is for the host that the destination names: under the name that `rustls` makes of it,
/// or with `native-tls` under the host as it is written.
pub proof fn handshake_is_for_the_destination(
    attempt: Resolving,
    addr: ServerAddr,
    dialing: Dialing,
    handshaking: Handshaking,
)
    requires
        resolves(attempt, addr, Ok(dialing)),
        opens(dialing, Ok(Dialed::Secure(handshaking))),
    ensures
        attempt.destination.host matches Some(host) && match handshaking.handshake {
            Handshake::Rustls { name } => name@.name == crate::tls::tls_server_name(host@),
            Handshake::Native { domain, .. } => domain@ == host@,
        },
{
}

/// Every connection presents itself as [`conn_info`] says of its destination: never as one to a
/// proxy, and with a TLS session to report on exactly when the destination is `https` and the
/// client asked for it. A handshake takes place exactly when the destination is `https`.
pub proof fn connection_follows_destination(
    attempt: Resolving,
    addr: ServerAddr,
    dialing: Dialing,
    dialed: Dialed,
)
    requires
        resolves(attempt, addr, Ok(dialing)),
        opens(dialing, Ok(dialed)),
    ensures
        match dialed {
            Dialed::Open(info) => !attempt.destination.secure() && info == conn_info(
                attempt.connector,
                attempt.destination.secure(),
            ),
            Dialed::Secure(handshaking) => attempt.destination.secure() && secured_info(handshaking)
                == conn_info(attempt.connector, attempt.destination.secure()),
        },
{
}

/// What each refusal says: the description that it carries, as it is.
pub proof fn connect_error_in_words(error: ConnectError, inner: String, r: String)
    requires
        call_ensures(ConnectError::message, (&error,), r),
        error matches ConnectError::Auth(e) ==> call_ensures(AuthError::message, (&e,), inner),
    ensures
        error matches ConnectError::ProxyUrl(fault) ==> r@ == fault@,
        error is Auth ==> r@ == inner@,
        error matches ConnectError::Server(fault) ==> r@ == fault@,
        error is NoHost ==> r@ == "no host in url"@,
        error matches ConnectError::ServerName(fault) ==> r@ == fault@,
{
}

/// An attempt starts with the credentials that [`parse_proxy_auth`] reads from the proxy's URL and
/// keeps all that it was given, or ends with the refusal that they meet.
pub proof fn start_takes_the_credentials(
    connector: Connector,
    url: ProxyUrl,
    destination: Destination,
    auth: Result<(CipherKind, String), AuthError>,
    r: Result<Resolving, ConnectError>,
)
    requires
        call_ensures(Resolving::start, (connector, url, destination), r),
        call_ensures(parse_proxy_auth, (&url,), auth),
    ensures
        match auth {
            Ok((cipher, password)) => r matches Ok(next) && {
                &&& next.connector.tls == connector.tls
                &&& next.connector.tls_info == connector.tls_info
                &&& next.cipher == cipher
                &&& next.password@ == password@
                &&& next.url.serialization@ == url.serialization@
                &&& next.url.username@ == url.username@
                &&& next.url.host.deep_view() == url.host.deep_view()
                &&& next.url.port == url.port
                &&& next.url.fragment.deep_view() == url.fragment.deep_view()
                &&& next.destination.scheme == destination.scheme
                &&& next.destination.host == destination.host
                &&& next.destination.port == destination.port
            },
            Err(e) => r matches Err(ConnectError::Auth(error)) && error@ == e@,
        },
{
}

/// The Shadowsocks URL that a proxy was set up with decides alone how an attempt begins, whatever
/// URI the proxy goes by; only without it the URI does. The URL is read by [`ProxyUrl::parse`]: an
/// attempt begins as [`Resolving::start`] does with what was read, or ends with its description of
/// what is wrong.
pub proof fn begin_reads_the_ss_url_first(
    connector: Connector,
    ss: Option<&str>,
    uri: &str,
    destination: Destination,
    text: &str,
    parsed: Result<ProxyUrl, String>,
    started: Result<Resolving, ConnectError>,
    r: Result<Resolving, ConnectError>,
)
    requires
        call_ensures(Resolving::begin, (connector, ss, uri, destination), r),
        ss is Some ==> ss->0@ == text@,
        ss is None ==> uri@ == text@,
        call_ensures(ProxyUrl::parse, (text,), parsed),
        parsed matches Ok(url) ==> call_ensures(
            Resolving::start,
            (connector, url, destination),
            started,
        ),
    ensures
        match parsed {
            Err(description) => r matches Err(ConnectError::ProxyUrl(fault)) && fault@
                == description@,
            Ok(_) => match started {
                Err(e) => r matches Err(error) && error@ == e@,
                Ok(attempt) => r matches Ok(next) && {
                    &&& next.connector == attempt.connector
                    &&& next.url@ == attempt.url@
                    &&& next.cipher == attempt.cipher
                    &&& next.password@ == attempt.password@
                    &&& next.destination == attempt.destination
                },
            },
        },
{
}

/// The same, said of the URL's text: with a Shadowsocks URL, what the `url` crate makes of that very
/// text decides, and without one, what it makes of the URI's.
pub proof fn begin_goes_by_one_text(
    connector: Connector,
    ss: Option<&str>,
    uri: &str,
    destination: Destination,
    r: Result<Resolving, ConnectError>,
)
    requires
        call_ensures(Resolving::begin, (connector, ss, uri, destination), r),
    ensures
        ss matches Some(text) ==> begins_from(text@, r) && match crate::proxy_url::url_parsed(
            text@,
        ) {
            Err(fault) => r matches Err(ConnectError::ProxyUrl(given)) && given@ == fault,
            Ok(url) => starts(connector, url, destination, r),
        },
        ss is None ==> begins_from(uri@, r) && match crate::proxy_url::url_parsed(uri@) {
            Err(fault) => r matches Err(ConnectError::ProxyUrl(given)) && given@ == fault,
            Ok(url) => starts(connector, url, destination, r),
        },
{
}

/// Two attempts through a proxy with the same Shadowsocks URL begin alike, whatever the two URIs.
pub proof fn uri_is_not_read_beside_an_ss_url(
    connector: Connector,
    ss: &str,
    uri: &str,
    other_uri: &str,
    destination: Destination,
    r: Result<Resolving, ConnectError>,
    s: Result<Resolving, ConnectError>,
)
    requires
        call_ensures(Resolving::begin, (connector, Some(ss), uri, destination), r),
        call_ensures(Resolving::begin, (connector, Some(ss), other_uri, destination), s),
    ensures
        match s {
            Err(e) => r matches Err(error) && error@ == e@,
            Ok(attempt) => r matches Ok(next) && {
                &&& next.connector == attempt.connector
                &&& next.url@ == attempt.url@
                &&& next.cipher == attempt.cipher
                &&& next.password@ == attempt.password@
                &&& next.destination == attempt.destination
            },
        },
{
}

/// With the server configured, the attempt goes on to the destination's host and port, and over TLS
/// exactly when the scheme is `https`. A fault found with the server ends it, and so does a
/// destination without a host, in this order.
pub proof fn configured_server_is_asked_for_the_destination(
    attempt: Resolving,
    server: Result<Server, String>,
    port: u16,
    r: Result<Dialing, ConnectError>,
)
    requires
        call_ensures(Resolving::configured, (attempt, server), r),
        call_ensures(Destination::port_or_default, (&attempt.destination,), port),
    ensures
        server matches Err(fault) ==> (r matches Err(ConnectError::Server(given)) && given@
            == fault@),
        server is Ok && attempt.destination.host is None ==> (r matches Err(error) && error
            == ConnectError::NoHost),
        server matches Ok(configured) ==> (attempt.destination.host matches Some(host) ==> (
        r matches Ok(next) && {
            &&& next.connector.tls == attempt.connector.tls
            &&& next.connector.tls_info == attempt.connector.tls_info
            &&& next.server == configured
            &&& next.target.host@ == host@
            &&& next.target.port == port
            &&& next.secure <==> (attempt.destination.scheme matches Some(scheme) && scheme@
                == seq!['h', 't', 't', 'p', 's'])
        })),
{
    crate::destination::https_goes_by_the_scheme_of(attempt.destination);
}

/// The first of the proxy's addresses is the one that the server is made for, as [`Server::new`]
/// makes it from that address, the password and the cipher; the attempt then goes on as
/// [`Resolving::configured`] does. The other addresses do not matter.
pub proof fn first_address_is_taken(
    attempt: Resolving,
    addrs: Vec<ServerAddr>,
    password: &str,
    server: Result<Server, String>,
    dialing: Result<Dialing, ConnectError>,
    r: Result<Dialing, ConnectError>,
)
    requires
        addrs@.len() > 0,
        password@ == attempt.password@,
        call_ensures(Resolving::resolved, (attempt, addrs), r),
        call_ensures(Server::new, (addrs@[0], password, attempt.cipher), server),
        call_ensures(Resolving::configured, (attempt, server), dialing),
    ensures
        match dialing {
            Err(e) => r matches Err(error) && error@ == e@,
            Ok(expected) => r matches Ok(next) && {
                &&& next.connector == expected.connector
                &&& next.server@ == expected.server@
                &&& next.target.host@ == expected.target.host@
                &&& next.target.port == expected.target.port
                &&& next.secure == expected.secure
            },
        },
{
    if server is Ok {
        let made = server->Ok_0@;
        assert(made.consistent());
    }
}

/// A stream becomes the connection exactly when it carries no TLS, and never fails then. Otherwise
/// the handshake is done by the implementation in use, whether or not the client wants to be told
/// about the session: `native-tls` under the target's host and accepting any certificate, `rustls`
/// under the name that it makes of that host, and it is refused exactly when it makes none.
pub proof fn stream_goes_on_by_the_backend(dialing: Dialing, r: Result<Dialed, ConnectError>)
    requires
        call_ensures(Dialing::dialed, (dialing,), r),
    ensures
        (r matches Ok(Dialed::Open(_))) <==> !dialing.secure,
        r matches Ok(Dialed::Open(info)) ==> !info.is_proxy && !info.tls_info,
        r is Err <==> dialing.secure && dialing.connector.tls == TlsBackend::Rustls
            && crate::tls::tls_name_of(dialing.target.host@) is None,
        r matches Err(error) ==> (error matches ConnectError::ServerName(fault) && fault@
            == "invalid dns name"@),
        r matches Ok(Dialed::Secure(next)) ==> {
            &&& next.handshake is Rustls <==> dialing.connector.tls == TlsBackend::Rustls
            &&& next.handshake is Native <==> dialing.connector.tls == TlsBackend::Native
            &&& next.tls_info == dialing.connector.tls_info
            &&& next.handshake matches Handshake::Native { domain, accept_invalid_certs }
                ==> domain@ == dialing.target.host@ && accept_invalid_certs
            &&& next.handshake matches Handshake::Rustls { name } ==> name@.host
                == dialing.target.host@ && name@.name == crate::tls::tls_server_name(
                dialing.target.host@,
            ) && crate::tls::tls_name_of(dialing.target.host@) == Some(name@.text)
        },
{
}

/// A handshake is done by the implementation that the client is set to use, whether or not it wants
/// to be told about the session.
pub proof fn handshake_is_of_the_backend(dialing: Dialing, handshaking: Handshaking)
    requires
        opens(dialing, Ok(Dialed::Secure(handshaking))),
    ensures
        handshaking.handshake is Rustls <==> dialing.connector.tls == TlsBackend::Rustls,
        handshaking.handshake is Native <==> dialing.connector.tls == TlsBackend::Native,
        handshaking.tls_info == dialing.connector.tls_info,
{
}

/// From the proxy's address to the connection: a handshake takes place exactly when the
/// destination's scheme is `https`, whatever its host and port, with the implementation that the
/// attempt was started with and for the destination's own host. The connection never presents itself
/// as one to a proxy, and reports on a TLS session exactly when there is one and the client asked
/// for it.
pub proof fn session_goes_by_scheme_and_connector(
    attempt: Resolving,
    addrs: Vec<ServerAddr>,
    dialing: Dialing,
    dialed: Dialed,
    info: ConnInfo,
)
    requires
        addrs@.len() > 0,
        call_ensures(Resolving::resolved, (attempt, addrs), Ok(dialing)),
        call_ensures(Dialing::dialed, (dialing,), Ok(dialed)),
        match dialed {
            Dialed::Open(opened) => info == opened,
            Dialed::Secure(handshaking) => call_ensures(
                Handshaking::secured,
                (&handshaking,),
                info,
            ),
        },
    ensures
        dialed is Secure <==> (attempt.destination.scheme matches Some(scheme) && scheme@ == seq![
            'h',
            't',
            't',
            'p',
            's',
        ]),
        dialed matches Dialed::Secure(handshaking) ==> {
            &&& handshaking.handshake is Rustls <==> attempt.connector.tls == TlsBackend::Rustls
            &&& handshaking.handshake is Native <==> attempt.connector.tls == TlsBackend::Native
            &&& handshaking.handshake matches Handshake::Native { domain, accept_invalid_certs }
                ==> attempt.destination.host.deep_view() == Some(domain@) && accept_invalid_certs
            &&& handshaking.handshake matches Handshake::Rustls { name }
                ==> attempt.destination.host.deep_view() == Some(name@.host) && name@.name
                == crate::tls::tls_server_name(name@.host)
        },
        !info.is_proxy,
        info.tls_info <==> dialed is Secure && attempt.connector.tls_info,
{
    crate::destination::https_goes_by_the_scheme_of(attempt.destination);
}

/// However the handshake was done, the connection over it is not one to a proxy, and it reports on
/// the session exactly when that was asked for.
pub proof fn secured_connection_presents_itself(handshaking: Handshaking, r: ConnInfo)
    requires
        call_ensures(Handshaking::secured, (&handshaking,), r),
    ensures
        !r.is_proxy,
        r.tls_info == handshaking.tls_info,
{
}

/// With the name at hand, the handshake is done under it, and a fault found with the name is passed
/// on.
pub proof fn name_is_handed_to_the_handshake(
    dialing: Dialing,
    name: Result<TlsName, String>,
    r: Result<Dialed, ConnectError>,
)
    requires
        call_ensures(Dialing::named, (dialing, name), r),
    ensures
        name matches Err(fault) ==> (r matches Err(ConnectError::ServerName(given)) && given@
            == fault@),
        name matches Ok(made) ==> (r matches Ok(Dialed::Secure(next)) && next.tls_info
            == dialing.connector.tls_info && (next.handshake matches Handshake::Rustls {
            name: given,
        } && given == made)),
{
}

} // verus!
