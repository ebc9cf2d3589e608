//! What is known of a connection's TLS session.
use rustls_pki_types::ServerName;
use vstd::prelude::*;

verus! {

/// The name that a TLS server is verified against, as `rustls` holds it.
#[verifier::external_type_specification]
#[verifier::external_body]
pub struct ExServerName<'a>(rustls_pki_types::ServerName<'a>);

/// The writing of the name that `rustls_pki_types::ServerName` makes of `host`, where it makes one.
pub uninterp spec fn tls_name_of(host: Seq<char>) -> Option<Seq<char>>;

/// The name that `rustls_pki_types::ServerName` makes of `host`, where it makes one.
pub uninterp spec fn tls_server_name(host: Seq<char>) -> ServerName<'static>;

/// What is said of a host that is neither a DNS name nor an IP address.
pub open spec fn tls_name_fault() -> Seq<char> {
    "invalid dns name"@
}

/// `rustls_pki_types::ServerName::try_from` and `to_owned`, with the writing read by `to_str`.
///
/// Trusted: the name and its writing depend on the host alone, and the error has a single display
/// form.
#[verifier::external_body]
fn server_name_try_from(host: &str) -> (r: Result<(ServerName<'static>, String), String>)
    ensures
        match r {
            Ok((name, text)) => name == tls_server_name(host@) && tls_name_of(host@) == Some(text@),
            Err(fault) => tls_name_of(host@) is None && fault@ == "invalid dns name"@,
        },
{
    match ServerName::try_from(host) {
        Ok(name) => Ok((name.to_owned(), name.to_str().into_owned())),
        Err(e) => Err(e.to_string()),
    }
}

/// A name that a TLS server can be verified against: a DNS name or an IP address.
pub struct TlsName {
    name: ServerName<'static>,
    host: String,
    text: String,
}

/// The contents of a [`TlsName`].
pub struct TlsNameView {
    /// The name to hand to the handshake.
    pub name: ServerName<'static>,
    /// The host that is named.
    pub host: Seq<char>,
    /// The name in writing.
    pub text: Seq<char>,
}

impl TlsNameView {
    /// Whether the name and its writing are those of the host.
    pub open spec fn consistent(self) -> bool {
        self.name == tls_server_name(self.host) && tls_name_of(self.host) == Some(self.text)
    }
}

impl View for TlsName {
    type V = TlsNameView;

    closed spec fn view(&self) -> TlsNameView {
        TlsNameView { name: self.name, host: self.host@, text: self.text@ }
    }
}

impl TlsName {
    #[verifier::type_invariant]
    spec fn inv(self) -> bool {
        self@.consistent()
    }

    /// The name of the server at `host`.
    pub fn parse(host: &str) -> (r: Result<TlsName, String>)
        ensures
            match r {
                Ok(name) => name@.host == host@ && name@.consistent(),
                Err(fault) => tls_name_of(host@) is None && fault@ == tls_name_fault(),
            },
    {
        match server_name_try_from(host) {
            Ok((name, text)) => Ok(TlsName { name, host: host.to_owned(), text }),
            Err(fault) => Err(fault),
        }
    }

    /// The name to hand to the handshake.
    pub fn name(&self) -> (r: &ServerName<'static>)
        ensures
            *r == self@.name,
            *r == tls_server_name(self@.host),
    {
        proof {
            use_type_invariant(self);
        }
        &self.name
    }

    /// The host that is named.
    pub fn host(&self) -> (r: &str)
        ensures
            r@ == self@.host,
    {
        self.host.as_str()
    }

    /// The name in writing.
    pub fn text(&self) -> (r: &str)
        ensures
            r@ == self@.text,
    {
        self.text.as_str()
    }
}

/// The peer of a TLS session.
#[derive(Debug, PartialEq, Eq)]
pub struct TlsInfo {
    /// The peer's certificate in DER, where there is one.
    pub peer_certificate: Option<Vec<u8>>,
}

/// What is known of the peer of a `native-tls` session. `peer` is the certificate that the session
/// gives, where it gives one without an error, in its DER form, where that can be had. An error
/// counts as no certificate.
pub fn native_tls_info(peer: Result<Option<Result<Vec<u8>, ()>>, ()>) -> (r: Option<TlsInfo>)
    ensures
        match peer {
            Ok(Some(Ok(der))) => r == Some(TlsInfo { peer_certificate: Some(der) }),
            _ => r == Some(TlsInfo { peer_certificate: None }),
        },
{
    let peer_certificate = match peer {
        Ok(Some(Ok(der))) => Some(der),
        _ => None,
    };
    Some(TlsInfo { peer_certificate })
}

/// What is known of the peer of a `rustls` session, from the certificates that it sent, if any: the
/// first one is its own.
pub fn rustls_tls_info(chain: Option<Vec<Vec<u8>>>) -> (r: Option<TlsInfo>)
    ensures
        match chain {
            Some(certificates) if certificates@.len() > 0 => r == Some(
                TlsInfo { peer_certificate: Some(certificates@[0]) },
            ),
            _ => r == Some(TlsInfo { peer_certificate: None }),
        },
{
    let peer_certificate = match chain {
        Some(certificates) => {
            let mut certificates = certificates;
            if certificates.len() > 0 {
                Some(certificates.swap_remove(0))
            } else {
                None
            }
        },
        None => None,
    };
    Some(TlsInfo { peer_certificate })
}

/// Whether a session agreed on HTTP/2: `alpn` is the application protocol that was negotiated, if
/// any.
pub fn negotiated_h2(alpn: Option<&[u8]>) -> (r: bool)
    ensures
        r == (alpn matches Some(protocol) && protocol@ == seq![104u8, 50u8]),
{
    match alpn {
        Some(protocol) => {
            let r: bool = protocol.len() == 2 && protocol[0] == 104 && protocol[1] == 50;
            proof {
                if r {
                    assert(protocol@ =~= seq![104u8, 50u8]);
                }
            }
            r
        },
        None => false,
    }
}

/// A host has a name exactly when `rustls` makes one of it, and any other is refused with the same
/// words. A name gives out the host that it was made from, the name to hand to the handshake, and
/// that name in writing.
pub proof fn name_is_made_from_the_host(
    host: &str,
    r: Result<TlsName, String>,
    name: &ServerName<'static>,
    given_host: &str,
    text: &str,
)
    requires
        call_ensures(TlsName::parse, (host,), r),
        r matches Ok(made) ==> call_ensures(TlsName::name, (&made,), name) && call_ensures(
            TlsName::host,
            (&made,),
            given_host,
        ) && call_ensures(TlsName::text, (&made,), text),
    ensures
        r is Ok <==> tls_name_of(host@) is Some,
        r is Ok ==> *name == tls_server_name(host@) && given_host@ == host@ && tls_name_of(host@)
            == Some(text@),
        r matches Err(fault) ==> fault@ == "invalid dns name"@,
{
}

/// A `native-tls` session always has something to tell: the certificate in DER where one was given
/// and could be converted, and in every other case that there is none.
pub proof fn native_session_tells_its_certificate(
    peer: Result<Option<Result<Vec<u8>, ()>>, ()>,
    r: Option<TlsInfo>,
)
    requires
        call_ensures(native_tls_info, (peer,), r),
    ensures
        r is Some,
        r matches Some(info) ==> {
            &&& info.peer_certificate is Some <==> (peer matches Ok(Some(Ok(_))))
            &&& peer matches Ok(Some(Ok(der))) ==> info.peer_certificate == Some(der)
        },
{
}

/// A `rustls` session always has something to tell: the first certificate of the chain, and that
/// there is none exactly when the chain is empty or absent.
pub proof fn rustls_session_tells_its_first_certificate(
    chain: Option<Vec<Vec<u8>>>,
    r: Option<TlsInfo>,
)
    requires
        call_ensures(rustls_tls_info, (chain,), r),
    ensures
        r is Some,
        r matches Some(info) ==> {
            &&& info.peer_certificate is None <==> (chain matches Some(certificates)
                ==> certificates@.len() == 0)
            &&& info.peer_certificate matches Some(der) ==> (chain matches Some(certificates)
                && certificates@.len() > 0 && der == certificates@[0])
        },
{
}

/// HTTP/2 was agreed on exactly when the protocol is the two bytes `h2`.
pub proof fn h2_is_the_protocol(alpn: Option<&[u8]>, r: bool)
    requires
        call_ensures(negotiated_h2, (alpn,), r),
    ensures
        r <==> (alpn matches Some(protocol) && protocol@.len() == 2 && protocol@[0] == 'h' as u8
            && protocol@[1] == '2' as u8),
{
    match alpn {
        Some(protocol) => {
            if protocol@.len() == 2 && protocol@[0] == 'h' as u8 && protocol@[1] == '2' as u8 {
                assert(protocol@ =~= seq![104u8, 50u8]);
            }
        },
        None => {},
    }
}

} // verus!
