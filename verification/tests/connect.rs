use shadowsocks::config::ServerAddr;
use ss_connect::auth::AuthError;
use ss_connect::cipher::CipherKind;
use ss_connect::connect::{
    ConnInfo, ConnectError, Connector, Dialed, Dialing, Handshake, Resolving, TlsBackend,
};
use ss_connect::destination::{Destination, Target};
use ss_connect::proxy_url::ProxyUrl;
use ss_connect::server::Server;

const NATIVE: Connector = Connector { tls: TlsBackend::Native, tls_info: true };
const RUSTLS: Connector = Connector { tls: TlsBackend::Rustls, tls_info: true };
const URL: &str = "ss://YWVzLTEyOC1nY206cGFzcw@127.0.0.1:8388#My%20proxy";

fn destination(text: &str) -> Destination {
    let uri: http::Uri = text.parse().unwrap();
    Destination {
        scheme: uri.scheme_str().map(str::to_owned),
        host: uri.host().map(str::to_owned),
        port: uri.port_u16(),
    }
}

fn addr(text: &str) -> ServerAddr {
    text.parse().unwrap()
}

fn dialing(connector: Connector, dst: &str) -> Result<Dialing, ConnectError> {
    Resolving::begin(connector, Some(URL), "ss://127.0.0.1:8388", destination(dst))?
        .resolved(vec![addr("127.0.0.1:8388"), addr("127.0.0.2:8388")])
}

fn error<T>(r: Result<T, ConnectError>) -> ConnectError {
    match r {
        Ok(_) => panic!("an error was expected"),
        Err(e) => e,
    }
}

#[test]
fn an_attempt_starts_with_the_credentials_of_the_url() {
    let destination = destination("http://example.org/");
    let attempt = Resolving::begin(NATIVE, Some(URL), "http://other", destination).ok().unwrap();
    assert_eq!(attempt.connector, NATIVE);
    assert_eq!(attempt.url.serialization, URL);
    assert_eq!(attempt.url.username, "YWVzLTEyOC1nY206cGFzcw");
    assert_eq!(attempt.cipher, CipherKind::AES_128_GCM);
    assert_eq!(attempt.password, "pass");
    assert_eq!(attempt.destination.host, Some("example.org".to_string()));
}

#[test]
fn a_url_gives_the_credentials_that_it_was_made_from() {
    let url = "ss://bm9uZTpwdw@host:1#me@home";
    let attempt =
        Resolving::begin(NATIVE, Some(url), "", destination("http://example.org/")).ok().unwrap();
    assert_eq!(attempt.cipher, CipherKind::NONE);
    assert_eq!(attempt.password, "pw");
    let url = "ss://bm9uZTpwdw@host:port";
    let begun = Resolving::begin(NATIVE, Some(url), "", destination("http://example.org/"));
    assert_eq!(error(begun), ConnectError::ProxyUrl("invalid port number".to_string()));
}

#[test]
fn the_uri_stands_in_for_a_missing_url() {
    let destination = destination("http://example.org/");
    let attempt = Resolving::begin(NATIVE, None, "ss://bm9uZTpwdw@host:1", destination).ok().unwrap();
    assert_eq!(attempt.cipher, CipherKind::NONE);
    assert_eq!(attempt.password, "pw");
    assert_eq!(attempt.url.host, Some("host".to_string()));
}

#[test]
fn a_plain_username_comes_out_of_a_url_as_it_went_in() {
    for rest in ["host:1", "[::1]:2#name", "host", "h:3/path?query", "h#me@home", "h/@", "h?a@b"] {
        let url = ProxyUrl::parse(&format!("ss://aZ09+x@{}", rest)).unwrap();
        assert_eq!(url.username, "aZ09+x");
    }
    let url = ProxyUrl::parse("ss://aZ09+x@user@host").unwrap();
    assert_eq!(url.username, "aZ09+x%40user");
}

#[test]
fn a_malformed_url_is_refused() {
    let destination = destination("http://example.org/");
    let e = error(Resolving::begin(NATIVE, None, "no url", destination));
    assert_eq!(e, ConnectError::ProxyUrl("relative URL without a base".to_string()));
    assert_eq!(e.message(), "relative URL without a base");
}

#[test]
fn a_url_without_credentials_is_refused() {
    let destination = destination("http://example.org/");
    let e = error(Resolving::begin(NATIVE, None, "ss://127.0.0.1:8388", destination));
    assert_eq!(e, ConnectError::Auth(AuthError::EmptyUsername));
    assert_eq!(e.message(), "proxy auth username is empty");
}

#[test]
fn padding_inside_a_url_is_percent_encoded_and_no_base64() {
    let url = ProxyUrl::parse("ss://bm9uZTpwdw==@host:1").unwrap();
    assert_eq!(url.username, "bm9uZTpwdw%3D%3D");
    let destination = destination("http://example.org/");
    assert!(matches!(
        error(Resolving::start(NATIVE, url, destination)),
        ConnectError::Auth(AuthError::InvalidBase64(_))
    ));
}

#[test]
fn the_first_address_is_dialed_with_the_derived_key() {
    let attempt = dialing(NATIVE, "http://example.org:8080/x").ok().unwrap();
    assert_eq!(attempt.server.addr(), &addr("127.0.0.1:8388"));
    assert_eq!(attempt.server.method(), CipherKind::AES_128_GCM);
    assert_eq!(attempt.server.password(), "pass");
    assert_eq!(attempt.server.user_password(), "pass");
    assert_eq!(
        attempt.server.key(),
        vec![26, 29, 201, 28, 144, 115, 37, 198, 146, 113, 221, 240, 201, 68, 188, 114]
    );
    assert_eq!(attempt.server.identity_keys(), &Vec::<Vec<u8>>::new());
    assert_eq!(attempt.server.settings().addr(), attempt.server.addr());
    assert_eq!(attempt.server.settings().password(), "pass");
    assert_eq!(attempt.server.settings().key(), attempt.server.key());
    assert_eq!(
        attempt.server.settings().method(),
        shadowsocks::crypto::CipherKind::AES_128_GCM
    );
    assert_eq!(attempt.target, Target { host: "example.org".to_string(), port: 8080 });
    assert!(!attempt.secure);
}

#[test]
fn every_method_configures_its_own_kind() {
    let long = "MDEyMzQ1Njc4OWFiY2RlZjAxMjM0NTY3ODlhYmNkZWY=";
    let kinds = [
        (CipherKind::NONE, "pw", "none", 0),
        (CipherKind::AES_128_GCM, "pw", "aes-128-gcm", 16),
        (CipherKind::AES_256_GCM, "pw", "aes-256-gcm", 32),
        (CipherKind::CHACHA20_POLY1305, "pw", "chacha20-ietf-poly1305", 32),
        (
            CipherKind::AEAD2022_BLAKE3_AES_128_GCM,
            "MDEyMzQ1Njc4OWFiY2RlZg==",
            "2022-blake3-aes-128-gcm",
            16,
        ),
        (CipherKind::AEAD2022_BLAKE3_AES_256_GCM, long, "2022-blake3-aes-256-gcm", 32),
        (CipherKind::AEAD2022_BLAKE3_CHACHA20_POLY1305, long, "2022-blake3-chacha20-poly1305", 32),
    ];
    for (kind, password, name, key_len) in kinds {
        let server = Server::new(addr("example.com:1"), password, kind).ok().unwrap();
        assert_eq!(server.settings().method().to_string(), name);
        assert_eq!(server.method(), kind);
        assert_eq!(server.password(), password);
        assert_eq!(server.user_password(), password);
        assert!(server.identity_keys().is_empty());
        assert_eq!(server.key().len(), key_len);
    }
}

#[test]
fn a_key_password_is_split_into_identity_keys() {
    let server = Server::new(
        addr("example.com:1"),
        "ZmVkY2JhOTg3NjU0MzIxMA==:MDEyMzQ1Njc4OWFiY2RlZg==",
        CipherKind::AEAD2022_BLAKE3_AES_128_GCM,
    )
    .ok()
    .unwrap();
    assert_eq!(server.password(), "ZmVkY2JhOTg3NjU0MzIxMA==:MDEyMzQ1Njc4OWFiY2RlZg==");
    assert_eq!(server.user_password(), "MDEyMzQ1Njc4OWFiY2RlZg==");
    assert_eq!(server.key(), b"0123456789abcdef");
    assert_eq!(server.identity_keys(), &vec![b"fedcba9876543210".to_vec()]);
}

#[test]
fn a_password_that_is_no_key_is_refused() {
    let destination = destination("http://example.org/");
    let url = "ss://MjAyMi1ibGFrZTMtYWVzLTEyOC1nY206bm9wZSE@127.0.0.1:8388";
    let attempt = Resolving::begin(NATIVE, Some(url), "", destination).ok().unwrap();
    let e = error(attempt.resolved(vec![addr("127.0.0.1:8388")]));
    let text = "invalid key encoding for 2022-blake3-aes-128-gcm, Invalid symbol 33, offset 4.";
    assert_eq!(e, ConnectError::Server(text.to_string()));
    assert_eq!(e.message(), text);
}

#[test]
fn a_destination_without_a_host_is_refused() {
    let e = error(dialing(NATIVE, "/relative"));
    assert_eq!(e, ConnectError::NoHost);
    assert_eq!(e.message(), "no host in url");
}

#[test]
fn a_faulty_server_comes_before_a_missing_host() {
    let destination = Destination { scheme: None, host: None, port: None };
    let attempt = Resolving::begin(NATIVE, Some(URL), "", destination).ok().unwrap();
    let e = error(attempt.configured(Err("broken".to_string())));
    assert_eq!(e, ConnectError::Server("broken".to_string()));
}

#[test]
fn ports_default_by_scheme() {
    let port = |text: &str| destination(text).port_or_default();
    assert_eq!(port("https://example.org/"), 443);
    assert_eq!(port("HTTPS://example.org/"), 443);
    assert_eq!(port("http://example.org/"), 80);
    assert_eq!(port("ws://example.org/"), 80);
    assert_eq!(port("example.org"), 80);
    assert_eq!(port("https://example.org:8443/"), 8443);
    assert_eq!(port("http://example.org:1/"), 1);
}

#[test]
fn destinations_give_their_target() {
    assert_eq!(
        destination("https://user@example.org:8443/path?q").target(),
        Some(Target { host: "example.org".to_string(), port: 8443 })
    );
    assert_eq!(
        destination("https://[::1]/").target(),
        Some(Target { host: "[::1]".to_string(), port: 443 })
    );
    assert_eq!(destination("/").target(), None);
    assert!(destination("https://example.org/").is_https());
    assert!(!destination("http://example.org/").is_https());
    assert!(!destination("/").is_https());
}

#[test]
fn a_plain_stream_is_the_connection() {
    let next = dialing(NATIVE, "http://example.org/").ok().unwrap().dialed();
    match next {
        Ok(Dialed::Open(info)) => {
            assert_eq!(info, ConnInfo { is_proxy: false, tls_info: false })
        }
        _ => panic!("no handshake was expected"),
    }
}

#[test]
fn native_tls_takes_the_host_as_it_is() {
    let attempt = dialing(NATIVE, "https://[::1]/").ok().unwrap();
    assert!(attempt.secure);
    assert_eq!(attempt.target.port, 443);
    match attempt.dialed() {
        Ok(Dialed::Secure(next)) => {
            assert_eq!(next.secured(), ConnInfo { is_proxy: false, tls_info: true });
            match next.handshake {
                Handshake::Native { domain, accept_invalid_certs } => {
                    assert_eq!(domain, "[::1]");
                    assert!(accept_invalid_certs);
                }
                Handshake::Rustls { .. } => panic!("a native handshake was expected"),
            }
        }
        _ => panic!("a handshake was expected"),
    }
}

#[test]
fn rustls_takes_a_valid_name() {
    let attempt = dialing(RUSTLS, "https://example.org/").ok().unwrap();
    match attempt.dialed() {
        Ok(Dialed::Secure(next)) => {
            assert_eq!(next.secured(), ConnInfo { is_proxy: false, tls_info: true });
            match next.handshake {
                Handshake::Rustls { name } => {
                    assert_eq!(name.host(), "example.org");
                    assert_eq!(name.text(), "example.org");
                    assert_eq!(name.name().to_str(), "example.org");
                }
                Handshake::Native { .. } => panic!("a rustls handshake was expected"),
            }
        }
        _ => panic!("a handshake was expected"),
    }
}

#[test]
fn rustls_refuses_an_invalid_name() {
    let attempt = dialing(RUSTLS, "https://[::1]/").ok().unwrap();
    let e = error(attempt.dialed());
    assert_eq!(e, ConnectError::ServerName("invalid dns name".to_string()));
    assert_eq!(e.message(), "invalid dns name");
    let attempt = dialing(RUSTLS, "https://example.org/").ok().unwrap();
    let e = error(attempt.named(Err("refused".to_string())));
    assert_eq!(e, ConnectError::ServerName("refused".to_string()));
}

#[test]
fn tls_info_goes_by_the_connector() {
    let quiet = Connector { tls: TlsBackend::Native, tls_info: false };
    match dialing(quiet, "https://example.org/").ok().unwrap().dialed() {
        Ok(Dialed::Secure(next)) => {
            assert_eq!(next.secured(), ConnInfo { is_proxy: false, tls_info: false })
        }
        _ => panic!("a handshake was expected"),
    }
}

#[test]
fn labels_leave_the_credentials_out() {
    let label = ProxyUrl::parse(URL).unwrap().label();
    assert_eq!(label.server, "127.0.0.1");
    assert_eq!(label.port, 8388);
    assert_eq!(label.name, "My proxy");
    let label = ProxyUrl::parse("ss:opaque").unwrap().label();
    assert_eq!(label.server, "unknown");
    assert_eq!(label.port, 0);
    assert_eq!(label.name, "");
    let label = ProxyUrl::parse("ss://h#%E4%B8%AD%FF").unwrap().label();
    assert_eq!(label.name, "\u{4e2d}\u{fffd}");
}
