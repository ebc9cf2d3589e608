use ss_connect::auth::{
    pad_username, parse_proxy_auth, read_credentials, read_credentials_bytes, AuthError,
};
use ss_connect::base64_text::decode;
use ss_connect::cipher::CipherKind;
use ss_connect::proxy_url::ProxyUrl;

fn auth(username: &str) -> Result<(CipherKind, String), AuthError> {
    parse_proxy_auth(&ProxyUrl {
        serialization: String::from("ss://example.com"),
        username: username.to_string(),
        host: Some(String::from("example.com")),
        port: None,
        fragment: None,
    })
}

fn message(username: &str) -> String {
    auth(username).unwrap_err().message()
}

#[test]
fn credentials_come_back_with_and_without_padding() {
    let expected = Ok((CipherKind::NONE, "pw".to_string()));
    assert_eq!(auth("bm9uZTpwdw=="), expected);
    assert_eq!(auth("bm9uZTpwdw="), expected);
    assert_eq!(auth("bm9uZTpwdw"), expected);
}

#[test]
fn password_keeps_its_colons() {
    assert_eq!(
        auth("YWVzLTI1Ni1nY206cGFzczp3b3Jk"),
        Ok((CipherKind::AES_256_GCM, "pass:word".to_string()))
    );
}

#[test]
fn password_may_be_empty() {
    assert_eq!(
        auth("Y2hhY2hhMjAtaWV0Zi1wb2x5MTMwNTo"),
        Ok((CipherKind::CHACHA20_POLY1305, String::new()))
    );
    assert_eq!(auth("cGxhaW46"), Ok((CipherKind::NONE, String::new())));
}

#[test]
fn password_may_be_outside_ascii() {
    assert_eq!(
        auth("YWVzLTEyOC1nY206cMOkc3N3w7ZyZA"),
        Ok((CipherKind::AES_128_GCM, "p\u{e4}ssw\u{f6}rd".to_string()))
    );
}

#[test]
fn cipher_name_ignores_case() {
    assert_eq!(
        auth("QUVTLTEyOC1HQ006c2VjcmV0"),
        Ok((CipherKind::AES_128_GCM, "secret".to_string()))
    );
}

#[test]
fn empty_username_is_refused() {
    assert_eq!(auth(""), Err(AuthError::EmptyUsername));
    assert_eq!(message(""), "proxy auth username is empty");
}

#[test]
fn username_outside_base64_is_refused() {
    assert_eq!(
        auth("bm9uZTpw!w"),
        Err(AuthError::InvalidBase64("Invalid symbol 33, offset 8.".to_string()))
    );
    assert_eq!(
        message("bm9uZTpw!w"),
        "proxy auth username is not valid base64: Invalid symbol 33, offset 8."
    );
    assert!(matches!(auth("bm9uZ"), Err(AuthError::InvalidBase64(_))));
    assert!(matches!(auth("\u{e4}\u{e4}"), Err(AuthError::InvalidBase64(_))));
}

#[test]
fn username_outside_utf8_is_refused() {
    assert_eq!(
        auth("//46YQ"),
        Err(AuthError::InvalidUtf8(
            "invalid utf-8 sequence of 1 bytes from index 0".to_string()
        ))
    );
    assert_eq!(
        message("//46YQ"),
        "decoded proxy auth is not valid utf-8: invalid utf-8 sequence of 1 bytes from index 0"
    );
}

#[test]
fn username_without_a_colon_is_refused() {
    assert_eq!(
        auth("bm8gc2VwYXJhdG9y"),
        Err(AuthError::MissingSeparator("no separator".to_string()))
    );
    assert_eq!(
        message("bm8gc2VwYXJhdG9y"),
        "invalid decoded proxy auth format, expected 'cipher:password', got: no separator"
    );
}

#[test]
fn unknown_cipher_is_refused() {
    assert_eq!(
        auth("cm90MTM6eA"),
        Err(AuthError::InvalidCipher(
            "rot13".to_string(),
            "invalid CipherKind".to_string()
        ))
    );
    assert_eq!(message("cm90MTM6eA"), "invalid cipher 'rot13': invalid CipherKind");
}

#[test]
fn every_cipher_has_its_name() {
    let names = [
        ("none", CipherKind::NONE),
        ("plain", CipherKind::NONE),
        ("aes-128-gcm", CipherKind::AES_128_GCM),
        ("aes-256-gcm", CipherKind::AES_256_GCM),
        ("chacha20-ietf-poly1305", CipherKind::CHACHA20_POLY1305),
        ("2022-blake3-aes-128-gcm", CipherKind::AEAD2022_BLAKE3_AES_128_GCM),
        ("2022-blake3-aes-256-gcm", CipherKind::AEAD2022_BLAKE3_AES_256_GCM),
        ("2022-blake3-chacha20-poly1305", CipherKind::AEAD2022_BLAKE3_CHACHA20_POLY1305),
    ];
    for (name, kind) in names {
        assert_eq!(CipherKind::parse(name), Ok(kind));
        assert_eq!(CipherKind::parse(&name.to_uppercase()), Ok(kind));
        assert_eq!(read_credentials(&format!("{}:x", name)), Ok((kind, "x".to_string())));
    }
    assert_eq!(CipherKind::parse(""), Err("invalid CipherKind".to_string()));
    assert_eq!(CipherKind::parse("none "), Err("invalid CipherKind".to_string()));
    assert_eq!(
        CipherKind::parse("\u{ff41}es-128-gcm"),
        Err("invalid CipherKind".to_string())
    );
}

#[test]
fn padding_fills_groups_of_four() {
    assert_eq!(pad_username("abcd"), b"abcd".to_vec());
    assert_eq!(pad_username("abc"), b"abc=".to_vec());
    assert_eq!(pad_username("ab"), b"ab==".to_vec());
    assert_eq!(pad_username("a"), b"a===".to_vec());
    assert_eq!(pad_username(""), b"".to_vec());
}

#[test]
fn decoding_takes_canonical_text_only() {
    assert_eq!(decode(b""), Ok(vec![]));
    assert_eq!(decode(b"+/8="), Ok(vec![0xfb, 0xff]));
    assert_eq!(decode(b"AAECAw=="), Ok(vec![0, 1, 2, 3]));
    assert_eq!(decode(b"AAECAx=="), Err("Invalid last symbol 120, offset 5.".to_string()));
    assert_eq!(decode(b"AAECAw"), Err("Invalid padding".to_string()));
    assert_eq!(decode(b"AAECAw==="), Err("Invalid symbol 61, offset 6.".to_string()));
    assert_eq!(decode(b"AA=="), Ok(vec![0]));
    assert!(decode(b"A===").is_err());
    assert!(decode(b"=AAA").is_err());
    assert!(decode(b"AA==AAAA").is_err());
    assert!(decode(b"AA_-").is_err());
    assert!(decode(b"AAAA\n").is_err());
}

#[test]
fn decoding_gives_every_byte_back() {
    let alphabet = b"ABCDEFGHIJKLMNOPQRSTUVWXYZabcdefghijklmnopqrstuvwxyz0123456789+/";
    for b in 0..=255u8 {
        let text = [
            alphabet[(b / 4) as usize],
            alphabet[(b % 4 * 16) as usize],
            b'=',
            b'=',
        ];
        assert_eq!(decode(&text), Ok(vec![b]));
    }
}

#[test]
fn decoded_bytes_are_read_as_text() {
    assert_eq!(
        read_credentials_bytes(b"none:pw".to_vec()),
        Ok((CipherKind::NONE, "pw".to_string()))
    );
    assert!(matches!(
        read_credentials_bytes(vec![b'n', 0x80]),
        Err(AuthError::InvalidUtf8(_))
    ));
}
