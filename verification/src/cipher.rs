//! The ciphers that a Shadowsocks server can be reached with.
use shadowsocks::crypto::CipherKind as SsCipherKind;
use vstd::prelude::*;

verus! {

/// A Shadowsocks encryption method.
#[derive(Clone, Copy, Debug, PartialEq, Eq, Structural)]
#[allow(non_camel_case_types)]
pub enum CipherKind {
    /// No encryption.
    NONE,
    AES_128_GCM,
    AES_256_GCM,
    CHACHA20_POLY1305,
    AEAD2022_BLAKE3_AES_128_GCM,
    AEAD2022_BLAKE3_AES_256_GCM,
    AEAD2022_BLAKE3_CHACHA20_POLY1305,
}

/// `name` with `A` to `Z` put in lower case.
pub open spec fn ascii_lower(name: Seq<char>) -> Seq<char> {
    name.map_values(
        |c: char|
            if 'A' <= c && c <= 'Z' {
                (c as u32 + 32) as char
            } else {
                c
            },
    )
}

/// The method whose lower-case spelling is `name`.
pub open spec fn cipher_spelled(name: Seq<char>) -> Option<CipherKind> {
    if name == "plain"@ || name == "none"@ {
        Some(CipherKind::NONE)
    } else if name == "aes-128-gcm"@ {
        Some(CipherKind::AES_128_GCM)
    } else if name == "aes-256-gcm"@ {
        Some(CipherKind::AES_256_GCM)
    } else if name == "chacha20-ietf-poly1305"@ {
        Some(CipherKind::CHACHA20_POLY1305)
    } else if name == "2022-blake3-aes-128-gcm"@ {
        Some(CipherKind::AEAD2022_BLAKE3_AES_128_GCM)
    } else if name == "2022-blake3-aes-256-gcm"@ {
        Some(CipherKind::AEAD2022_BLAKE3_AES_256_GCM)
    } else if name == "2022-blake3-chacha20-poly1305"@ {
        Some(CipherKind::AEAD2022_BLAKE3_CHACHA20_POLY1305)
    } else {
        None
    }
}

/// The method that the `shadowsocks` crate reads from a name with characters outside ASCII, whose
/// lower case goes by the Unicode tables.
pub uninterp spec fn cipher_of_non_ascii(name: Seq<char>) -> Option<CipherKind>;

/// The method that `name` names, in any mixture of cases.
pub open spec fn cipher_kind(name: Seq<char>) -> Option<CipherKind> {
    if vstd::utf8::is_ascii_chars(name) {
        cipher_spelled(ascii_lower(name))
    } else {
        cipher_of_non_ascii(name)
    }
}

/// What is said of a name that names no method.
pub open spec fn cipher_fault() -> Seq<char> {
    "invalid CipherKind"@
}

/// `shadowsocks::crypto::CipherKind::from_str`.
///
/// Trusted: the crate puts the name in lower case and looks it up among the spellings of
/// [`cipher_spelled`]; what it does with a name outside ASCII is only said to depend on the name.
/// Its error has a single display form.
#[verifier::external_body]
fn ss_cipher_from_str(name: &str) -> (r: Result<CipherKind, String>)
    ensures
        vstd::utf8::is_ascii_chars(name@) ==> r.ok() == cipher_spelled(ascii_lower(name@)),
        !vstd::utf8::is_ascii_chars(name@) ==> r.ok() == cipher_of_non_ascii(name@),
        r matches Err(fault) ==> fault@ == "invalid CipherKind"@,
{
    match name.parse::<SsCipherKind>() {
        Ok(SsCipherKind::NONE) => Ok(CipherKind::NONE),
        Ok(SsCipherKind::AES_128_GCM) => Ok(CipherKind::AES_128_GCM),
        Ok(SsCipherKind::AES_256_GCM) => Ok(CipherKind::AES_256_GCM),
        Ok(SsCipherKind::CHACHA20_POLY1305) => Ok(CipherKind::CHACHA20_POLY1305),
        Ok(SsCipherKind::AEAD2022_BLAKE3_AES_128_GCM) => Ok(CipherKind::AEAD2022_BLAKE3_AES_128_GCM),
        Ok(SsCipherKind::AEAD2022_BLAKE3_AES_256_GCM) => Ok(CipherKind::AEAD2022_BLAKE3_AES_256_GCM),
        Ok(SsCipherKind::AEAD2022_BLAKE3_CHACHA20_POLY1305) => Ok(
            CipherKind::AEAD2022_BLAKE3_CHACHA20_POLY1305,
        ),
        Err(e) => Err(e.to_string()),
    }
}

impl CipherKind {
    /// Reads the name of a method, as in `aes-256-gcm`. Upper and lower case are the same.
    pub fn parse(name: &str) -> (r: Result<CipherKind, String>)
        ensures
            match r {
                Ok(kind) => cipher_kind(name@) == Some(kind),
                Err(fault) => cipher_kind(name@) is None && fault@ == cipher_fault(),
            },
    {
        ss_cipher_from_str(name)
    }
}

/// The customary name of a method.
pub open spec fn cipher_name(kind: CipherKind) -> Seq<char> {
    match kind {
        CipherKind::NONE => "none"@,
        CipherKind::AES_128_GCM => "aes-128-gcm"@,
        CipherKind::AES_256_GCM => "aes-256-gcm"@,
        CipherKind::CHACHA20_POLY1305 => "chacha20-ietf-poly1305"@,
        CipherKind::AEAD2022_BLAKE3_AES_128_GCM => "2022-blake3-aes-128-gcm"@,
        CipherKind::AEAD2022_BLAKE3_AES_256_GCM => "2022-blake3-aes-256-gcm"@,
        CipherKind::AEAD2022_BLAKE3_CHACHA20_POLY1305 => "2022-blake3-chacha20-poly1305"@,
    }
}

/// Every method has a name that reads back as the method, and that no colon cuts short.
pub proof fn cipher_name_round_trip(kind: CipherKind)
    ensures
        cipher_kind(cipher_name(kind)) == Some(kind),
        !cipher_name(kind).contains(':'),
{
    reveal_strlit("plain");
    reveal_strlit("none");
    reveal_strlit("aes-128-gcm");
    reveal_strlit("aes-256-gcm");
    reveal_strlit("chacha20-ietf-poly1305");
    reveal_strlit("2022-blake3-aes-128-gcm");
    reveal_strlit("2022-blake3-aes-256-gcm");
    reveal_strlit("2022-blake3-chacha20-poly1305");
    let name = cipher_name(kind);
    assert(vstd::utf8::is_ascii_chars(name));
    assert(ascii_lower(name) =~= name);
    if kind == CipherKind::AES_256_GCM {
        assert(name[4] != "aes-128-gcm"@[4]);
    }
    if kind == CipherKind::AEAD2022_BLAKE3_AES_256_GCM {
        assert(name[16] != "2022-blake3-aes-128-gcm"@[16]);
    }
}

/// A name in ASCII names a method exactly when, with its capitals put in lower case, it is one of
/// these eight spellings, and then it names that method. Every other one is refused with the same
/// words.
pub proof fn spellings_in_any_case(name: &str, lower: Seq<char>, r: Result<CipherKind, String>)
    requires
        call_ensures(CipherKind::parse, (name,), r),
        vstd::utf8::is_ascii_chars(name@),
        lower.len() == name@.len(),
        forall|i: int|
            0 <= i < name@.len() ==> (if 'A' <= name@[i] && name@[i] <= 'Z' {
                #[trigger] lower[i] as int == name@[i] as int + 32
            } else {
                lower[i] == name@[i]
            }),
    ensures
        r == Ok::<CipherKind, String>(CipherKind::NONE) <==> lower == "none"@ || lower == "plain"@,
        r == Ok::<CipherKind, String>(CipherKind::AES_128_GCM) <==> lower == "aes-128-gcm"@,
        r == Ok::<CipherKind, String>(CipherKind::AES_256_GCM) <==> lower == "aes-256-gcm"@,
        r == Ok::<CipherKind, String>(CipherKind::CHACHA20_POLY1305) <==> lower
            == "chacha20-ietf-poly1305"@,
        r == Ok::<CipherKind, String>(CipherKind::AEAD2022_BLAKE3_AES_128_GCM) <==> lower
            == "2022-blake3-aes-128-gcm"@,
        r == Ok::<CipherKind, String>(CipherKind::AEAD2022_BLAKE3_AES_256_GCM) <==> lower
            == "2022-blake3-aes-256-gcm"@,
        r == Ok::<CipherKind, String>(CipherKind::AEAD2022_BLAKE3_CHACHA20_POLY1305) <==> lower
            == "2022-blake3-chacha20-poly1305"@,
        r matches Err(fault) ==> fault@ == "invalid CipherKind"@,
        r.ok() == cipher_kind(name@),
{
    assert forall|i: int| 0 <= i < name@.len() implies ascii_lower(name@)[i] == lower[i] by {}
    assert(ascii_lower(name@) =~= lower);
    lemma_spellings_differ();
}

/// Two names in ASCII that differ in case alone name the same method, or are both refused.
pub proof fn case_does_not_matter(
    one: &str,
    other: &str,
    r: Result<CipherKind, String>,
    s: Result<CipherKind, String>,
)
    requires
        call_ensures(CipherKind::parse, (one,), r),
        call_ensures(CipherKind::parse, (other,), s),
        vstd::utf8::is_ascii_chars(one@),
        vstd::utf8::is_ascii_chars(other@),
        one@.len() == other@.len(),
        forall|i: int|
            0 <= i < one@.len() ==> {
                let c = #[trigger] one@[i];
                let d = other@[i];
                ||| c == d
                ||| 'A' <= c && c <= 'Z' && d as int == c as int + 32
                ||| 'A' <= d && d <= 'Z' && c as int == d as int + 32
            },
    ensures
        r.ok() == s.ok(),
{
    assert(ascii_lower(one@) =~= ascii_lower(other@));
}

proof fn lemma_spellings_differ()
    ensures
        "plain"@.len() == 5,
        "none"@.len() == 4,
        "aes-128-gcm"@.len() == 11,
        "aes-256-gcm"@.len() == 11,
        "aes-128-gcm"@ != "aes-256-gcm"@,
        "chacha20-ietf-poly1305"@.len() == 22,
        "2022-blake3-aes-128-gcm"@.len() == 23,
        "2022-blake3-aes-256-gcm"@.len() == 23,
        "2022-blake3-aes-128-gcm"@ != "2022-blake3-aes-256-gcm"@,
        "2022-blake3-chacha20-poly1305"@.len() == 29,
{
    reveal_strlit("plain");
    reveal_strlit("none");
    reveal_strlit("aes-128-gcm");
    reveal_strlit("aes-256-gcm");
    reveal_strlit("chacha20-ietf-poly1305");
    reveal_strlit("2022-blake3-aes-128-gcm");
    reveal_strlit("2022-blake3-aes-256-gcm");
    reveal_strlit("2022-blake3-chacha20-poly1305");
    assert("aes-128-gcm"@[4] != "aes-256-gcm"@[4]);
    assert("2022-blake3-aes-128-gcm"@[16] != "2022-blake3-aes-256-gcm"@[16]);
}

/// What a name outside ASCII names is for the `shadowsocks` crate to say.
pub proof fn names_outside_ascii(name: &str, r: Result<CipherKind, String>)
    requires
        call_ensures(CipherKind::parse, (name,), r),
        !vstd::utf8::is_ascii_chars(name@),
    ensures
        r.ok() == cipher_of_non_ascii(name@),
        r matches Err(fault) ==> fault@ == "invalid CipherKind"@,
        r.ok() == cipher_kind(name@),
{
}

} // verus!
