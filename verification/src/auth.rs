//! The credentials in a proxy URL: its user name is the base64 encoding of `cipher:password`.
use crate::base64_text;
use crate::cipher::CipherKind;
use crate::proxy_url::ProxyUrl;
use vstd::prelude::*;

verus! {

/// Why a user name holds no credentials.
#[derive(Debug, PartialEq, Eq)]
pub enum AuthError {
    /// There is no user name.
    EmptyUsername,
    /// The user name is not base64; with the decoder's description.
    InvalidBase64(String),
    /// The decoded bytes are not UTF-8; with the description of where.
    InvalidUtf8(String),
    /// The decoded text, given here, has no colon.
    MissingSeparator(String),
    /// What precedes the colon, given here, is no cipher; with the reason.
    InvalidCipher(String, String),
}

/// The contents of an [`AuthError`].
pub enum AuthErrorView {
    EmptyUsername,
    InvalidBase64(Seq<char>),
    InvalidUtf8(Seq<char>),
    MissingSeparator(Seq<char>),
    InvalidCipher(Seq<char>, Seq<char>),
}

impl View for AuthError {
    type V = AuthErrorView;

    open spec fn view(&self) -> AuthErrorView {
        match self {
            AuthError::EmptyUsername => AuthErrorView::EmptyUsername,
            AuthError::InvalidBase64(fault) => AuthErrorView::InvalidBase64(fault@),
            AuthError::InvalidUtf8(fault) => AuthErrorView::InvalidUtf8(fault@),
            AuthError::MissingSeparator(text) => AuthErrorView::MissingSeparator(text@),
            AuthError::InvalidCipher(name, fault) => AuthErrorView::InvalidCipher(name@, fault@),
        }
    }
}

impl AuthErrorView {
    /// The error in words.
    pub open spec fn message(self) -> Seq<char> {
        match self {
            AuthErrorView::EmptyUsername => "proxy auth username is empty"@,
            AuthErrorView::InvalidBase64(fault) => "proxy auth username is not valid base64: "@
                + fault,
            AuthErrorView::InvalidUtf8(fault) => "decoded proxy auth is not valid utf-8: "@ + fault,
            AuthErrorView::MissingSeparator(text) =>
            "invalid decoded proxy auth format, expected 'cipher:password', got: "@ + text,
            AuthErrorView::InvalidCipher(name, fault) => "invalid cipher '"@ + name + "': "@
                + fault,
        }
    }
}

impl AuthError {
    /// The error in words.
    pub fn message(&self) -> (r: String)
        ensures
            r@ == self@.message(),
    {
        match self {
            AuthError::EmptyUsername => "proxy auth username is empty".to_owned(),
            AuthError::InvalidBase64(fault) => {
                let mut text = "proxy auth username is not valid base64: ".to_owned();
                text.append(fault.as_str());
                text
            },
            AuthError::InvalidUtf8(fault) => {
                let mut text = "decoded proxy auth is not valid utf-8: ".to_owned();
                text.append(fault.as_str());
                text
            },
            AuthError::MissingSeparator(decoded) => {
                let mut text =
                    "invalid decoded proxy auth format, expected 'cipher:password', got: ".to_owned();
                text.append(decoded.as_str());
                text
            },
            AuthError::InvalidCipher(name, fault) => {
                let mut text = "invalid cipher '".to_owned();
                text.append(name.as_str());
                text.append("': ");
                text.append(fault.as_str());
                text
            },
        }
    }
}

/// How many padding characters bring `len` up to a multiple of four.
pub open spec fn pad_len(len: nat) -> nat {
    (4 - len % 4) as nat % 4
}

/// `text` with padding up to a multiple of four.
pub open spec fn padded(text: Seq<u8>) -> Seq<u8> {
    text + Seq::new(pad_len(text.len()), |i: int| base64_text::PAD)
}

/// Where the first colon stands in `text`, or the length of `text` if there is none.
pub open spec fn colon_index(text: Seq<char>) -> int
    decreases text.len(),
{
    if text.len() == 0 || text[0] == ':' {
        0
    } else {
        1 + colon_index(text.drop_first())
    }
}

/// The text before the first colon and the text behind it.
pub open spec fn colon_split(text: Seq<char>) -> Option<(Seq<char>, Seq<char>)> {
    let i = colon_index(text);
    if i < text.len() {
        Some((text.take(i), text.skip(i + 1)))
    } else {
        None
    }
}

/// The credentials in the text `cipher:password`. The password may hold further colons.
pub open spec fn credentials_in(text: Seq<char>) -> Result<
    (CipherKind, Seq<char>),
    AuthErrorView,
> {
    match colon_split(text) {
        None => Err(AuthErrorView::MissingSeparator(text)),
        Some((name, password)) => match crate::cipher::cipher_kind(name) {
            None => Err(AuthErrorView::InvalidCipher(name, crate::cipher::cipher_fault())),
            Some(kind) => Ok((kind, password)),
        },
    }
}

/// The description that `std::string::FromUtf8Error` gives of where `bytes` stop being UTF-8.
pub uninterp spec fn utf8_fault(bytes: Seq<u8>) -> Seq<char>;

/// The credentials in the UTF-8 bytes of `cipher:password`.
pub open spec fn credentials_in_bytes(bytes: Seq<u8>) -> Result<
    (CipherKind, Seq<char>),
    AuthErrorView,
> {
    if vstd::utf8::valid_utf8(bytes) {
        credentials_in(vstd::utf8::decode_utf8(bytes))
    } else {
        Err(AuthErrorView::InvalidUtf8(utf8_fault(bytes)))
    }
}

/// The credentials in a user name, which is the base64 encoding of `cipher:password`, with or
/// without its padding.
pub open spec fn credentials_of(username: Seq<char>) -> Result<
    (CipherKind, Seq<char>),
    AuthErrorView,
> {
    let text = padded(vstd::utf8::encode_utf8(username));
    if username.len() == 0 {
        Err(AuthErrorView::EmptyUsername)
    } else {
        match base64_text::base64_value(text) {
            None => Err(AuthErrorView::InvalidBase64(base64_text::base64_fault(text))),
            Some(bytes) => credentials_in_bytes(bytes),
        }
    }
}

/// Whether `r` is the outcome `spec`, up to how texts are held.
pub open spec fn same_credentials(
    r: Result<(CipherKind, String), AuthError>,
    spec_r: Result<(CipherKind, Seq<char>), AuthErrorView>,
) -> bool {
    match r {
        Ok((kind, password)) => spec_r == Ok::<(CipherKind, Seq<char>), AuthErrorView>(
            (kind, password@),
        ),
        Err(e) => spec_r == Err::<(CipherKind, Seq<char>), AuthErrorView>(e@),
    }
}

/// `String::from_utf8`.
///
/// Trusted: bytes are accepted exactly when they are valid UTF-8, and the string holds the
/// characters that they encode. The display form of the error depends on the bytes alone.
#[verifier::external_body]
fn string_from_utf8(bytes: Vec<u8>) -> (r: Result<String, String>)
    ensures
        r is Ok <==> vstd::utf8::valid_utf8(bytes@),
        r matches Ok(text) ==> text@ == vstd::utf8::decode_utf8(bytes@),
        r matches Err(fault) ==> fault@ == utf8_fault(bytes@),
{
    String::from_utf8(bytes).map_err(|e| e.to_string())
}

proof fn lemma_colon_index(text: Seq<char>, i: int)
    requires
        0 <= i <= text.len(),
        forall|j: int| 0 <= j < i ==> text[j] != ':',
        i < text.len() ==> text[i] == ':',
    ensures
        colon_index(text) == i,
    decreases text.len(),
{
    if i > 0 {
        lemma_colon_index(text.drop_first(), i - 1);
    }
}

proof fn lemma_colon_found(text: Seq<char>)
    ensures
        0 <= colon_index(text) <= text.len(),
        forall|j: int| 0 <= j < colon_index(text) ==> text[j] != ':',
        colon_index(text) < text.len() ==> text[colon_index(text)] == ':',
    decreases text.len(),
{
    if text.len() > 0 && text[0] != ':' {
        let rest = text.drop_first();
        lemma_colon_found(rest);
        assert forall|j: int| 0 <= j < colon_index(text) implies text[j] != ':' by {
            if j > 0 {
                assert(rest[j - 1] == text[j]);
            }
        }
    }
}

/// The user name with its padding restored.
pub fn pad_username(username: &str) -> (r: Vec<u8>)
    ensures
        r@ == padded(vstd::utf8::encode_utf8(username@)),
{
    let mut text: Vec<u8> = username.as_bytes_vec();
    let ghost start = text@;
    let ghost mut added: nat = 0;
    while text.len() % 4 != 0
        invariant
            text@ == start + Seq::new(added, |i: int| base64_text::PAD),
            added <= pad_len(start.len()),
        decreases pad_len(start.len()) - added,
    {
        text.push(base64_text::PAD);
        proof {
            added = added + 1;
        }
    }
    text
}

/// The number of characters before the first colon, or of all where there is none.
fn find_colon(text: &str) -> (r: usize)
    ensures
        r == colon_index(text@),
        r <= text@.len(),
{
    let len: usize = text.unicode_len();
    let mut count: usize = 0;
    let mut found: bool = false;
    for c in it: text.chars()
        invariant
            it.seq() == text@,
            len == text@.len(),
            count <= it.index(),
            forall|j: int| 0 <= j < count ==> text@[j] != ':',
            found ==> count < len && text@[count as int] == ':',
            !found ==> count == it.index(),
    {
        if !found {
            if c == ':' {
                found = true;
            } else {
                count = count + 1;
            }
        }
    }
    proof {
        lemma_colon_index(text@, count as int);
    }
    count
}

/// Reads the text `cipher:password`. The first colon ends the cipher's name.
pub fn read_credentials(text: &str) -> (r: Result<(CipherKind, String), AuthError>)
    ensures
        same_credentials(r, credentials_in(text@)),
{
    let len: usize = text.unicode_len();
    let colon: usize = find_colon(text);
    if colon >= len {
        return Err(AuthError::MissingSeparator(text.to_owned()));
    }
    let name = text.substring_char(0, colon);
    let password = text.substring_char(colon + 1, len);
    match CipherKind::parse(name) {
        Ok(kind) => Ok((kind, password.to_owned())),
        Err(fault) => Err(AuthError::InvalidCipher(name.to_owned(), fault)),
    }
}

/// Reads the decoded user name.
pub fn read_credentials_bytes(bytes: Vec<u8>) -> (r: Result<(CipherKind, String), AuthError>)
    ensures
        same_credentials(r, credentials_in_bytes(bytes@)),
{
    match string_from_utf8(bytes) {
        Ok(text) => read_credentials(text.as_str()),
        Err(fault) => Err(AuthError::InvalidUtf8(fault)),
    }
}

/// The cipher and the password that a proxy URL gives.
pub fn parse_proxy_auth(proxy: &ProxyUrl) -> (r: Result<(CipherKind, String), AuthError>)
    ensures
        same_credentials(r, credentials_of(proxy.username@)),
{
    if proxy.username.as_str().is_empty() {
        return Err(AuthError::EmptyUsername);
    }
    let text = pad_username(proxy.username.as_str());
    match base64_text::decode(text.as_slice()) {
        Ok(bytes) => read_credentials_bytes(bytes),
        Err(fault) => Err(AuthError::InvalidBase64(fault)),
    }
}

/// The text `name:password`.
pub open spec fn credentials_text(name: Seq<char>, password: Seq<char>) -> Seq<char> {
    name + seq![':'] + password
}

/// The user name that stands for `name:password`: its base64 encoding, padding included.
pub open spec fn username_for(name: Seq<char>, password: Seq<char>) -> Seq<char> {
    base64_text::base64_text(
        vstd::utf8::encode_utf8(credentials_text(name, password)),
    ).map_values(|b: u8| b as char)
}

/// How many padding characters end the base64 encoding of `len` bytes.
pub open spec fn padding_of(len: nat) -> nat {
    (3 - len % 3) as nat % 3
}

/// The same user name without its padding, as it stands in a URL.
pub open spec fn bare_username_for(name: Seq<char>, password: Seq<char>) -> Seq<char> {
    let full = username_for(name, password);
    let data = vstd::utf8::encode_utf8(credentials_text(name, password));
    full.take(full.len() - padding_of(data.len()))
}

proof fn lemma_credentials_text(name: Seq<char>, password: Seq<char>)
    requires
        !name.contains(':'),
    ensures
        colon_split(credentials_text(name, password)) == Some((name, password)),
{
    let text = credentials_text(name, password);
    assert forall|j: int| 0 <= j < name.len() implies text[j] != ':' by {
        assert(name.contains(name[j]));
    }
    lemma_colon_index(text, name.len() as int);
    assert(text.take(name.len() as int) =~= name);
    assert(text.skip(name.len() as int + 1) =~= password);
}

proof fn lemma_padding(data: Seq<u8>)
    ensures
        base64_text::base64_text(data).len() >= padding_of(data.len()),
        forall|i: int|
            base64_text::base64_text(data).len() - padding_of(data.len()) <= i
                < base64_text::base64_text(data).len() ==> #[trigger] base64_text::base64_text(
                data,
            )[i] == base64_text::PAD,
    decreases data.len(),
{
    if data.len() > 2 {
        let rest = data.skip(3);
        lemma_padding(rest);
        base64_text::base64_text_len(rest);
        let text = base64_text::base64_text(data);
        let tail = base64_text::base64_text(rest);
        assert forall|i: int|
            text.len() - padding_of(data.len()) <= i < text.len() implies text[i]
            == base64_text::PAD by {
            assert(padding_of(data.len()) == padding_of(rest.len()));
            assert(text[i] == tail[i - 4]);
        }
    }
}

/// A user name made for a cipher and a password gives them back, whatever the password, and with
/// some or all of the padding left out as well.
pub proof fn credentials_round_trip(
    name: Seq<char>,
    kind: CipherKind,
    password: Seq<char>,
    dropped: nat,
)
    requires
        !name.contains(':'),
        crate::cipher::cipher_kind(name) == Some(kind),
        dropped <= padding_of(
            vstd::utf8::encode_utf8(credentials_text(name, password)).len(),
        ),
    ensures
        credentials_of(
            username_for(name, password).take(username_for(name, password).len() - dropped),
        ) == Ok::<(CipherKind, Seq<char>), AuthErrorView>((kind, password)),
{
    let text = credentials_text(name, password);
    let data = vstd::utf8::encode_utf8(text);
    let encoded = base64_text::base64_text(data);
    let full = username_for(name, password);
    let username = full.take(full.len() - dropped);
    base64_text::base64_text_len(data);
    base64_text::base64_text_ascii(data);
    lemma_padding(data);
    assert(data.len() > 0) by {
        vstd::utf8::encode_utf8_decode_utf8(text);
    }
    assert(vstd::utf8::is_ascii_chars(username));
    vstd::utf8::is_ascii_chars_encode_utf8(username);
    let bytes = vstd::utf8::encode_utf8(username);
    assert(bytes =~= encoded.take(encoded.len() - dropped)) by {
        assert forall|i: int| 0 <= i < bytes.len() implies bytes[i] == encoded[i] by {
            assert(username[i] as u8 == bytes[i]);
            assert(username[i] == encoded[i] as char);
        }
    }
    assert(padded(bytes) =~= encoded);
    base64_text::base64_round_trip(data);
    vstd::utf8::encode_utf8_valid_utf8(text);
    vstd::utf8::encode_utf8_decode_utf8(text);
    lemma_credentials_text(name, password);
}

/// Only such user names are accepted: where a user name gives a cipher and a password, it is, once
/// padded, the base64 encoding of a name of that cipher, a colon and that password.
pub proof fn accepted_username(username: Seq<char>, kind: CipherKind, password: Seq<char>)
    requires
        credentials_of(username) == Ok::<(CipherKind, Seq<char>), AuthErrorView>((kind, password)),
    ensures
        exists|name: Seq<char>|
            {
                &&& !name.contains(':')
                &&& crate::cipher::cipher_kind(name) == Some(kind)
                &&& padded(vstd::utf8::encode_utf8(username)) == base64_text::base64_text(
                    vstd::utf8::encode_utf8(#[trigger] credentials_text(name, password)),
                )
            },
{
    let encoded = padded(vstd::utf8::encode_utf8(username));
    let bytes = base64_text::base64_value(encoded).unwrap();
    let text = vstd::utf8::decode_utf8(bytes);
    let name = colon_split(text).unwrap().0;
    lemma_colon_found(text);
    assert(credentials_text(name, password) =~= text);
    vstd::utf8::decode_utf8_encode_utf8(bytes);
}

/// A user name is filled up with `=` to the next multiple of four bytes and is otherwise kept.
pub proof fn padding_completes_a_group(username: &str, r: Vec<u8>)
    requires
        call_ensures(pad_username, (username,), r),
    ensures
        r@.len() % 4 == 0,
        vstd::utf8::encode_utf8(username@).len() <= r@.len() < vstd::utf8::encode_utf8(
            username@,
        ).len() + 4,
        r@.take(vstd::utf8::encode_utf8(username@).len() as int) == vstd::utf8::encode_utf8(
            username@,
        ),
        forall|i: int|
            vstd::utf8::encode_utf8(username@).len() <= i < r@.len() ==> #[trigger] r@[i] == 61,
{
    let bytes = vstd::utf8::encode_utf8(username@);
    assert(r@.take(bytes.len() as int) =~= bytes);
}

proof fn lemma_padded(bytes: Seq<u8>, text: Seq<u8>)
    requires
        text.len() % 4 == 0,
        bytes.len() <= text.len() < bytes.len() + 4,
        text.take(bytes.len() as int) == bytes,
        forall|i: int| bytes.len() <= i < text.len() ==> #[trigger] text[i] == 61,
    ensures
        padded(bytes) == text,
{
    assert forall|i: int| 0 <= i < text.len() implies padded(bytes)[i] == text[i] by {
        if i < bytes.len() {
            assert(text.take(bytes.len() as int)[i] == text[i]);
        }
    }
    assert(padded(bytes) =~= text);
}

/// The text `name:password` is read as the cipher that `name` names, as [`CipherKind::parse`] reads
/// it, and the password, whatever the password holds. A name that names none is refused with both
/// the name and the reason.
pub proof fn first_colon_separates(
    text: &str,
    name: Seq<char>,
    password: Seq<char>,
    r: Result<(CipherKind, String), AuthError>,
)
    requires
        call_ensures(read_credentials, (text,), r),
        text@ == name + seq![':'] + password,
        !name.contains(':'),
    ensures
        match crate::cipher::cipher_kind(name) {
            Some(kind) => r matches Ok((read, rest)) && read == kind && rest@ == password,
            None => r matches Err(AuthError::InvalidCipher(given, fault)) && given@ == name
                && fault@ == "invalid CipherKind"@,
        },
{
    lemma_credentials_text(name, password);
    assert(credentials_text(name, password) == text@);
}

/// A text without a colon is refused and given back in the error.
pub proof fn colon_is_needed(text: &str, r: Result<(CipherKind, String), AuthError>)
    requires
        call_ensures(read_credentials, (text,), r),
        !text@.contains(':'),
    ensures
        r matches Err(AuthError::MissingSeparator(given)) && given@ == text@,
{
    lemma_no_colon(text@);
}

proof fn lemma_no_colon(text: Seq<char>)
    requires
        !text.contains(':'),
    ensures
        colon_split(text) is None,
{
    lemma_colon_found(text);
    if colon_index(text) < text.len() {
        assert(text.contains(text[colon_index(text)]));
    }
}

/// Decoded bytes are read as [`read_credentials`] reads the text that they encode, and refused where
/// they encode none.
pub proof fn bytes_are_read_as_their_text(
    bytes: Vec<u8>,
    text: &str,
    r: Result<(CipherKind, String), AuthError>,
    s: Result<(CipherKind, String), AuthError>,
)
    requires
        call_ensures(read_credentials_bytes, (bytes,), r),
        call_ensures(read_credentials, (text,), s),
    ensures
        !vstd::utf8::valid_utf8(bytes@) ==> (r matches Err(AuthError::InvalidUtf8(fault)) && fault@
            == utf8_fault(bytes@)),
        bytes@ == vstd::utf8::encode_utf8(text@) ==> match s {
            Ok((kind, password)) => r matches Ok((read, rest)) && read == kind && rest@
                == password@,
            Err(error) => r matches Err(refused) && refused@ == error@,
        },
{
    vstd::utf8::encode_utf8_valid_utf8(text@);
    vstd::utf8::encode_utf8_decode_utf8(text@);
}

/// A user name that is, once padded, the encoding of `name:password` gives the cipher that `name`
/// names and the password, whatever the password holds, or is refused for the name.
pub proof fn user_name_gives_its_credentials(
    proxy: ProxyUrl,
    text: Seq<u8>,
    name: Seq<char>,
    password: Seq<char>,
    r: Result<(CipherKind, String), AuthError>,
)
    requires
        call_ensures(parse_proxy_auth, (&proxy,), r),
        text.len() % 4 == 0,
        vstd::utf8::encode_utf8(proxy.username@).len() <= text.len() < vstd::utf8::encode_utf8(
            proxy.username@,
        ).len() + 4,
        text.take(vstd::utf8::encode_utf8(proxy.username@).len() as int)
            == vstd::utf8::encode_utf8(proxy.username@),
        forall|i: int|
            vstd::utf8::encode_utf8(proxy.username@).len() <= i < text.len() ==> #[trigger] text[i]
                == 61,
        text == base64_text::base64_text(
            vstd::utf8::encode_utf8(name + seq![':'] + password),
        ),
        !name.contains(':'),
    ensures
        match crate::cipher::cipher_kind(name) {
            Some(kind) => r matches Ok((read, rest)) && read == kind && rest@ == password,
            None => r matches Err(AuthError::InvalidCipher(given, fault)) && given@ == name
                && fault@ == "invalid CipherKind"@,
        },
{
    let decoded = credentials_text(name, password);
    let data = vstd::utf8::encode_utf8(decoded);
    assert(decoded == name + seq![':'] + password);
    lemma_padded(vstd::utf8::encode_utf8(proxy.username@), text);
    base64_text::base64_text_len(data);
    base64_text::base64_round_trip(data);
    vstd::utf8::encode_utf8_valid_utf8(decoded);
    vstd::utf8::encode_utf8_decode_utf8(decoded);
    lemma_credentials_text(name, password);
    assert(proxy.username@.len() > 0);
}

/// A user name is refused as empty exactly when it is.
pub proof fn user_name_is_needed(proxy: ProxyUrl, r: Result<(CipherKind, String), AuthError>)
    requires
        call_ensures(parse_proxy_auth, (&proxy,), r),
    ensures
        (r matches Err(error) && error == AuthError::EmptyUsername) <==> proxy.username@.len() == 0,
{
}

/// A user name that is no encoding, once padded, is refused with the decoder's description.
pub proof fn user_name_has_to_be_base64(
    proxy: ProxyUrl,
    text: Seq<u8>,
    r: Result<(CipherKind, String), AuthError>,
)
    requires
        call_ensures(parse_proxy_auth, (&proxy,), r),
        proxy.username@.len() > 0,
        text.len() % 4 == 0,
        vstd::utf8::encode_utf8(proxy.username@).len() <= text.len() < vstd::utf8::encode_utf8(
            proxy.username@,
        ).len() + 4,
        text.take(vstd::utf8::encode_utf8(proxy.username@).len() as int)
            == vstd::utf8::encode_utf8(proxy.username@),
        forall|i: int|
            vstd::utf8::encode_utf8(proxy.username@).len() <= i < text.len() ==> #[trigger] text[i]
                == 61,
    ensures
        (r matches Err(error) && error is InvalidBase64) <==> (forall|data: Seq<u8>| #[trigger]
            base64_text::base64_text(data) != text),
        r matches Err(AuthError::InvalidBase64(fault)) ==> fault@ == base64_text::base64_fault(text),
{
    lemma_padded(vstd::utf8::encode_utf8(proxy.username@), text);
}

/// A user name that is, once padded, the encoding of `data` is refused if `data` is not UTF-8, and
/// if it is the UTF-8 form of a text without a colon.
pub proof fn decoded_user_name_has_to_be_credentials(
    proxy: ProxyUrl,
    text: Seq<u8>,
    data: Seq<u8>,
    r: Result<(CipherKind, String), AuthError>,
)
    requires
        call_ensures(parse_proxy_auth, (&proxy,), r),
        proxy.username@.len() > 0,
        text.len() % 4 == 0,
        vstd::utf8::encode_utf8(proxy.username@).len() <= text.len() < vstd::utf8::encode_utf8(
            proxy.username@,
        ).len() + 4,
        text.take(vstd::utf8::encode_utf8(proxy.username@).len() as int)
            == vstd::utf8::encode_utf8(proxy.username@),
        forall|i: int|
            vstd::utf8::encode_utf8(proxy.username@).len() <= i < text.len() ==> #[trigger] text[i]
                == 61,
        text == base64_text::base64_text(data),
    ensures
        !vstd::utf8::valid_utf8(data) ==> (r matches Err(AuthError::InvalidUtf8(fault)) && fault@
            == utf8_fault(data)),
        vstd::utf8::valid_utf8(data) && !vstd::utf8::decode_utf8(data).contains(':') ==> (
        r matches Err(AuthError::MissingSeparator(given)) && given@ == vstd::utf8::decode_utf8(
            data,
        )),
{
    lemma_padded(vstd::utf8::encode_utf8(proxy.username@), text);
    base64_text::base64_round_trip(data);
    if vstd::utf8::valid_utf8(data) && !vstd::utf8::decode_utf8(data).contains(':') {
        lemma_no_colon(vstd::utf8::decode_utf8(data));
    }
}

/// What each refusal says.
pub proof fn auth_error_in_words(error: AuthError, r: String)
    requires
        call_ensures(AuthError::message, (&error,), r),
    ensures
        error is EmptyUsername ==> r@ == "proxy auth username is empty"@,
        error matches AuthError::InvalidBase64(fault) ==> r@
            == "proxy auth username is not valid base64: "@ + fault@,
        error matches AuthError::InvalidUtf8(fault) ==> r@
            == "decoded proxy auth is not valid utf-8: "@ + fault@,
        error matches AuthError::MissingSeparator(text) ==> r@
            == "invalid decoded proxy auth format, expected 'cipher:password', got: "@ + text@,
        error matches AuthError::InvalidCipher(name, fault) ==> r@ == "invalid cipher '"@ + name@
            + "': "@ + fault@,
{
}

} // verus!
