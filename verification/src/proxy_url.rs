//! The URL that a proxy is given by.
use percent_encoding::percent_decode_str;
use url::Url;
use vstd::prelude::*;

verus! {

/// A parsed proxy URL.
#[derive(Debug, PartialEq, Eq)]
pub struct ProxyUrl {
    /// The URL in normal form.
    pub serialization: String,
    /// The user name in front of the `@`, percent-encoded as it stands in the URL, or nothing.
    pub username: String,
    pub host: Option<String>,
    pub port: Option<u16>,
    /// What follows the `#`, percent-encoded: the name that the proxy was given.
    pub fragment: Option<String>,
}

/// The contents of a [`ProxyUrl`].
pub struct ProxyUrlView {
    pub serialization: Seq<char>,
    pub username: Seq<char>,
    pub host: Option<Seq<char>>,
    pub port: Option<u16>,
    pub fragment: Option<Seq<char>>,
}

impl View for ProxyUrl {
    type V = ProxyUrlView;

    open spec fn view(&self) -> ProxyUrlView {
        ProxyUrlView {
            serialization: self.serialization@,
            username: self.username@,
            host: self.host.deep_view(),
            port: self.port,
            fragment: self.fragment.deep_view(),
        }
    }
}

/// What `url::Url::parse` makes of `text`: the parts of the URL, or the description of what is wrong
/// with it.
pub uninterp spec fn url_parsed(text: Seq<char>) -> Result<ProxyUrlView, Seq<char>>;

/// The text of a Shadowsocks URL: `rest` is the server, and the path, query and fragment that may
/// follow it.
pub open spec fn ss_url(username: Seq<char>, rest: Seq<char>) -> Seq<char> {
    "ss://"@ + username + seq!['@'] + rest
}

/// Whether `username` is made of characters that stand for themselves in a URL: the base64 alphabet
/// but for `/`, which would end the server part.
pub open spec fn is_plain_username(username: Seq<char>) -> bool {
    &&& username.len() > 0
    &&& forall|i: int|
        0 <= i < username.len() ==> {
            let c = #[trigger] username[i];
            ||| 'a' <= c && c <= 'z'
            ||| 'A' <= c && c <= 'Z'
            ||| '0' <= c && c <= '9'
            ||| c == '+'
        }
}

/// Whether `c` ends the server part of a URL.
pub open spec fn ends_server(c: char) -> bool {
    c == '/' || c == '?' || c == '#'
}

/// Whether no `@` stands in the server part of `rest`, which would then belong to the user name.
pub open spec fn server_has_no_at(rest: Seq<char>) -> bool {
    forall|i: int|
        0 <= i < rest.len() && #[trigger] rest[i] == '@' ==> exists|j: int|
            0 <= j < i && ends_server(#[trigger] rest[j])
}

/// Whether `text` is a Shadowsocks URL with this plain user name.
pub open spec fn is_ss_url_of(text: Seq<char>, username: Seq<char>) -> bool {
    &&& is_plain_username(username)
    &&& exists|rest: Seq<char>|
        text == #[trigger] ss_url(username, rest) && server_has_no_at(rest)
}

/// `url::Url::parse`, with the parts read by `as_str`, `username`, `host_str`, `port` and `fragment`.
///
/// Trusted: the outcome depends on the text alone, and a plain user name in a Shadowsocks URL that
/// is accepted comes out as it went in.
#[verifier::external_body]
fn url_parse(text: &str) -> (r: Result<ProxyUrl, String>)
    ensures
        match r {
            Ok(url) => url_parsed(text@) == Ok::<ProxyUrlView, Seq<char>>(url@),
            Err(fault) => url_parsed(text@) == Err::<ProxyUrlView, Seq<char>>(fault@),
        },
        r matches Ok(url) ==> (forall|username: Seq<char>| #[trigger]
            is_ss_url_of(text@, username) ==> url.username@ == username),
{
    let url = Url::parse(text).map_err(|e| e.to_string())?;
    Ok(
        ProxyUrl {
            serialization: url.as_str().to_owned(),
            username: url.username().to_owned(),
            host: url.host_str().map(|s| s.to_owned()),
            port: url.port(),
            fragment: url.fragment().map(|s| s.to_owned()),
        },
    )
}

/// What `percent_encoding` decodes `text` to, with what is not UTF-8 replaced.
pub uninterp spec fn percent_decoded(text: Seq<char>) -> Seq<char>;

/// `percent_encoding::percent_decode_str` and `decode_utf8_lossy`.
///
/// Trusted: the outcome depends on the text alone.
#[verifier::external_body]
fn percent_decode(text: &str) -> (r: String)
    ensures
        r@ == percent_decoded(text@),
{
    percent_decode_str(text).decode_utf8_lossy().into_owned()
}

/// The text that the proxy's URL is read from: the Shadowsocks URL that the proxy was set up with,
/// or else the URI that the proxy goes by.
pub open spec fn url_text(ss: Option<Seq<char>>, uri: Seq<char>) -> Seq<char> {
    match ss {
        Some(text) => text,
        None => uri,
    }
}

/// What a proxy is shown as, without its credentials.
#[derive(Debug, PartialEq, Eq)]
pub struct ProxyLabel {
    pub server: String,
    pub port: u16,
    pub name: String,
}

impl ProxyUrl {
    /// Parses a URL.
    pub fn parse(text: &str) -> (r: Result<ProxyUrl, String>)
        ensures
            match r {
                Ok(url) => url_parsed(text@) == Ok::<ProxyUrlView, Seq<char>>(url@),
                Err(fault) => url_parsed(text@) == Err::<ProxyUrlView, Seq<char>>(fault@),
            },
            r matches Ok(url) ==> (forall|username: Seq<char>| #[trigger]
                is_ss_url_of(text@, username) ==> url.username@ == username),
    {
        url_parse(text)
    }

    /// What the proxy is shown as: an absent host is `unknown`, an absent port 0, and an absent
    /// name empty.
    pub fn label(&self) -> (r: ProxyLabel)
        ensures
            r.server@ == (match self@.host {
                Some(host) => host,
                None => "unknown"@,
            }),
            r.port == (match self@.port {
                Some(port) => port,
                None => 0,
            }),
            r.name@ == (match self@.fragment {
                Some(fragment) => percent_decoded(fragment),
                None => Seq::empty(),
            }),
    {
        let server = match &self.host {
            Some(host) => host.clone(),
            None => "unknown".to_owned(),
        };
        let port: u16 = match self.port {
            Some(port) => port,
            None => 0,
        };
        let name = match &self.fragment {
            Some(fragment) => percent_decode(fragment.as_str()),
            None => String::new(),
        };
        ProxyLabel { server, port, name }
    }
}

/// The parts of a parsed URL are those that the `url` crate reads from it, each in its own field, and
/// a malformed URL is refused with the crate's description.
pub proof fn parsed_parts(text: &str, r: Result<ProxyUrl, String>)
    requires
        call_ensures(ProxyUrl::parse, (text,), r),
    ensures
        match url_parsed(text@) {
            Ok(parts) => r matches Ok(url) && {
                &&& url.serialization@ == parts.serialization
                &&& url.username@ == parts.username
                &&& (match url.host {
                    Some(host) => parts.host == Some(host@),
                    None => parts.host is None,
                })
                &&& url.port == parts.port
                &&& (match url.fragment {
                    Some(fragment) => parts.fragment == Some(fragment@),
                    None => parts.fragment is None,
                })
            },
            Err(description) => r matches Err(fault) && fault@ == description,
        },
{
}

/// In a Shadowsocks URL that is accepted, a user name of letters, digits and `+` in front of the `@`
/// is read as it is written, whatever follows; a further `@` has to stand behind the server part.
pub proof fn plain_user_name_is_kept(
    text: &str,
    username: Seq<char>,
    rest: Seq<char>,
    r: Result<ProxyUrl, String>,
)
    requires
        call_ensures(ProxyUrl::parse, (text,), r),
        text@ == "ss://"@ + username + seq!['@'] + rest,
        username.len() > 0,
        forall|i: int|
            0 <= i < username.len() ==> {
                let c = #[trigger] username[i];
                ||| 'a' <= c && c <= 'z'
                ||| 'A' <= c && c <= 'Z'
                ||| '0' <= c && c <= '9'
                ||| c == '+'
            },
        forall|i: int|
            0 <= i < rest.len() && #[trigger] rest[i] == '@' ==> exists|j: int|
                0 <= j < i && (#[trigger] rest[j] == '/' || rest[j] == '?' || rest[j] == '#'),
    ensures
        r matches Ok(url) ==> url.username@ == username,
        is_ss_url_of(text@, username),
{
    assert forall|i: int| 0 <= i < rest.len() && #[trigger] rest[i] == '@' implies exists|j: int|
        0 <= j < i && ends_server(#[trigger] rest[j]) by {
        let j = choose|j: int|
            0 <= j < i && (#[trigger] rest[j] == '/' || rest[j] == '?' || rest[j] == '#');
        assert(ends_server(rest[j]));
    }
    assert(text@ == ss_url(username, rest));
}

/// The URL that a proxy was set up with is the one that is read, whatever URI the proxy goes by; only
/// without it the URI is.
pub proof fn url_text_is_one_of_two(ss: Seq<char>, uri: Seq<char>)
    ensures
        url_text(Some(ss), uri) == ss,
        url_text(None, uri) == uri,
{
}

/// A proxy is shown by its host, its port and the decoded name behind the `#`. Each is shown by
/// itself, whatever the others are, and what is absent as `unknown`, 0 and nothing.
pub proof fn label_shows_the_parts(url: ProxyUrl, r: ProxyLabel)
    requires
        call_ensures(ProxyUrl::label, (&url,), r),
    ensures
        url.host matches Some(host) ==> r.server@ == host@,
        url.host is None ==> r.server@ == seq!['u', 'n', 'k', 'n', 'o', 'w', 'n'],
        url.port matches Some(port) ==> r.port == port,
        url.port is None ==> r.port == 0,
        url.fragment matches Some(fragment) ==> r.name@ == percent_decoded(fragment@),
        url.fragment is None ==> r.name@.len() == 0,
{
    reveal_strlit("unknown");
    assert("unknown"@ =~= seq!['u', 'n', 'k', 'n', 'o', 'w', 'n']);
}

} // verus!
