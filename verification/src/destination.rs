//! What a connection is wanted to.
use vstd::prelude::*;

verus! {

/// The port of an `https` destination that names none.
pub const HTTPS_PORT: u16 = 443;

/// The port of any other destination that names none.
pub const HTTP_PORT: u16 = 80;

/// The parts of a destination's URI that decide how it is reached.
#[derive(Debug, PartialEq, Eq)]
pub struct Destination {
    /// The scheme, in lower case where it is `http` or `https`.
    pub scheme: Option<String>,
    pub host: Option<String>,
    pub port: Option<u16>,
}

/// The host and the port that the server is asked to connect to. The host is passed on by name.
#[derive(Debug, PartialEq, Eq)]
pub struct Target {
    pub host: String,
    pub port: u16,
}

impl Destination {
    /// Whether the destination is spoken to over TLS.
    pub open spec fn secure(self) -> bool {
        self.scheme.deep_view() == Some("https"@)
    }

    /// The port to connect to: the URI's own, or else the scheme's.
    pub open spec fn target_port(self) -> u16 {
        match self.port {
            Some(port) => port,
            None => if self.secure() {
                HTTPS_PORT
            } else {
                HTTP_PORT
            },
        }
    }

    /// Whether the scheme is `https`.
    pub fn is_https(&self) -> (r: bool)
        ensures
            r == self.secure(),
    {
        match &self.scheme {
            Some(scheme) => *scheme == "https".to_owned(),
            None => false,
        }
    }

    /// The port to connect to: 443 for an `https` URI without one, 80 for any other.
    pub fn port_or_default(&self) -> (r: u16)
        ensures
            r == self.target_port(),
    {
        match self.port {
            Some(port) => port,
            None => if self.is_https() {
                HTTPS_PORT
            } else {
                HTTP_PORT
            },
        }
    }

    /// The host and the port to connect to, where there is a host.
    pub fn target(&self) -> (r: Option<Target>)
        ensures
            match r {
                Some(target) => self.host.deep_view() == Some(target.host@) && target.port
                    == self.target_port(),
                None => self.host is None,
            },
    {
        match &self.host {
            Some(host) => Some(Target { host: host.clone(), port: self.port_or_default() }),
            None => None,
        }
    }
}

/// A destination is spoken to over TLS exactly when its scheme is `https`, whatever its host and
/// its port.
pub proof fn https_goes_by_the_scheme(destination: Destination, r: bool)
    requires
        call_ensures(Destination::is_https, (&destination,), r),
    ensures
        r <==> (destination.scheme matches Some(scheme) && scheme@ == seq![
            'h',
            't',
            't',
            'p',
            's',
        ]),
        destination.secure() == r,
{
    reveal_strlit("https");
    assert("https"@ =~= seq!['h', 't', 't', 'p', 's']);
}

/// The same of the destinations themselves.
pub proof fn https_goes_by_the_scheme_of(destination: Destination)
    ensures
        destination.secure() <==> (destination.scheme matches Some(scheme) && scheme@ == seq![
            'h',
            't',
            't',
            'p',
            's',
        ]),
{
    reveal_strlit("https");
    assert("https"@ =~= seq!['h', 't', 't', 'p', 's']);
}

/// The port that a URI names is the one connected to. Without one it is 443 for the scheme `https`
/// and 80 for every other scheme, and for none.
pub proof fn port_goes_by_the_uri(destination: Destination, r: u16)
    requires
        call_ensures(Destination::port_or_default, (&destination,), r),
    ensures
        destination.port matches Some(port) ==> r == port,
        destination.port is None && (destination.scheme matches Some(scheme) && scheme@ == seq![
            'h',
            't',
            't',
            'p',
            's',
        ]) ==> r == 443,
        destination.port is None && !(destination.scheme matches Some(scheme) && scheme@ == seq![
            'h',
            't',
            't',
            'p',
            's',
        ]) ==> r == 80,
        destination.target_port() == r,
{
    reveal_strlit("https");
    assert("https"@ =~= seq!['h', 't', 't', 'p', 's']);
}

/// A destination can be connected to exactly when it has a host, which is passed on as it is
/// written, with the port that [`Destination::port_or_default`] gives.
pub proof fn target_keeps_the_host(destination: Destination, port: u16, r: Option<Target>)
    requires
        call_ensures(Destination::target, (&destination,), r),
        call_ensures(Destination::port_or_default, (&destination,), port),
    ensures
        destination.host is None <==> r is None,
        destination.host matches Some(host) ==> (r matches Some(target) && target.host@ == host@
            && target.port == port),
{
}

} // verus!
