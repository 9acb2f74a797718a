//! The address of the Sakura AI Engine service that a client talks to.
use vstd::prelude::*;

verus! {

/// The parts of a URL that this client reads: its serialization, its scheme and
/// its host, written out as text.
pub type UrlParts = (Seq<char>, Seq<char>, Option<Seq<char>>);

/// What `url::Url::parse` gives for `input`: the parts of the URL (serialization
/// from `as_str`, `scheme`, and `host` written out with `to_string`), or the
/// description of the parse error (its `to_string`).
pub uninterp spec fn url_parse(input: Seq<char>) -> Result<UrlParts, Seq<char>>;

/// The serialization of the URL whose serialization is `serialization`, once
/// `url::Url::set_port(Some(port))` has succeeded on it.
pub uninterp spec fn url_set_port(serialization: Seq<char>, port: u16) -> Seq<char>;

/// Whether `url::Url::set_port` succeeds on a URL with these parts: it fails when the
/// URL has no host, has an empty host, or has the `file` scheme.
pub open spec fn port_settable(p: UrlParts) -> bool {
    &&& p.2 matches Some(host) && host.len() > 0
    &&& p.1 != seq!['f', 'i', 'l', 'e']
}

/// The path of the chat-completion endpoint, relative to the service URL.
pub open spec fn completions_path() -> Seq<char> {
    seq![
        'v', '1', '/', 'c', 'h', 'a', 't', '/', 'c', 'o', 'm', 'p', 'l', 'e', 't', 'i', 'o', 'n',
        's',
    ]
}

#[verifier::external_type_specification]
#[verifier::external_body]
pub struct ExUrl(::url::Url);

/// A URL that could not be parsed, with the description of what was wrong.
#[derive(Clone, Debug)]
pub struct UrlError {
    pub description: String,
}

/// A parsed URL together with the parts of it that this client reads.
#[derive(Debug)]
pub struct ServiceUrl {
    url: url::Url,
    serialization: String,
    scheme: String,
    host: Option<String>,
}

impl View for ServiceUrl {
    type V = UrlParts;

    /// The serialization, the scheme and the host of the URL.
    closed spec fn view(&self) -> UrlParts {
        (
            self.serialization@,
            self.scheme@,
            match self.host {
                Some(h) => Some(h@),
                None => None,
            },
        )
    }
}

/// `url::Url::parse(input)`, with the parts of the parsed URL read out; a parse error
/// is written out as its description. The result is what [`url_parse`] names.
#[verifier::external_body]
fn parse_url(input: &str) -> (r: Result<ServiceUrl, UrlError>)
    ensures
        match r {
            Ok(u) => url_parse(input@) == Ok::<UrlParts, Seq<char>>(u@),
            Err(e) => url_parse(input@) == Err::<UrlParts, Seq<char>>(e.description@),
        },
{
    match url::Url::parse(input) {
        Ok(url) => {
            let serialization = url.as_str().to_string();
            let scheme = url.scheme().to_string();
            let host = match url.host() {
                Some(h) => Some(h.to_string()),
                None => None,
            };
            Ok(ServiceUrl { url, serialization, scheme, host })
        },
        Err(e) => Err(UrlError { description: e.to_string() }),
    }
}

/// `url::Url::set_port(Some(port))` on a copy of `u`: it succeeds exactly when the URL
/// has a non-empty host and a scheme other than `file` (the source tests these),
/// and the new serialization is what [`url_set_port`] names. The scheme and host are
/// carried over from `u`, which `set_port` leaves as they were.
#[verifier::external_body]
fn set_port(u: &ServiceUrl, port: u16) -> (r: Option<ServiceUrl>)
    ensures
        r is Some <==> port_settable(u@),
        r matches Some(v) ==> v@ == (url_set_port(u@.0, port), u@.1, u@.2),
{
    let mut url = u.url.clone();
    match url.set_port(Some(port)) {
        Ok(()) => Some(ServiceUrl {
            serialization: url.as_str().to_string(),
            scheme: u.scheme.clone(),
            host: u.host.clone(),
            url,
        }),
        Err(()) => None,
    }
}

/// A copy of `u`, made with `Clone::clone` of `url::Url`; the parts are copied with
/// it, so the copy has the same parts.
#[verifier::external_body]
fn copy_url(u: &ServiceUrl) -> (r: ServiceUrl)
    ensures
        r@ == u@,
{
    ServiceUrl {
        url: u.url.clone(),
        serialization: u.serialization.clone(),
        scheme: u.scheme.clone(),
        host: u.host.clone(),
    }
}

impl ServiceUrl {
    /// A copy of this URL.
    pub fn duplicate(&self) -> (r: ServiceUrl)
        ensures
            r@ == self@,
    {
        copy_url(self)
    }

    /// Parses `input` as an absolute URL.
    pub fn parse(input: &str) -> (r: Result<ServiceUrl, UrlError>)
        ensures
            match r {
                Ok(u) => url_parse(input@) == Ok::<UrlParts, Seq<char>>(u@),
                Err(e) => url_parse(input@) == Err::<UrlParts, Seq<char>>(e.description@),
            },
    {
        parse_url(input)
    }

    /// This URL with its port set to `port`; `None` when the URL cannot have a port.
    pub fn with_port(&self, port: u16) -> (r: Option<ServiceUrl>)
        ensures
            r is Some <==> port_settable(self@),
            r matches Some(v) ==> v@ == (url_set_port(self@.0, port), self@.1, self@.2),
    {
        set_port(self, port)
    }

    /// The serialization of this URL.
    pub fn as_str(&self) -> (s: &str)
        ensures
            s@ == self@.0,
    {
        self.serialization.as_str()
    }

    /// The scheme of this URL.
    pub fn scheme(&self) -> (s: &str)
        ensures
            s@ == self@.1,
    {
        self.scheme.as_str()
    }

    /// The host of this URL, if it has one.
    pub fn host(&self) -> (h: Option<&str>)
        ensures
            match h {
                Some(s) => self@.2 == Some(s@),
                None => self@.2 is None,
            },
    {
        match &self.host {
            Some(s) => Some(s.as_str()),
            None => None,
        }
    }
}

/// The service address of a Sakura AI Engine client.
#[derive(Debug)]
pub struct SakuraAI {
    url: ServiceUrl,
}

impl View for SakuraAI {
    type V = UrlParts;

    /// The parts of the service URL.
    closed spec fn view(&self) -> UrlParts {
        self.url@
    }
}

impl SakuraAI {
    /// A client of the service at `host`, on `port`.
    pub fn new(host: &str, port: u16) -> (c: Self)
        requires
            url_parse(host@) is Ok,
            port_settable(url_parse(host@)->Ok_0),
        ensures
            c@ == (
                url_set_port(url_parse(host@)->Ok_0.0, port),
                url_parse(host@)->Ok_0.1,
                url_parse(host@)->Ok_0.2,
            ),
    {
        let url = parse_url(host).unwrap();
        let with_port = url.with_port(port).unwrap();
        SakuraAI { url: with_port }
    }

    /// A client of the service at `host`, on `port`; `None` when `host` is not a URL
    /// or a URL that cannot have a port.
    pub fn try_new_with_port(host: &str, port: u16) -> (c: Option<Self>)
        ensures
            c is Some <==> (url_parse(host@) is Ok && port_settable(url_parse(host@)->Ok_0)),
            c matches Some(c) ==> c@ == (
                url_set_port(url_parse(host@)->Ok_0.0, port),
                url_parse(host@)->Ok_0.1,
                url_parse(host@)->Ok_0.2,
            ),
    {
        match parse_url(host) {
            Ok(url) => {
                if url.with_port(port).is_some() {
                    Some(Self::new(host, port))
                } else {
                    None
                }
            },
            Err(_) => None,
        }
    }

    /// A client of the service at `url`.
    pub fn try_new(url: &str) -> (c: Result<Self, UrlError>)
        ensures
            match c {
                Ok(c) => url_parse(url@) == Ok::<UrlParts, Seq<char>>(c@),
                Err(e) => url_parse(url@) == Err::<UrlParts, Seq<char>>(e.description@),
            },
    {
        match parse_url(url) {
            Ok(u) => Ok(Self::from_url(u)),
            Err(e) => Err(e),
        }
    }

    /// A client of the service at `url`.
    pub fn from_url(url: ServiceUrl) -> (c: Self)
        ensures
            c@ == url@,
    {
        SakuraAI { url }
    }

    /// The host of the service.
    pub fn uri(&self) -> (h: String)
        requires
            self@.2 is Some,
        ensures
            h@ == self@.2->Some_0,
    {
        match self.url.host() {
            Some(h) => h.to_owned(),
            None => {
                assert(false);
                String::new()
            },
        }
    }

    /// A copy of this client.
    pub fn duplicate(&self) -> (c: Self)
        ensures
            c@ == self@,
    {
        SakuraAI { url: self.url.duplicate() }
    }

    /// The URL of the service.
    pub fn url(&self) -> (u: &ServiceUrl)
        ensures
            u@ == self@,
    {
        &self.url
    }

    /// The serialization of the service URL.
    pub fn url_str(&self) -> (s: &str)
        ensures
            s@ == self@.0,
    {
        self.url.as_str()
    }

    /// The URL of the chat-completion endpoint: the service URL followed by
    /// `v1/chat/completions`.
    pub fn chat_completions_url(&self) -> (s: String)
        ensures
            s@ == self@.0 + completions_path(),
    {
        let mut s = self.url.as_str().to_owned();
        let path = "v1/chat/completions";
        proof {
            reveal_strlit("v1/chat/completions");
        }
        assert(path@ =~= completions_path());
        s.append(path);
        s
    }
}

} // verus!
