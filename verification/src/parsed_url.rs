//! A URL as parsed by the `url` crate, held as the plain values that the validators read.

use vstd::prelude::*;
use vstd::string::*;

verus! {

#[verifier::external_type_specification]
#[verifier::external_body]
pub struct ExUrl(url::Url);

/// The parts of a parsed URL that the validators read, taken as sequences of characters.
pub struct UrlView {
    /// The URL's serialization (`Url::as_str`).
    pub serialization: Seq<char>,
    /// The scheme, in lower case (`Url::scheme`).
    pub scheme: Seq<char>,
    /// The user name, empty where there is none (`Url::username`).
    pub username: Seq<char>,
    /// The password, if any (`Url::password`).
    pub password: Option<Seq<char>>,
    /// The host, if the URL has one (`Url::host_str`).
    pub host: Option<Seq<char>>,
    /// The explicit port, if any (`Url::port`).
    pub port: Option<u16>,
    /// The path (`Url::path`).
    pub path: Seq<char>,
    /// The query, if any (`Url::query`).
    pub query: Option<Seq<char>>,
    /// The fragment, if any (`Url::fragment`).
    pub fragment: Option<Seq<char>>,
}

/// Whether two URLs have the same scheme, credentials, query and fragment.
pub open spec fn same_scheme_credentials_query_fragment(a: UrlView, b: UrlView) -> bool {
    &&& a.scheme == b.scheme
    &&& a.username == b.username
    &&& a.password == b.password
    &&& a.query == b.query
    &&& a.fragment == b.fragment
}

/// The port that the `url` crate knows as a scheme's default (`url::parser::default_port`).
pub open spec fn known_default_port(scheme: Seq<char>) -> Option<u16> {
    if scheme == "http"@ || scheme == "ws"@ {
        Some(80)
    } else if scheme == "https"@ || scheme == "wss"@ {
        Some(443)
    } else if scheme == "ftp"@ {
        Some(21)
    } else {
        None
    }
}

/// The explicit port that `set_port(Some(port))` leaves: none where the port is the scheme's
/// known default.
pub open spec fn port_after_set(scheme: Seq<char>, port: u16) -> Option<u16> {
    if known_default_port(scheme) == Some(port) {
        None
    } else {
        Some(port)
    }
}

/// Whether `set_port` refuses a URL: one without a host, with an empty host, or a `file` URL.
pub open spec fn port_refused(url: UrlView) -> bool {
    url.host is None || url.host == Some(Seq::<char>::empty()) || url.scheme == "file"@
}

/// Result of `url::Url::set_port(Some(port))` on a URL: `None` where it returns `Err(())`;
/// the URL unchanged where the explicit port it would leave is the one the URL has; else the
/// rewritten URL (as the source's `set_port` and `set_port_internal` show).
pub open spec fn url_set_port(url: UrlView, port: u16) -> Option<UrlView> {
    if port_refused(url) {
        None
    } else if port_after_set(url.scheme, port) == url.port {
        Some(url)
    } else {
        Some(url_port_rewrite(url, port))
    }
}

/// Byte length of the UTF-8 encoding of a string, as `str::len` reports it.
pub open spec fn byte_len(s: Seq<char>) -> usize {
    vstd::utf8::encode_utf8(s).len() as usize
}

/// Result of `url::Url::parse` on the input: the parsed URL, or the error's message.
pub uninterp spec fn url_parse(input: Seq<char>) -> Result<UrlView, Seq<char>>;

/// Descriptions of the syntax violations that `url`'s parser reports, in order, while parsing
/// the input.
pub uninterp spec fn url_syntax_violations(input: Seq<char>) -> Seq<Seq<char>>;

/// Result of `url::Url::set_host(Some(host))` on a URL: the new URL, or the error's message.
pub uninterp spec fn url_set_host(url: UrlView, host: Seq<char>) -> Result<UrlView, Seq<char>>;

/// The URL that `url::Url::set_port(Some(port))` writes where the explicit port changes.
pub uninterp spec fn url_port_rewrite(url: UrlView, port: u16) -> UrlView;

/// Result of `url::Url::set_path(path)` on a URL.
pub uninterp spec fn url_set_path(url: UrlView, path: Seq<char>) -> UrlView;

/// The `Display` text of `url::ParseError::EmptyHost`.
pub open spec fn empty_host_text() -> Seq<char> {
    "empty host"@
}

/// The `Display` text of `url::ParseError::RelativeUrlWithoutBase`.
pub open spec fn relative_url_without_base_text() -> Seq<char> {
    "relative URL without a base"@
}

/// The `Display` text of `url::ParseError::Overflow`.
pub open spec fn overflow_text() -> Seq<char> {
    "URLs more than 4 GB are not supported"@
}

/// The description of `url::SyntaxViolation::EmbeddedCredentials`.
pub open spec fn embedded_credentials_text() -> Seq<char> {
    "embedding authentication information (username or password) in an URL is not recommended"@
}

/// The `url` crate keeps every offset into a serialization in a `u32` and panics past that;
/// a setter is only called where the URL and its argument are far below that bound, even
/// after percent-encoding or IDNA mapping of the argument.
pub open spec fn setter_fits(url: UrlView, arg: Seq<char>) -> bool {
    byte_len(url.serialization) + 64 * byte_len(arg) + 64 < u32::MAX
}

/// A URL parsed by the `url` crate, with the parts the validators read.
#[derive(Debug)]
pub struct ParsedUrl {
    serialization: String,
    scheme: String,
    username: String,
    password: Option<String>,
    host: Option<String>,
    port: Option<u16>,
    path: String,
    query: Option<String>,
    fragment: Option<String>,
    lib: url::Url,
}

/// The view of an optional string.
pub open spec fn opt_view(s: Option<String>) -> Option<Seq<char>> {
    match s {
        Some(s) => Some(s@),
        None => None,
    }
}

fn clone_opt(s: &Option<String>) -> (r: Option<String>)
    ensures
        opt_view(r) == opt_view(*s),
{
    match s {
        Some(s) => Some(s.clone()),
        None => None,
    }
}

impl View for ParsedUrl {
    type V = UrlView;

    closed spec fn view(&self) -> UrlView {
        UrlView {
            serialization: self.serialization@,
            scheme: self.scheme@,
            username: self.username@,
            password: opt_view(self.password),
            host: opt_view(self.host),
            port: self.port,
            path: self.path@,
            query: opt_view(self.query),
            fragment: opt_view(self.fragment),
        }
    }
}

/// `url::Url`'s `Clone`. Nothing is claimed of the copy: the library keeps the parts it reads
/// beside it.
#[verifier::external_body]
fn clone_lib(u: &url::Url) -> url::Url {
    u.clone()
}

impl Clone for ParsedUrl {
    fn clone(&self) -> (r: Self)
        ensures
            r@ == self@,
    {
        ParsedUrl {
            serialization: self.serialization.clone(),
            scheme: self.scheme.clone(),
            username: self.username.clone(),
            password: clone_opt(&self.password),
            host: clone_opt(&self.host),
            port: self.port,
            path: self.path.clone(),
            query: clone_opt(&self.query),
            fragment: clone_opt(&self.fragment),
            lib: clone_lib(&self.lib),
        }
    }
}

/// Calls `url::Url::parse` and reads the parts of the result. Claims that the result is the
/// named `url_parse` of the input.
#[verifier::external_body]
pub(crate) fn lib_parse(input: &str) -> (r: Result<ParsedUrl, String>)
    ensures
        match r {
            Ok(u) => url_parse(input@) == Ok::<UrlView, Seq<char>>(u@),
            Err(m) => url_parse(input@) == Err::<UrlView, Seq<char>>(m@),
        },
{
    match url::Url::parse(input) {
        Ok(u) => Ok(ParsedUrl {
            serialization: u.as_str().into(), scheme: u.scheme().into(), username: u.username().into(),
            password: u.password().map(Into::into), host: u.host_str().map(Into::into), port: u.port(),
            path: u.path().into(), query: u.query().map(Into::into), fragment: u.fragment().map(Into::into),
            lib: u,
        }),
        Err(e) => Err(e.to_string()),
    }
}

/// Calls `url::Url::options().syntax_violation_callback(..).parse`, collecting the
/// descriptions of the violations that the parser reports, as the `url` crate's own
/// documentation shows; they are the named `url_syntax_violations` of the input. The parsed
/// URL itself is `lib_parse`'s (`Url::parse` is `Url::options().parse`, and the callback only
/// observes).
#[verifier::external_body]
pub(crate) fn lib_syntax_violations(input: &str) -> (r: Vec<String>)
    ensures
        r@.map_values(|d: String| d@) == url_syntax_violations(input@),
{
    let seen = std::cell::RefCell::new(Vec::new());
    let _ = url::Url::options().syntax_violation_callback(Some(&|v| seen.borrow_mut().push(v))).parse(input);
    seen.into_inner().iter().map(|v| v.description().to_string()).collect()
}

/// `url::ParseError::EmptyHost.to_string()`: its `Display` text, as the crate's source gives it.
#[verifier::external_body]
pub(crate) fn empty_host_message() -> (r: String)
    ensures
        r@ == empty_host_text(),
{
    url::ParseError::EmptyHost.to_string()
}

/// `url::ParseError::RelativeUrlWithoutBase.to_string()`: its `Display` text, as the crate's
/// source gives it.
#[verifier::external_body]
pub(crate) fn relative_url_without_base_message() -> (r: String)
    ensures
        r@ == relative_url_without_base_text(),
{
    url::ParseError::RelativeUrlWithoutBase.to_string()
}

/// `url::ParseError::Overflow.to_string()`: its `Display` text, as the crate's source gives it.
#[verifier::external_body]
pub(crate) fn overflow_message() -> (r: String)
    ensures
        r@ == overflow_text(),
{
    url::ParseError::Overflow.to_string()
}

/// `url::SyntaxViolation::EmbeddedCredentials.description()`, as the crate's source gives it.
#[verifier::external_body]
pub(crate) fn embedded_credentials_description() -> (r: String)
    ensures
        r@ == embedded_credentials_text(),
{
    url::SyntaxViolation::EmbeddedCredentials.description().to_string()
}

impl ParsedUrl {
    /// The serialization of the URL.
    pub fn as_str(&self) -> (r: &str)
        ensures
            r@ == self@.serialization,
    {
        self.serialization.as_str()
    }

    /// The scheme, in lower case.
    pub fn scheme(&self) -> (r: &str)
        ensures
            r@ == self@.scheme,
    {
        self.scheme.as_str()
    }

    /// The user name, empty where there is none.
    pub fn username(&self) -> (r: &str)
        ensures
            r@ == self@.username,
    {
        self.username.as_str()
    }

    /// The password, if any.
    pub fn password(&self) -> (r: Option<&str>)
        ensures
            r matches Some(p) ==> self@.password == Some(p@),
            r is None ==> self@.password is None,
    {
        match &self.password {
            Some(p) => Some(p.as_str()),
            None => None,
        }
    }

    /// The query, if any.
    pub fn query(&self) -> (r: Option<&str>)
        ensures
            r matches Some(q) ==> self@.query == Some(q@),
            r is None ==> self@.query is None,
    {
        match &self.query {
            Some(q) => Some(q.as_str()),
            None => None,
        }
    }

    /// The fragment, if any.
    pub fn fragment(&self) -> (r: Option<&str>)
        ensures
            r matches Some(f) ==> self@.fragment == Some(f@),
            r is None ==> self@.fragment is None,
    {
        match &self.fragment {
            Some(f) => Some(f.as_str()),
            None => None,
        }
    }

    /// Whether the URL has a host.
    pub fn has_host(&self) -> (r: bool)
        ensures
            r == self@.host is Some,
    {
        self.host.is_some()
    }

    /// The explicit port, if any.
    pub fn port(&self) -> (r: Option<u16>)
        ensures
            r == self@.port,
    {
        self.port
    }

    /// The path.
    pub fn path(&self) -> (r: &str)
        ensures
            r@ == self@.path,
    {
        self.path.as_str()
    }

    /// The `url` crate's value that the parts were read from.
    pub closed spec fn lib_value(&self) -> url::Url {
        self.lib
    }

    /// The `url` crate's value that these parts were read from.
    pub fn as_lib(&self) -> (r: &url::Url)
        ensures
            *r == self.lib_value(),
    {
        &self.lib
    }

    /// Calls `url::Url::set_host(Some(host))` and reads the parts again. Claims that on `Ok`
    /// the URL becomes the named `url_set_host` of its old parts and the host, and that the
    /// error's message is that result's error. The new URL keeps the scheme, credentials,
    /// port, path, query and fragment (the source rewrites only the host, between the
    /// unchanged user info and the unchanged suffix), and it has a host when the argument is
    /// not empty (an empty argument gives an empty opaque host, which counts as none). What
    /// the URL holds after an error is not stated.
    #[verifier::external_body]
    pub(crate) fn set_host(&mut self, host: &str) -> (r: Result<(), String>)
        requires
            setter_fits(old(self)@, host@),
        ensures
            match url_set_host(old(self)@, host@) {
                Ok(v) => r is Ok && final(self)@ == v,
                Err(m) => r matches Err(e) && e@ == m,
            },
            r is Ok ==> same_scheme_credentials_query_fragment(old(self)@, final(self)@),
            r is Ok ==> final(self)@.port == old(self)@.port && final(self)@.path == old(self)@.path,
            r is Ok && host@.len() > 0 ==> final(self)@.host is Some,
    {
        let r = self.lib.set_host(Some(host));
        let u = &self.lib;
        (self.serialization, self.scheme, self.username) = (u.as_str().into(), u.scheme().into(), u.username().into());
        (self.password, self.host, self.port) = (u.password().map(Into::into), u.host_str().map(Into::into), u.port());
        (self.path, self.query, self.fragment) = (u.path().into(), u.query().map(Into::into), u.fragment().map(Into::into));
        r.map_err(|e| e.to_string())
    }

    /// Calls `url::Url::set_port(Some(port))` and reads the parts again. Claims that it
    /// returns `Err(())` exactly where the URL has no host, an empty host, or the `file`
    /// scheme; that otherwise the URL is left as it was where its explicit port is already the
    /// one `set_port` would leave (the port, or none where that is the scheme's known
    /// default), and becomes the named `url_port_rewrite` of its old parts and the port where
    /// not. The new URL keeps everything but the port and the serialization (all as the
    /// source's `set_port` and `set_port_internal` show). What the URL holds after an error
    /// is not stated.
    #[verifier::external_body]
    pub(crate) fn set_port(&mut self, port: u16) -> (r: bool)
        requires
            setter_fits(old(self)@, seq![]),
        ensures
            match url_set_port(old(self)@, port) {
                Some(v) => r && final(self)@ == v,
                None => !r,
            },
            r <==> !port_refused(old(self)@),
            r ==> same_scheme_credentials_query_fragment(old(self)@, final(self)@),
            r ==> final(self)@.host == old(self)@.host && final(self)@.path == old(self)@.path,
            r ==> final(self)@.port == port_after_set(old(self)@.scheme, port),
            r && port_after_set(old(self)@.scheme, port) != old(self)@.port ==> final(self)@
                == url_port_rewrite(old(self)@, port),
    {
        let r = self.lib.set_port(Some(port));
        let u = &self.lib;
        (self.serialization, self.scheme, self.username) = (u.as_str().into(), u.scheme().into(), u.username().into());
        (self.password, self.host, self.port) = (u.password().map(Into::into), u.host_str().map(Into::into), u.port());
        (self.path, self.query, self.fragment) = (u.path().into(), u.query().map(Into::into), u.fragment().map(Into::into));
        r.is_ok()
    }

    /// Calls `url::Url::set_path(path)` and reads the parts again. Claims that the URL
    /// becomes the named `url_set_path` of its old parts and the path, which keeps the
    /// scheme, credentials, host, port, query and fragment (the source rewrites only from the
    /// path's start and puts the query and fragment back). Nothing is claimed of setting the
    /// same path twice: where the new path makes the URL cannot-be-a-base, the second call
    /// writes it another way.
    #[verifier::external_body]
    pub(crate) fn set_path(&mut self, path: &str)
        requires
            setter_fits(old(self)@, path@),
        ensures
            final(self)@ == url_set_path(old(self)@, path@),
            same_scheme_credentials_query_fragment(old(self)@, final(self)@),
            final(self)@.host == old(self)@.host,
            final(self)@.port == old(self)@.port,
    {
        self.lib.set_path(path);
        let u = &self.lib;
        (self.serialization, self.scheme, self.username) = (u.as_str().into(), u.scheme().into(), u.username().into());
        (self.password, self.host, self.port) = (u.password().map(Into::into), u.host_str().map(Into::into), u.port());
        (self.path, self.query, self.fragment) = (u.path().into(), u.query().map(Into::into), u.fragment().map(Into::into));
    }
}


/// A URL with one or more hosts: the URL of the first host's position, which carries the
/// rest of the URL, and the URLs of the other hosts, if there are any.
#[derive(Debug, Clone)]
pub struct MultiHostUrl {
    pub ref_url: ParsedUrl,
    pub extra_urls: Option<Vec<ParsedUrl>>,
}

/// A `MultiHostUrl` taken by the views of its URLs.
pub struct MultiHostUrlView {
    pub ref_url: UrlView,
    pub extra_urls: Option<Seq<UrlView>>,
}

/// The views of a sequence of URLs.
pub open spec fn urls_view(urls: Seq<ParsedUrl>) -> Seq<UrlView> {
    urls.map_values(|u: ParsedUrl| u@)
}

impl View for MultiHostUrl {
    type V = MultiHostUrlView;

    open spec fn view(&self) -> MultiHostUrlView {
        MultiHostUrlView {
            ref_url: self.ref_url@,
            extra_urls: match self.extra_urls {
                Some(v) => Some(urls_view(v@)),
                None => None,
            },
        }
    }
}

impl MultiHostUrl {
    pub fn new(ref_url: ParsedUrl, extra_urls: Option<Vec<ParsedUrl>>) -> (r: Self)
        ensures
            r.ref_url == ref_url,
            r.extra_urls == extra_urls,
    {
        MultiHostUrl { ref_url, extra_urls }
    }

    /// The URL that carries the scheme, the path and what follows.
    pub fn lib_url(&self) -> (r: &ParsedUrl)
        ensures
            r == self.ref_url,
    {
        &self.ref_url
    }
}

/// The schemes that the URL standard calls special.
pub open spec fn is_special_scheme(scheme: Seq<char>) -> bool {
    ||| scheme == "http"@
    ||| scheme == "https"@
    ||| scheme == "ws"@
    ||| scheme == "wss"@
    ||| scheme == "ftp"@
    ||| scheme == "file"@
}

/// Whether a (lower-case) scheme is special.
pub fn schema_is_special(schema: &str) -> (r: bool)
    ensures
        r == is_special_scheme(schema@),
{
    let s = String::from_str(schema);
    s == String::from_str("http") || s == String::from_str("https") || s == String::from_str("ws")
        || s == String::from_str("wss") || s == String::from_str("ftp") || s
        == String::from_str("file")
}

/// A string with each ASCII upper-case letter mapped to its lower-case letter.
pub open spec fn ascii_lowercase(s: Seq<char>) -> Seq<char> {
    s.map_values(|c: char| if 'A' <= c && c <= 'Z' { ((c as u32) + 32) as char } else { c })
}

/// `str::to_ascii_lowercase`, which std documents as mapping 'A' to 'Z' to 'a' to 'z' and
/// leaving every other character unchanged.
#[verifier::external_body]
pub(crate) fn to_ascii_lowercase(s: &str) -> (r: String)
    ensures
        r@ == ascii_lowercase(s@),
{
    s.to_ascii_lowercase()
}


/// Whether the URL and a setter's argument are short enough for the setter (`setter_fits`).
pub(crate) fn fits_for_setter(url: &ParsedUrl, arg: &str) -> (r: bool)
    ensures
        r == setter_fits(url@, arg@),
{
    let a = url.as_str().len() as u64;
    let b = arg.len() as u64;
    a < 0x1_0000_0000 && b < 0x1_0000_0000 && a + 64 * b + 64 < 0xffff_ffff
}

} // verus!
