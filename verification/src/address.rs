//! Addresses: URLs, by the `url` crate.
use crate::error::{WebDriverError, WebDriverErrorInner, WebDriverResult};
use crate::text;
use crate::text::{cat2, cat4, trim_end};
use vstd::prelude::*;

verus! {

/// A URL of the `url` crate, carried from one call into that crate to the next.
#[verifier::external_type_specification]
#[verifier::external_body]
pub struct ExUrl(url::Url);

/// Why a text is no URL.
#[derive(Debug)]
pub struct UrlFault {
    /// The text is a relative URL, and there is no base for it.
    pub relative: bool,
    /// The error's message.
    pub message: String,
}

/// What a `UrlFault` stands for.
pub struct UrlFaultView {
    pub relative: bool,
    pub message: Seq<char>,
}

impl UrlFault {
    /// What this fault stands for.
    pub open spec fn view(&self) -> UrlFaultView {
        UrlFaultView { relative: self.relative, message: self.message@ }
    }
}

/// The text of a URL, as `Url::as_str` gives it.
pub uninterp spec fn url_text(u: url::Url) -> Seq<char>;

/// The text of the URL that `Url::parse` reads.
pub uninterp spec fn parsed_url(text: Seq<char>) -> Result<Seq<char>, UrlFaultView>;

/// The text of the URL that `Url::join` makes of a base and a reference, or a message.
pub uninterp spec fn joined_url(base: Seq<char>, reference: Seq<char>) -> Result<
    Seq<char>,
    Seq<char>,
>;

/// The user name in a URL, as `Url::username` gives it.
pub uninterp spec fn url_username(url: Seq<char>) -> Seq<char>;

/// The password in a URL, as `Url::password` gives it.
pub uninterp spec fn url_password(url: Seq<char>) -> Option<Seq<char>>;

/// `Url::parse`: a URL, or why the text is none.
#[verifier::external_body]
fn url_parse(text: &str) -> (r: Result<url::Url, UrlFault>)
    ensures
        match r {
            Ok(u) => parsed_url(text@) == Ok::<Seq<char>, UrlFaultView>(url_text(u)),
            Err(f) => parsed_url(text@) == Err::<Seq<char>, UrlFaultView>(f@),
        },
{
    url::Url::parse(text).map_err(
        |e|
            UrlFault {
                relative: e == url::ParseError::RelativeUrlWithoutBase,
                message: e.to_string(),
            },
    )
}

/// `Url::join`: the URL that a reference means at a base, or the error's message.
#[verifier::external_body]
fn url_join(base: &url::Url, reference: &str) -> (r: Result<url::Url, String>)
    ensures
        match r {
            Ok(u) => joined_url(url_text(*base), reference@) == Ok::<Seq<char>, Seq<char>>(
                url_text(u),
            ),
            Err(e) => joined_url(url_text(*base), reference@) == Err::<Seq<char>, Seq<char>>(e@),
        },
{
    base.join(reference).map_err(|e| e.to_string())
}

/// `Url::as_str`: the text of a URL.
#[verifier::external_body]
fn url_as_str(u: &url::Url) -> (r: String)
    ensures
        r@ == url_text(*u),
{
    u.as_str().to_owned()
}

/// `Url::username`: the user name in a URL, empty where there is none.
#[verifier::external_body]
fn url_user(u: &url::Url) -> (r: String)
    ensures
        r@ == url_username(url_text(*u)),
{
    u.username().to_owned()
}

/// `Url::password`: the password in a URL.
#[verifier::external_body]
fn url_pass(u: &url::Url) -> (r: Option<String>)
    ensures
        text::opt_text(r) == url_password(url_text(*u)),
{
    u.password().map(|p| p.to_owned())
}

/// The address of a WebDriver server.
#[derive(Debug)]
pub struct ServerUrl {
    url: url::Url,
}

impl ServerUrl {
    /// The text of the address.
    pub closed spec fn view(&self) -> Seq<char> {
        url_text(self.url)
    }

    /// Reads an address.
    pub fn into_url(text: &str) -> (r: WebDriverResult<ServerUrl>)
        ensures
            match parsed_url(text@) {
                Ok(u) => r matches Ok(s) && s@ == u,
                Err(f) => r matches Err(e) && e@ matches WebDriverErrorInner::ParseError(m) && m@
                    == "url parse err "@ + f.message,
            },
    {
        match url_parse(text) {
            Ok(url) => Ok(ServerUrl { url }),
            Err(f) => Err(
                WebDriverError::from_inner(
                    WebDriverErrorInner::ParseError(cat2("url parse err ", f.message.as_str())),
                ),
            ),
        }
    }

    /// Reads an address below which everything at the server is: whether it ends with slashes or
    /// not makes no difference.
    pub fn directory(text: &str) -> (r: WebDriverResult<ServerUrl>)
        ensures
            match parsed_url(text::without_end(text@, '/') + "/"@) {
                Ok(u) => r matches Ok(s) && s@ == u,
                Err(f) => r matches Err(e) && e@ matches WebDriverErrorInner::ParseError(m) && m@
                    == "url parse err "@ + f.message,
            },
    {
        ServerUrl::into_url(cat2(trim_end(text, '/').as_str(), "/").as_str())
    }

    /// The address that a reference means at this server.
    pub fn join(&self, reference: &str) -> (r: WebDriverResult<String>)
        ensures
            match joined_url(self@, reference@) {
                Ok(u) => r matches Ok(s) && s@ == u,
                Err(message) => r matches Err(e) && e@ matches WebDriverErrorInner::ParseError(m)
                    && m@ == "invalid url: "@ + message,
            },
    {
        match url_join(&self.url, reference) {
            Ok(u) => Ok(url_as_str(&u)),
            Err(e) => Err(
                WebDriverError::from_inner(
                    WebDriverErrorInner::ParseError(cat2("invalid url: ", e.as_str())),
                ),
            ),
        }
    }

    /// The place that a reference means at this server.
    pub fn at(&self, reference: &str) -> (r: Result<ServerUrl, String>)
        ensures
            match joined_url(self@, reference@) {
                Ok(u) => r matches Ok(s) && s@ == u,
                Err(message) => r matches Err(m) && m@ == message,
            },
    {
        match url_join(&self.url, reference) {
            Ok(url) => Ok(ServerUrl { url }),
            Err(e) => Err(e),
        }
    }

    /// Reads an address.
    pub fn parse(text: &str) -> (r: Result<ServerUrl, UrlFault>)
        ensures
            match parsed_url(text@) {
                Ok(u) => r matches Ok(s) && s@ == u,
                Err(f) => r matches Err(e) && e@ == f,
            },
    {
        match url_parse(text) {
            Ok(url) => Ok(ServerUrl { url }),
            Err(f) => Err(f),
        }
    }

    /// The text of the address.
    pub fn to_text(&self) -> (r: String)
        ensures
            r@ == self@,
    {
        url_as_str(&self.url)
    }

    /// The user name in the address, empty where there is none.
    pub fn username(&self) -> (r: String)
        ensures
            r@ == url_username(self@),
    {
        url_user(&self.url)
    }

    /// The password in the address.
    pub fn password(&self) -> (r: Option<String>)
        ensures
            text::opt_text(r) == url_password(self@),
    {
        url_pass(&self.url)
    }
}

/// The address to navigate to: the text where it is a URL; with `https://` in front where it
/// lacks a scheme and is a URL then; and else the fault that there is.
pub open spec fn navigation_url(
    text: Seq<char>,
    as_is: Result<Seq<char>, UrlFaultView>,
    with_scheme: Result<Seq<char>, UrlFaultView>,
) -> Result<Seq<char>, UrlFaultView> {
    match as_is {
        Ok(_) => Ok(text),
        Err(f) => if f.relative {
            match with_scheme {
                Ok(_) => Ok("https://"@ + text),
                Err(g) => Err(g),
            }
        } else {
            Err(f)
        },
    }
}

/// The address to navigate to, from what reading the text, as it is and with a scheme in front,
/// came to.
pub fn choose_navigation(
    text: String,
    as_is: Result<(), UrlFault>,
    with_scheme: Result<(), UrlFault>,
) -> (r: Result<String, UrlFault>)
    ensures
        match r {
            Ok(s) => match as_is {
                Ok(_) => s == text,
                Err(f) => f.relative && with_scheme is Ok && s@ == "https://"@ + text@,
            },
            Err(g) => match as_is {
                Ok(_) => false,
                Err(f) => if f.relative {
                    with_scheme == Err::<(), UrlFault>(g)
                } else {
                    f == g
                },
            },
        },
{
    match as_is {
        Ok(_) => Ok(text),
        Err(f) => if f.relative {
            match with_scheme {
                Ok(_) => Ok(cat2("https://", text.as_str())),
                Err(g) => Err(g),
            }
        } else {
            Err(f)
        },
    }
}

/// Whether a text is a URL.
fn check_url(text: &str) -> (r: Result<(), UrlFault>)
    ensures
        match r {
            Ok(_) => parsed_url(text@) is Ok,
            Err(f) => parsed_url(text@) == Err::<Seq<char>, UrlFaultView>(f@),
        },
{
    match url_parse(text) {
        Ok(_) => Ok(()),
        Err(f) => Err(f),
    }
}

/// The address to navigate to for a text.
pub fn navigation_address(text: String) -> (r: WebDriverResult<String>)
    ensures
        match navigation_url(text@, parsed_url(text@), parsed_url("https://"@ + text@)) {
            Ok(u) => r matches Ok(s) && s@ == u,
            Err(f) => r matches Err(e) && e@ matches WebDriverErrorInner::InvalidUrl(m) && m@
                == f.message,
        },
{
    let as_is: Result<(), UrlFault> = check_url(text.as_str());
    let with_scheme: Result<(), UrlFault> = check_url(cat2("https://", text.as_str()).as_str());
    match choose_navigation(text, as_is, with_scheme) {
        Ok(s) => Ok(s),
        Err(f) => Err(WebDriverError::from_inner(WebDriverErrorInner::InvalidUrl(f.message))),
    }
}

/// The URL that the server says it is at, as the `url` crate writes it.
pub fn located_address(text: String) -> (r: WebDriverResult<String>)
    ensures
        match parsed_url(text@) {
            Ok(u) => r matches Ok(s) && s@ == u,
            Err(f) => r matches Err(e) && e@ matches WebDriverErrorInner::ParseError(m) && m@
                == "invalid url: "@ + text@ + ": "@ + f.message,
        },
{
    match url_parse(text.as_str()) {
        Ok(u) => Ok(url_as_str(&u)),
        Err(f) => Err(
            WebDriverError::from_inner(
                WebDriverErrorInner::ParseError(
                    cat4("invalid url: ", text.as_str(), ": ", f.message.as_str()),
                ),
            ),
        ),
    }
}

/// An address that is a URL is navigated to as it stands, and nothing is put in front of it.
pub proof fn lemma_navigation_keeps_urls(text: Seq<char>)
    requires
        parsed_url(text) is Ok,
    ensures
        navigation_url(text, parsed_url(text), parsed_url("https://"@ + text)) == Ok::<
            Seq<char>,
            UrlFaultView,
        >(text),
{
}

} // verus!
