//! Options of a session.
use crate::duration::Duration;
use crate::error::{WebDriverError, WebDriverErrorInner, WebDriverResult};
use crate::poller::{ElementPollerNoWait, ElementPollerWithTimeout, IntoElementPoller};
use crate::text::{cat2, cat5};
use vstd::prelude::*;

verus! {

/// The poller of a session.
#[derive(Debug)]
pub enum SessionPoller {
    /// Polls up to a timeout.
    WithTimeout(ElementPollerWithTimeout),
    /// Tries once.
    NoWait(ElementPollerNoWait),
}

impl SessionPoller {
    /// Whether this poller is another one that starts.
    pub open spec fn starts(&self, other: SessionPoller) -> bool {
        match (self, other) {
            (SessionPoller::WithTimeout(p), SessionPoller::WithTimeout(q)) => p.timeout()
                == q.timeout() && p.interval() == q.interval() && p.tries() == 0,
            (SessionPoller::NoWait(_), SessionPoller::NoWait(_)) => true,
            _ => false,
        }
    }

    /// Starts the poller.
    pub fn start(&self) -> (r: Self)
        ensures
            r.starts(*self),
    {
        match self {
            SessionPoller::WithTimeout(p) => SessionPoller::WithTimeout(
                IntoElementPoller::start(p),
            ),
            SessionPoller::NoWait(p) => SessionPoller::NoWait(IntoElementPoller::start(p)),
        }
    }
}

impl Clone for SessionPoller {
    fn clone(&self) -> (r: Self)
        ensures
            r == *self,
    {
        match self {
            SessionPoller::WithTimeout(p) => SessionPoller::WithTimeout(p.clone()),
            SessionPoller::NoWait(p) => SessionPoller::NoWait(*p),
        }
    }
}

/// Configuration options used by a `WebDriver` instance and the related `SessionHandle`.
///
/// The configuration of a `WebDriver` will be shared by all elements found via that instance.
#[derive(Debug)]
pub struct WebDriverConfig {
    /// If true, send the "Connection: keep-alive" header with all requests.
    pub keep_alive: bool,
    /// The default poller to use when performing element queries or waits.
    pub poller: SessionPoller,
    /// The user agent to use when sending commands to the webdriver server.
    pub user_agent: String,
    /// The timeout duration for reqwest client requests.
    pub reqwest_timeout: Duration,
}

impl Clone for WebDriverConfig {
    fn clone(&self) -> (r: Self)
        ensures
            r == *self,
    {
        WebDriverConfig {
            keep_alive: self.keep_alive,
            poller: self.poller.clone(),
            user_agent: self.user_agent.clone(),
            reqwest_timeout: self.reqwest_timeout,
        }
    }
}

/// The user agent of this library at a version, built by a compiler for an operating system.
pub open spec fn agent(version: Seq<char>, rust: Seq<char>, os: Seq<char>) -> Seq<char> {
    "thirtyfour/"@ + version + " (rust/"@ + rust + ("; "@ + os) + ")"@
}

/// Whether a poller waits up to twenty seconds, and tries every half a second.
pub open spec fn is_default_poller(poller: SessionPoller) -> bool {
    poller matches SessionPoller::WithTimeout(p) && p.timeout()@ == 20 * 1_000_000_000
        && p.interval()@ == 500 * 1_000_000 && p.tries() == 0
}

/// Whether a character can stand in the value of a header: any one but a control character, and a
/// tab.
pub open spec fn header_char(c: char) -> bool {
    c == '\t' || (c as u32 >= 32 && c as u32 != 127)
}

/// Whether a text can be the value of a header.
pub open spec fn is_header_text(text: Seq<char>) -> bool {
    forall|i: int| 0 <= i < text.len() ==> #[trigger] header_char(text[i])
}

/// `http::HeaderValue::from_str`: it takes a text of which each byte is a tab, or is at least 32 and
/// not 127, which holds of all bytes of a character beyond ASCII. Else its error is shown as this
/// message.
#[verifier::external_body]
fn read_header_value(text: &str) -> (r: Result<(), String>)
    ensures
        r is Ok <==> is_header_text(text@),
        r matches Err(message) ==> message@ == "failed to parse header value"@,
{
    http::HeaderValue::from_str(text).map(|_| ()).map_err(|e| e.to_string())
}

/// A user agent, in a form that a header can hold.
pub fn header_text(user_agent: &str) -> (r: WebDriverResult<String>)
    ensures
        match r {
            Ok(s) => is_header_text(user_agent@) && s@ == user_agent@,
            Err(e) => !is_header_text(user_agent@) && (e@ matches WebDriverErrorInner::ParseError(m)
                && m@ == "failed to parse header value"@),
        },
{
    match read_header_value(user_agent) {
        Ok(_) => Ok(user_agent.to_owned()),
        Err(message) => Err(WebDriverError::ParseError(message)),
    }
}

impl WebDriverConfig {
    /// Create new `WebDriverConfigBuilder`.
    pub fn builder() -> (r: WebDriverConfigBuilder)
        ensures
            r.is_new(),
    {
        WebDriverConfigBuilder::new()
    }

    /// Get the default user agent.
    pub fn default_user_agent(version: &str, rust: &str, os: &str) -> (r: String)
        ensures
            r@ == agent(version@, rust@, os@),
    {
        let os: String = cat2("; ", os);
        let mut r: String = cat5("thirtyfour/", version, " (rust/", rust, os.as_str());
        r.append(")");
        r
    }
}

/// Builder for `WebDriverConfig`.
#[derive(Debug)]
pub struct WebDriverConfigBuilder {
    keep_alive: bool,
    poller: Option<SessionPoller>,
    user_agent: Option<WebDriverResult<String>>,
    reqwest_timeout: Duration,
}

/// What a builder stands for.
pub struct BuilderView {
    pub keep_alive: bool,
    pub poller: Option<SessionPoller>,
    pub user_agent: Option<WebDriverResult<String>>,
    pub reqwest_timeout: Duration,
}

impl WebDriverConfigBuilder {
    /// What this builder stands for.
    pub closed spec fn view(&self) -> BuilderView {
        BuilderView {
            keep_alive: self.keep_alive,
            poller: self.poller,
            user_agent: self.user_agent,
            reqwest_timeout: self.reqwest_timeout,
        }
    }

    /// Nothing is set but the defaults: connections are kept, and requests take up to two minutes.
    pub open spec fn is_new(&self) -> bool {
        &&& self@.keep_alive
        &&& self@.poller is None
        &&& self@.user_agent is None
        &&& self@.reqwest_timeout@ == 120 * 1_000_000_000
    }

    /// Create a new `WebDriverConfigBuilder`.
    pub fn new() -> (r: Self)
        ensures
            r.is_new(),
    {
        WebDriverConfigBuilder {
            keep_alive: true,
            poller: None,
            user_agent: None,
            reqwest_timeout: Duration::from_secs(120),
        }
    }

    /// Set the keep_alive option.
    pub fn keep_alive(self, keep_alive: bool) -> (r: Self)
        ensures
            r@ == (BuilderView { keep_alive, ..self@ }),
    {
        WebDriverConfigBuilder {
            keep_alive,
            poller: self.poller,
            user_agent: self.user_agent,
            reqwest_timeout: self.reqwest_timeout,
        }
    }

    /// Set the specified element poller.
    pub fn poller(self, poller: SessionPoller) -> (r: Self)
        ensures
            r@ == (BuilderView { poller: Some(poller), ..self@ }),
    {
        WebDriverConfigBuilder {
            keep_alive: self.keep_alive,
            poller: Some(poller),
            user_agent: self.user_agent,
            reqwest_timeout: self.reqwest_timeout,
        }
    }

    /// Set the user agent: the text of a header value, or the error of making one.
    pub fn user_agent(self, user_agent: WebDriverResult<String>) -> (r: Self)
        ensures
            r@ == (BuilderView { user_agent: Some(user_agent), ..self@ }),
    {
        WebDriverConfigBuilder {
            keep_alive: self.keep_alive,
            poller: self.poller,
            user_agent: Some(user_agent),
            reqwest_timeout: self.reqwest_timeout,
        }
    }

    /// Set the reqwest timeout.
    pub fn reqwest_timeout(self, timeout: Duration) -> (r: Self)
        ensures
            r@ == (BuilderView { reqwest_timeout: timeout, ..self@ }),
    {
        WebDriverConfigBuilder {
            keep_alive: self.keep_alive,
            poller: self.poller,
            user_agent: self.user_agent,
            reqwest_timeout: timeout,
        }
    }

    /// Build `WebDriverConfig` using builder options; the user agent is `default_agent` where
    /// none is set. It fails with the error that the user agent was set to, and only then.
    pub fn build(self, default_agent: String) -> (r: WebDriverResult<WebDriverConfig>)
        ensures
            match self@.user_agent {
                Some(Err(e)) => r == Err::<WebDriverConfig, WebDriverError>(e),
                _ => r is Ok,
            },
            r matches Ok(c) ==> {
                &&& c.keep_alive == self@.keep_alive
                &&& c.reqwest_timeout == self@.reqwest_timeout
                &&& match self@.poller {
                    Some(p) => c.poller == p,
                    None => is_default_poller(c.poller),
                }
                &&& match self@.user_agent {
                    Some(Ok(a)) => c.user_agent == a,
                    _ => c.user_agent == default_agent,
                }
            },
    {
        let user_agent: String = match self.user_agent {
            Some(Ok(a)) => a,
            Some(Err(e)) => return Err(e),
            None => default_agent,
        };
        let poller: SessionPoller = match self.poller {
            Some(p) => p,
            None => SessionPoller::WithTimeout(ElementPollerWithTimeout::default()),
        };
        Ok(
            WebDriverConfig {
                keep_alive: self.keep_alive,
                poller,
                user_agent,
                reqwest_timeout: self.reqwest_timeout,
            },
        )
    }
}

} // verus!
