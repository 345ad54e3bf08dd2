//! Drivers: a session from its start to its end.
use crate::command::{Command, CommandView};
use crate::connection;
use crate::connection::{run, RemoteConnectionSync, WebDriverHttpClientSync};
use crate::driver;
use crate::driver::{run_command, Driver};
use crate::duration::Duration;
use crate::error::{WebDriverError, WebDriverErrorInner, WebDriverResult};
use crate::json::{Json, JsonValue};
use crate::types::SessionId;
use crate::webdrivercommands;
use crate::webdrivercommands::{start_session, WebDriverSession};
use vstd::prelude::*;

verus! {

/// The capabilities that a session is asked for, in the form of the W3C standard and as they are.
#[derive(Debug)]
pub struct RequestedCapabilities {
    pub w3c: JsonValue,
    pub plain: JsonValue,
}

/// A driver on a connection of some kind.
#[derive(Debug)]
pub struct GenericWebDriver<C> {
    pub session_id: SessionId,
    conn: C,
    capabilities: JsonValue,
    quit_on_drop: bool,
}

/// The driver that one gets from a builder.
pub type WebDriver<C> = GenericWebDriver<C>;

/// Whether `r` may be the driver that a client comes to, once a session was started on it.
pub open spec fn drives<C: RemoteConnectionSync>(
    client: C,
    w3c_caps: Json,
    caps: Json,
    r: WebDriverResult<GenericWebDriver<C>>,
) -> bool {
    exists|started: WebDriverResult<(SessionId, JsonValue)>| #[trigger]
        webdrivercommands::starts(client, w3c_caps, caps, started) && match started {
            Err(e) => r == Err::<GenericWebDriver<C>, WebDriverError>(e),
            Ok(s) => r matches Ok(d) && d.sid() == s.0@ && d.connection() == client
                && d.granted() == s.1@ && d.to_be_quit(),
        }
}

/// Whether `r` may be the driver for the server at an address.
pub open spec fn connects<C: WebDriverHttpClientSync>(
    address: Seq<char>,
    w3c_caps: Json,
    caps: Json,
    r: WebDriverResult<GenericWebDriver<C>>,
) -> bool {
    exists|a: &str, made: WebDriverResult<C>|
        a@ == address && #[trigger] call_ensures(C::create, (a,), made) && match made {
            Err(e) => r == Err::<GenericWebDriver<C>, WebDriverError>(e),
            Ok(client) => drives(client, w3c_caps, caps, r),
        }
}

impl<C> GenericWebDriver<C> {
    /// The session.
    pub closed spec fn sid(&self) -> Seq<char> {
        self.session_id@
    }

    /// The connection.
    pub closed spec fn connection(&self) -> C {
        self.conn
    }

    /// The capabilities that the server granted.
    pub closed spec fn granted(&self) -> Json {
        self.capabilities@
    }

    /// Whether the session is still to be quit.
    pub closed spec fn to_be_quit(&self) -> bool {
        self.quit_on_drop
    }

    /// Return the actual capabilities as returned by Selenium.
    pub fn capabilities(&self) -> (r: JsonValue)
        ensures
            r@ == self.granted(),
    {
        self.capabilities.clone()
    }

    /// Whether there is a session that must be ended when the driver is no longer used.
    pub fn needs_quit(&self) -> (r: bool)
        ensures
            r == (self.to_be_quit() && self.sid().len() != 0),
    {
        self.quit_on_drop && !self.session_id.as_str().is_empty()
    }

    /// The session of this driver.
    pub fn session(&self) -> (r: WebDriverSession<'_, C>)
        ensures
            r.connection() == self.connection(),
            r.session() == self.sid(),
    {
        WebDriverSession::new(&self.session_id, &self.conn)
    }
}

impl<C: RemoteConnectionSync> Driver for GenericWebDriver<C> {
    open spec fn id(&self) -> Seq<char> {
        self.sid()
    }

    open spec fn may_answer(&self, command: CommandView, reply: WebDriverResult<JsonValue>) -> bool {
        connection::may_reply(self.connection(), self.sid(), command, reply)
    }

    fn session_id(&self) -> (r: &SessionId) {
        &self.session_id
    }

    fn cmd(&self, command: Command) -> (r: WebDriverResult<JsonValue>) {
        run(&self.conn, &self.session_id, command)
    }
}

impl<C: RemoteConnectionSync> GenericWebDriver<C> {
    /// Create a new WebDriver with a client that is there already.
    pub fn new_with_client(client: C, capabilities: RequestedCapabilities) -> (r: WebDriverResult<
        Self,
    >)
        ensures
            drives(client, capabilities.w3c@, capabilities.plain@, r),
    {
        match start_session(&client, capabilities.w3c, capabilities.plain) {
            Ok((session_id, granted)) => Ok(
                GenericWebDriver {
                    session_id,
                    conn: client,
                    capabilities: granted,
                    quit_on_drop: true,
                },
            ),
            Err(e) => Err(e),
        }
    }

    /// End the webdriver session. The session stays to be quit where that failed.
    pub fn quit(&mut self) -> (r: WebDriverResult<()>)
        ensures
            driver::runs(*old(self), CommandView::DeleteSession, r),
            final(self).sid() == old(self).sid(),
            final(self).connection() == old(self).connection(),
            final(self).granted() == old(self).granted(),
            final(self).to_be_quit() == (old(self).to_be_quit() && r is Err),
    {
        match run_command(&*self, Command::DeleteSession) {
            Ok(_) => {
                self.quit_on_drop = false;
                Ok(())
            },
            Err(e) => Err(e),
        }
    }
}

impl<C: WebDriverHttpClientSync> GenericWebDriver<C> {
    /// Create a new synchronous WebDriver struct.
    pub fn new(remote_server_addr: &str, capabilities: RequestedCapabilities) -> (r:
        WebDriverResult<Self>)
        ensures
            connects(remote_server_addr@, capabilities.w3c@, capabilities.plain@, r),
    {
        match C::create(remote_server_addr) {
            Ok(client) => GenericWebDriver::new_with_client(client, capabilities),
            Err(e) => Err(e),
        }
    }
}

/// What an HTTP client is made from.
#[derive(Debug)]
pub struct HttpClientCreateParams {
    pub server_url: String,
    pub timeout: Option<Duration>,
}

/// A connection that can be made from more than the address of the server.
pub trait CreateHttpClient: RemoteConnectionSync {
    /// Create a new connection.
    fn create(params: HttpClientCreateParams) -> WebDriverResult<Self>;
}

/// Builder for WebDriver sessions.
#[derive(Debug)]
pub struct WebDriverBuilder {
    create_params: HttpClientCreateParams,
    capabilities: Result<RequestedCapabilities, String>,
}

/// Whether `r` may be the driver that is built from the parameters of its client.
pub open spec fn builds<C: CreateHttpClient>(
    server_url: Seq<char>,
    timeout: Option<Duration>,
    capabilities: Result<RequestedCapabilities, String>,
    r: WebDriverResult<GenericWebDriver<C>>,
) -> bool {
    match capabilities {
        Err(message) => r matches Err(e) && e@ == WebDriverErrorInner::SessionCreateError(message),
        Ok(caps) => exists|params: HttpClientCreateParams, made: WebDriverResult<C>|
            params.server_url@ == server_url && params.timeout == timeout && #[trigger] call_ensures(
                <C as CreateHttpClient>::create,
                (params,),
                made,
            ) && match made {
                Err(e) => r == Err::<GenericWebDriver<C>, WebDriverError>(e),
                Ok(client) => drives(client, caps.w3c@, caps.plain@, r),
            },
    }
}

impl WebDriverBuilder {
    /// The address of the server.
    pub closed spec fn server_url(&self) -> Seq<char> {
        self.create_params.server_url@
    }

    /// The timeout of the client.
    pub closed spec fn client_timeout(&self) -> Option<Duration> {
        self.create_params.timeout
    }

    /// The capabilities, or why there are none.
    pub closed spec fn requested(&self) -> Result<RequestedCapabilities, String> {
        self.capabilities
    }

    /// Create a new builder, with a timeout of two minutes.
    pub fn new(server_url: &str, capabilities: Result<RequestedCapabilities, String>) -> (r: Self)
        ensures
            r.server_url() == server_url@,
            r.client_timeout() matches Some(d) && d@ == 120_000_000_000,
            r.requested() == capabilities,
    {
        WebDriverBuilder {
            create_params: HttpClientCreateParams {
                server_url: server_url.to_owned(),
                timeout: Some(Duration::from_secs(120)),
            },
            capabilities,
        }
    }

    /// Set the request timeout for the HTTP client.
    pub fn timeout(self, timeout: Option<Duration>) -> (r: Self)
        ensures
            r.server_url() == self.server_url(),
            r.client_timeout() == timeout,
            r.requested() == self.requested(),
    {
        WebDriverBuilder {
            create_params: HttpClientCreateParams {
                server_url: self.create_params.server_url,
                timeout,
            },
            capabilities: self.capabilities,
        }
    }

    /// Build the WebDriver with a client of the kind that is asked for.
    pub fn build_custom_client<C: CreateHttpClient>(self) -> (r: WebDriverResult<
        GenericWebDriver<C>,
    >)
        ensures
            builds(self.server_url(), self.client_timeout(), self.requested(), r),
    {
        let caps: RequestedCapabilities = match self.capabilities {
            Ok(caps) => caps,
            Err(message) => return Err(WebDriverError::SessionCreateError(message)),
        };
        match <C as CreateHttpClient>::create(self.create_params) {
            Ok(client) => GenericWebDriver::new_with_client(client, caps),
            Err(e) => Err(e),
        }
    }
}

impl<C: CreateHttpClient> GenericWebDriver<C> {
    /// Create a new WebDriver, whose client has the specified timeout.
    pub fn new_with_timeout(
        server_url: &str,
        capabilities: Result<RequestedCapabilities, String>,
        timeout: Option<Duration>,
    ) -> (r: WebDriverResult<Self>)
        ensures
            builds(server_url@, timeout, capabilities, r),
    {
        WebDriverBuilder::new(server_url, capabilities).timeout(timeout).build_custom_client()
    }
}

} // verus!
