//! Addresses: how they are read, joined and gone to.
use vstd::prelude::*;

use crate::address::{ServerUrl, UrlFault};
use crate::address;
use crate::config::WebDriverConfig;
use crate::error::{WebDriverErrorInner, WebDriverResult};
use crate::json::JsonValue;
use crate::session::SessionHandle;
use crate::types::SessionId;

verus! {

/// A text is an address as it can be parsed. The two ways to parse one differ in how they say why
/// it cannot.
pub proof fn law_addresses_are_parsed(text: &str)
    ensures
        forall|r: WebDriverResult<ServerUrl>| #[trigger]
            call_ensures(ServerUrl::into_url, (text,), r) ==> match r {
                Ok(s) => address::parsed_url(text@) matches Ok(u) && s@ == u,
                Err(e) => address::parsed_url(text@) matches Err(f) && (
                e@ matches WebDriverErrorInner::ParseError(m) && m@ == "url parse err "@
                    + f.message),
            },
        forall|r: Result<ServerUrl, UrlFault>| #[trigger]
            call_ensures(ServerUrl::parse, (text,), r) ==> match r {
                Ok(s) => address::parsed_url(text@) matches Ok(u) && s@ == u,
                Err(e) => address::parsed_url(text@) matches Err(f) && e.message@ == f.message
                    && e.relative == f.relative,
            },
{
}

/// A reference is joined to an address, and not the address to the reference. Both ways to join them
/// come to the same.
pub proof fn law_addresses_are_joined(s: &ServerUrl, reference: &str)
    ensures
        forall|r: WebDriverResult<String>| #[trigger]
            call_ensures(ServerUrl::join, (s, reference), r) ==> match r {
                Ok(t) => address::joined_url(s@, reference@) matches Ok(u) && t@ == u,
                Err(e) => address::joined_url(s@, reference@) matches Err(f) && (
                e@ matches WebDriverErrorInner::ParseError(m) && m@ == "invalid url: "@ + f),
            },
        forall|r: Result<ServerUrl, String>| #[trigger]
            call_ensures(ServerUrl::at, (s, reference), r) ==> match r {
                Ok(t) => address::joined_url(s@, reference@) matches Ok(u) && t@ == u,
                Err(m) => address::joined_url(s@, reference@) matches Err(f) && m@ == f,
            },
{
}

/// An address is its text, and has its own user and password.
pub proof fn law_address_parts(s: &ServerUrl)
    ensures
        forall|r: String| #[trigger] call_ensures(ServerUrl::to_text, (s,), r) ==> r@ == s@,
        forall|r: String| #[trigger]
            call_ensures(ServerUrl::username, (s,), r) ==> r@ == address::url_username(s@),
        forall|r: Option<String>| #[trigger]
            call_ensures(ServerUrl::password, (s,), r) ==> match r {
                Some(p) => address::url_password(s@) == Some(p@),
                None => address::url_password(s@) is None,
            },
{
}

/// An address that can be gone to as it is stays as it is. A relative one is tried with `https`, and
/// no other one is. The fault is that of the last try.
pub proof fn law_choose_navigation(
    text: String,
    as_is: Result<(), UrlFault>,
    with_scheme: Result<(), UrlFault>,
    r: Result<String, UrlFault>,
)
    requires
        call_ensures(address::choose_navigation, (text, as_is, with_scheme), r),
    ensures
        as_is is Ok ==> r is Ok,
        as_is is Ok && r is Ok ==> r->Ok_0@ == text@,
        as_is matches Err(f) ==> (!f.relative ==> r == Err::<String, UrlFault>(f)),
        as_is matches Err(f) ==> (f.relative && with_scheme is Ok ==> (r matches Ok(t) && t@
            == "https://"@ + text@)),
        as_is matches Err(f) ==> (f.relative ==> (with_scheme matches Err(g) ==> (r matches Err(h)
            && h == g))),
{
}

/// The address that a session is sent to, from the text alone.
pub proof fn law_navigation(text: String, r: WebDriverResult<String>)
    requires
        call_ensures(address::navigation_address, (text,), r),
    ensures
        match address::parsed_url(text@) {
            Ok(_) => r matches Ok(t) && t@ == text@,
            Err(f) => if f.relative {
                match address::parsed_url("https://"@ + text@) {
                    Ok(_) => r matches Ok(t) && t@ == "https://"@ + text@,
                    Err(g) => r matches Err(e) && e@ matches WebDriverErrorInner::InvalidUrl(m)
                        && m@ == g.message,
                }
            } else {
                r matches Err(e) && e@ matches WebDriverErrorInner::InvalidUrl(m) && m@ == f.message
            },
        },
{
}

/// An address that a session is at must be one, and is told as it was parsed.
pub proof fn law_location(text: String, r: WebDriverResult<String>)
    requires
        call_ensures(address::located_address, (text,), r),
    ensures
        match address::parsed_url(text@) {
            Ok(u) => r matches Ok(t) && t@ == u,
            Err(f) => r matches Err(e) && e@ matches WebDriverErrorInner::ParseError(m) && m@
                == "invalid url: "@ + text@ + ": "@ + f.message,
        },
{
}

/// A session is made of what it is given, and has not been quit. Its server must have an address.
pub proof fn law_new_session<H, G>(
    client: H,
    server: &str,
    id: SessionId,
    config: WebDriverConfig,
    guard: Option<G>,
    capabilities: JsonValue,
    r: WebDriverResult<SessionHandle<H, G>>,
)
    requires
        call_ensures(
            SessionHandle::<H, G>::new_with_config_guard_and_caps,
            (client, server, id, config, guard, capabilities),
            r,
        ),
    ensures
        match address::parsed_url(server@) {
            Ok(u) => r matches Ok(h) && h@.client == client && h@.server_url == u && h@.session_id
                == id@ && h@.capabilities == capabilities@ && h@.config == config && !h@.quit
                && h@.driver_guard == guard,
            Err(f) => r matches Err(e) && e@ matches WebDriverErrorInner::ParseError(m) && m@
                == "url parse err "@ + f.message,
        },
{
}

} // verus!
