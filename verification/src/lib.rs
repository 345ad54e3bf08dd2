//! A client for browsers that speak the WebDriver protocol.
//!
//! The library decides what is sent and what an answer means: commands and the requests that they
//! are, sessions, elements and queries for them, actions, capabilities, cookies, errors, the code
//! of components, and the search for a driver. It sends nothing itself: requests go through an
//! `HttpClient` or a `RemoteConnectionSync`, and time through a `Clock`.
use vstd::prelude::*;

pub mod action;
pub mod action_chain;
pub mod address;
pub mod bytoken;
pub mod capabilities;
pub mod cdp;
pub mod command;
pub mod component;
pub mod conditions;
pub mod config;
pub mod connection;
pub mod cookie;
pub mod driver;
pub mod duration;
pub mod encoding;
pub mod error;
pub mod firefox;
pub mod found;
pub mod http;
pub mod json;
pub mod keys;
pub mod laws;
pub mod manager;
pub mod needle;
pub mod poller;
pub mod print;
pub mod query;
pub mod reply;
pub mod request;
pub mod resolver;
pub mod session;
pub mod switch_to;
pub mod text;
pub mod types;
pub mod webdriver;
pub mod webdrivercommands;
pub mod webelement;
pub mod wire;

verus! {

} // verus!
