//! The data of an HTTP request to the WebDriver server.
use crate::json;
use crate::json::{Json, JsonValue};
use crate::text::{cat3, cat5};
use crate::types::{IntoArcStr, IntoTransfer};
use crate::wire;
use vstd::prelude::*;

verus! {

/// The methods of HTTP.
#[allow(clippy::upper_case_acronyms)]
#[derive(Debug, Clone, Copy, PartialEq, Eq, Structural)]
pub enum Method {
    GET,
    POST,
    PUT,
    PATCH,
    DELETE,
    HEAD,
    OPTIONS,
}

impl Method {
    /// The name of the method.
    pub open spec fn name(self) -> Seq<char> {
        match self {
            Method::GET => "GET"@,
            Method::POST => "POST"@,
            Method::PUT => "PUT"@,
            Method::PATCH => "PATCH"@,
            Method::DELETE => "DELETE"@,
            Method::HEAD => "HEAD"@,
            Method::OPTIONS => "OPTIONS"@,
        }
    }

    /// The name of the method.
    pub fn to_text(&self) -> (r: String)
        ensures
            r@ == self.name(),
    {
        match self {
            Method::GET => "GET".to_owned(),
            Method::POST => "POST".to_owned(),
            Method::PUT => "PUT".to_owned(),
            Method::PATCH => "PATCH".to_owned(),
            Method::DELETE => "DELETE".to_owned(),
            Method::HEAD => "HEAD".to_owned(),
            Method::OPTIONS => "OPTIONS".to_owned(),
        }
    }
}

/// RequestData is a wrapper around the data required to make an HTTP request.
#[derive(Debug)]
pub struct RequestData {
    /// The request method.
    pub method: Method,
    /// The request URI.
    pub uri: String,
    /// The request body.
    pub body: Option<JsonValue>,
}

/// What a request stands for.
pub struct RequestView {
    pub method: Method,
    pub uri: Seq<char>,
    pub body: Option<Json>,
}

impl RequestData {
    /// What this request stands for.
    pub open spec fn view(&self) -> RequestView {
        RequestView { method: self.method, uri: self.uri@, body: json::opt_view(self.body) }
    }

    /// Create a new RequestData struct.
    pub fn new<S: IntoArcStr>(method: Method, uri: S) -> (r: Self)
        ensures
            r@ == (RequestView { method, uri: uri.text(), body: None }),
    {
        RequestData { method, uri: IntoTransfer::into(uri), body: None }
    }

    /// Add a request body.
    pub fn add_body(self, body: JsonValue) -> (r: Self)
        ensures
            r@ == (RequestView { body: Some(body@), ..self@ }),
    {
        RequestData { method: self.method, uri: self.uri, body: Some(body) }
    }

    /// The request as people read it: method, address, and the body where there is one.
    pub fn to_text(&self) -> (r: String)
        ensures
            match self.body {
                Some(b) => r@ == self.method.name() + " "@ + self.uri@ + " "@ + wire::text_of_json(
                    wire::settled(b@),
                ),
                None => r@ == self.method.name() + " "@ + self.uri@,
            },
    {
        match &self.body {
            Some(body) => cat5(
                self.method.to_text().as_str(),
                " ",
                self.uri.as_str(),
                " ",
                body.to_text().as_str(),
            ),
            None => cat3(self.method.to_text().as_str(), " ", self.uri.as_str()),
        }
    }
}

} // verus!
