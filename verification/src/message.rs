//! Requests and responses as plain values: what a client hands to its
//! transport and what the transport hands back.

use crate::descriptor::{
    application_json, content_type, content_type_json, content_type_name, HttpMethod,
};
use crate::fields::Fields;
use crate::status::HttpStatus;
use crate::text::{decimal, decimal_text};
use vstd::prelude::*;

verus! {

/// A request ready to be sent.
#[derive(Debug)]
pub struct HttpRequest {
    /// The verb.
    pub method: HttpMethod,
    /// The target: the URL of the endpoint, followed by a question mark and
    /// the query string where the request has one.
    pub uri: String,
    /// The headers, each name once.
    pub headers: Fields,
    /// The body; `None` where the request has none.
    pub body: Option<String>,
}

/// An `HttpRequest` as specifications see it.
pub struct HttpRequestView {
    pub method: HttpMethod,
    pub uri: Seq<char>,
    pub headers: Map<Seq<char>, Seq<char>>,
    pub body: Option<Seq<char>>,
}

impl View for HttpRequest {
    type V = HttpRequestView;

    open spec fn view(&self) -> HttpRequestView {
        HttpRequestView {
            method: self.method,
            uri: self.uri@,
            headers: self.headers@,
            body: match self.body {
                Some(text) => Some(text@),
                None => None,
            },
        }
    }
}

/// A response as it arrived.
#[derive(Debug)]
pub struct HttpResponse {
    /// The status code.
    pub status: u16,
    /// The headers, each name once.
    pub headers: Fields,
    /// The body as text.
    pub body: String,
}

/// An `HttpResponse` as specifications see it.
pub struct HttpResponseView {
    pub status: int,
    pub headers: Map<Seq<char>, Seq<char>>,
    pub body: Seq<char>,
}

/// The response that carries a JSON text: status 200, a header that
/// announces JSON, and the text as the body.
pub open spec fn json_response_view(text: Seq<char>) -> HttpResponseView {
    HttpResponseView {
        status: 200,
        headers: Map::<Seq<char>, Seq<char>>::empty().insert(
            content_type_name(),
            content_type_json(),
        ),
        body: text,
    }
}

impl View for HttpResponse {
    type V = HttpResponseView;

    open spec fn view(&self) -> HttpResponseView {
        HttpResponseView { status: self.status as int, headers: self.headers@, body: self.body@ }
    }
}

impl HttpResponseView {
    /// The response written out for an error report.
    pub open spec fn description(self) -> Seq<char> {
        "Response { status: "@ + decimal(self.status as nat) + ", body: "@ + self.body + " }"@
    }
}

impl HttpResponse {
    /// A response with the given status and body, without headers.
    pub fn new(status: u16, body: &str) -> (r: HttpResponse)
        ensures
            r@ == (HttpResponseView {
                status: status as int,
                headers: Map::<Seq<char>, Seq<char>>::empty(),
                body: body@,
            }),
    {
        HttpResponse { status, headers: Fields::new(), body: body.to_owned() }
    }

    /// The response that carries a JSON text.
    pub fn json(text: String) -> (r: HttpResponse)
        ensures
            r@ == json_response_view(text@),
    {
        let mut headers = Fields::new();
        headers.insert(content_type(), application_json());
        HttpResponse { status: 200, headers, body: text }
    }

    /// The status of the response.
    pub fn status(&self) -> (r: HttpStatus)
        ensures
            r@ == self@.status,
    {
        HttpStatus(self.status)
    }

    /// The response written out for an error report.
    pub fn describe(&self) -> (r: String)
        ensures
            r@ == self@.description(),
    {
        let mut written = String::from_str("Response { status: ");
        written.append(decimal_text(self.status).as_str());
        written.append(", body: ");
        written.append(self.body.as_str());
        written.append(" }");
        written
    }
}

} // verus!
