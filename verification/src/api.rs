//! Sample payloads and endpoints: a ping, an echo and an information call.

use crate::descriptor::{HttpMethod, Rest, RestType};
use crate::fields::{Entries, Fields};
use crate::payload::{
    lemma_single_read_back, read_single, reads_back, required, single, single_field, Payload,
};
use crate::message::{HttpResponse, HttpResponseView};
use crate::server::IntoResponse;
use vstd::prelude::*;

verus! {

/// The request of a ping.
#[derive(Debug)]
pub struct PingRequest {
    pub message: String,
}

/// The answer to a ping.
#[derive(Debug)]
pub struct PingResponse {
    pub message: String,
}

/// A payload that wraps one value.
#[derive(Clone, Debug, PartialEq)]
pub struct Simple<O> {
    pub inner: O,
}

/// A request for information about the call itself.
#[derive(Debug)]
pub struct InfoRequest<T> {
    pub payload: T,
}

/// An application error without detail.
#[derive(Debug, Clone)]
pub struct MyError {}

/// The error is reported as an internal server error with an empty body.
impl IntoResponse for MyError {
    open spec fn response_view(&self) -> HttpResponseView {
        HttpResponseView {
            status: 500,
            headers: Map::<Seq<char>, Seq<char>>::empty(),
            body: Seq::<char>::empty(),
        }
    }

    fn into_response(self) -> (r: HttpResponse) {
        proof {
            reveal_strlit("");
            assert(""@ =~= Seq::<char>::empty());
        }
        HttpResponse::new(500, "")
    }
}

impl Payload for PingRequest {
    open spec fn fields(&self) -> Entries {
        single("message"@, self.message@)
    }

    open spec fn read(members: Map<Seq<char>, Seq<char>>) -> Result<Entries, Seq<char>> {
        read_single(members, "message"@)
    }

    fn to_fields(&self) -> (r: Fields) {
        single_field("message", self.message.as_str())
    }

    fn from_fields(fields: &Fields) -> (r: Result<Self, String>) {
        match required(fields, "message") {
            Ok(message) => Ok(PingRequest { message }),
            Err(reason) => Err(reason),
        }
    }
}

impl Payload for PingResponse {
    open spec fn fields(&self) -> Entries {
        single("message"@, self.message@)
    }

    open spec fn read(members: Map<Seq<char>, Seq<char>>) -> Result<Entries, Seq<char>> {
        read_single(members, "message"@)
    }

    fn to_fields(&self) -> (r: Fields) {
        single_field("message", self.message.as_str())
    }

    fn from_fields(fields: &Fields) -> (r: Result<Self, String>) {
        match required(fields, "message") {
            Ok(message) => Ok(PingResponse { message }),
            Err(reason) => Err(reason),
        }
    }
}

impl Payload for Simple<String> {
    open spec fn fields(&self) -> Entries {
        single("inner"@, self.inner@)
    }

    open spec fn read(members: Map<Seq<char>, Seq<char>>) -> Result<Entries, Seq<char>> {
        read_single(members, "inner"@)
    }

    fn to_fields(&self) -> (r: Fields) {
        single_field("inner", self.inner.as_str())
    }

    fn from_fields(fields: &Fields) -> (r: Result<Self, String>) {
        match required(fields, "inner") {
            Ok(inner) => Ok(Simple { inner }),
            Err(reason) => Err(reason),
        }
    }
}

impl Payload for InfoRequest<String> {
    open spec fn fields(&self) -> Entries {
        single("payload"@, self.payload@)
    }

    open spec fn read(members: Map<Seq<char>, Seq<char>>) -> Result<Entries, Seq<char>> {
        read_single(members, "payload"@)
    }

    fn to_fields(&self) -> (r: Fields) {
        single_field("payload", self.payload.as_str())
    }

    fn from_fields(fields: &Fields) -> (r: Result<Self, String>) {
        match required(fields, "payload") {
            Ok(payload) => Ok(InfoRequest { payload }),
            Err(reason) => Err(reason),
        }
    }
}

/// A ping request is read back from its own fields.
pub proof fn lemma_ping_request_reads_back(value: PingRequest)
    ensures
        reads_back(value),
{
    lemma_single_read_back("message"@, value.message@);
}

/// A ping response is read back from its own fields.
pub proof fn lemma_ping_response_reads_back(value: PingResponse)
    ensures
        reads_back(value),
{
    lemma_single_read_back("message"@, value.message@);
}

/// A wrapped text is read back from its own fields.
pub proof fn lemma_simple_reads_back(value: Simple<String>)
    ensures
        reads_back(value),
{
    lemma_single_read_back("inner"@, value.inner@);
}

/// An information request is read back from its own fields.
pub proof fn lemma_info_request_reads_back(value: InfoRequest<String>)
    ensures
        reads_back(value),
{
    lemma_single_read_back("payload"@, value.payload@);
}

/// The ping endpoint: `POST /ping`.
pub fn ping() -> (r: Rest<PingRequest, PingResponse>)
    ensures
        r.spec_method() == HttpMethod::POST,
        r.spec_path() == "/ping"@,
{
    Rest::post("/ping")
}

} // verus!
