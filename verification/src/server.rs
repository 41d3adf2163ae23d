//! The server side of a call: a descriptor bound to a handler, and what the
//! bound route does with a request. The payload is read from where the verb
//! of the descriptor says it is, the handler is called with it and with the
//! values that the surrounding server supplies, and its answer is written
//! back: a value as JSON, an error as the response that it converts to.

use crate::codec::{
    bound, decode_json, decode_query, encode_json, json_object_text, json_text_object, text_of,
    urldecoded_form,
};
use crate::descriptor::{HttpMethod, PayloadEncoding, Rest, RestType};
use crate::fields::{as_map, Entries};
use crate::message::{
    json_response_view, HttpRequest, HttpRequestView, HttpResponse, HttpResponseView,
};
use crate::payload::Payload;
use crate::text::{query_part, split_target};
use std::marker::PhantomData;
use vstd::prelude::*;

verus! {

/// A value that is answered as JSON.
pub struct Json<T>(pub T);

/// An application error that knows the response that reports it.
pub trait IntoResponse {
    /// The response that reports the error.
    open spec fn response_view(&self) -> HttpResponseView {
        arbitrary()
    }

    /// Converts the error into the response that reports it.
    fn into_response(self) -> (r: HttpResponse)
        ensures
            r@ == self.response_view(),
    ;
}

/// A handler that fails with a response of its own making hands that
/// response out as it is.
impl IntoResponse for HttpResponse {
    open spec fn response_view(&self) -> HttpResponseView {
        self@
    }

    fn into_response(self) -> (r: HttpResponse) {
        self
    }
}

/// A function that answers a call: it takes the decoded payload and the
/// values in `Args`, which the surrounding server supplies, and returns the
/// answer or an application error.
pub trait Handler<I, O, E, Args> {
    /// Whether the handler may be called with these arguments.
    open spec fn accepts(&self, payload: I, args: Args) -> bool {
        true
    }

    /// Whether `r` is an answer that the handler may give to these arguments.
    /// Nothing is known of a handler that does not say.
    open spec fn answers(&self, payload: I, args: Args, r: Result<O, E>) -> bool {
        true
    }

    /// Calls the handler.
    fn call(&self, payload: I, args: Args) -> (r: Result<O, E>)
        requires
            self.accepts(payload, args),
        ensures
            self.answers(payload, args, r),
    ;
}

/// A function of the payload alone is a handler.
impl<I, O, E, F> Handler<I, O, E, ()> for F where
    F: Fn(I) -> Result<O, E>,
 {
    open spec fn accepts(&self, payload: I, args: ()) -> bool {
        call_requires(*self, (payload,))
    }

    open spec fn answers(&self, payload: I, args: (), r: Result<O, E>) -> bool {
        call_ensures(*self, (payload,), r)
    }

    fn call(&self, payload: I, args: ()) -> (r: Result<O, E>) {
        self(payload)
    }
}

/// A function of the payload and one more value is a handler.
impl<I, O, E, A0, F> Handler<I, O, E, (A0,)> for F where
    F: Fn(I, A0) -> Result<O, E>,
 {
    open spec fn accepts(&self, payload: I, args: (A0,)) -> bool {
        call_requires(*self, (payload, args.0))
    }

    open spec fn answers(&self, payload: I, args: (A0,), r: Result<O, E>) -> bool {
        call_ensures(*self, (payload, args.0), r)
    }

    fn call(&self, payload: I, args: (A0,)) -> (r: Result<O, E>) {
        self(payload, args.0)
    }
}

/// A function of the payload and two more values is a handler.
impl<I, O, E, A0, A1, F> Handler<I, O, E, (A0, A1)> for F where
    F: Fn(I, A0, A1) -> Result<O, E>,
 {
    open spec fn accepts(&self, payload: I, args: (A0, A1)) -> bool {
        call_requires(*self, (payload, args.0, args.1))
    }

    open spec fn answers(&self, payload: I, args: (A0, A1), r: Result<O, E>) -> bool {
        call_ensures(*self, (payload, args.0, args.1), r)
    }

    fn call(&self, payload: I, args: (A0, A1)) -> (r: Result<O, E>) {
        self(payload, args.0, args.1)
    }
}

/// A function of the payload and three more values is a handler.
impl<I, O, E, A0, A1, A2, F> Handler<I, O, E, (A0, A1, A2)> for F where
    F: Fn(I, A0, A1, A2) -> Result<O, E>,
 {
    open spec fn accepts(&self, payload: I, args: (A0, A1, A2)) -> bool {
        call_requires(*self, (payload, args.0, args.1, args.2))
    }

    open spec fn answers(&self, payload: I, args: (A0, A1, A2), r: Result<O, E>) -> bool {
        call_ensures(*self, (payload, args.0, args.1, args.2), r)
    }

    fn call(&self, payload: I, args: (A0, A1, A2)) -> (r: Result<O, E>) {
        self(payload, args.0, args.1, args.2)
    }
}

/// A function of the payload and four more values is a handler.
impl<I, O, E, A0, A1, A2, A3, F> Handler<I, O, E, (A0, A1, A2, A3)> for F where
    F: Fn(I, A0, A1, A2, A3) -> Result<O, E>,
 {
    open spec fn accepts(&self, payload: I, args: (A0, A1, A2, A3)) -> bool {
        call_requires(*self, (payload, args.0, args.1, args.2, args.3))
    }

    open spec fn answers(&self, payload: I, args: (A0, A1, A2, A3), r: Result<O, E>) -> bool {
        call_ensures(*self, (payload, args.0, args.1, args.2, args.3), r)
    }

    fn call(&self, payload: I, args: (A0, A1, A2, A3)) -> (r: Result<O, E>) {
        self(payload, args.0, args.1, args.2, args.3)
    }
}

/// A function of the payload and five more values is a handler.
impl<I, O, E, A0, A1, A2, A3, A4, F> Handler<I, O, E, (A0, A1, A2, A3, A4)> for F where
    F: Fn(I, A0, A1, A2, A3, A4) -> Result<O, E>,
 {
    open spec fn accepts(&self, payload: I, args: (A0, A1, A2, A3, A4)) -> bool {
        call_requires(*self, (payload, args.0, args.1, args.2, args.3, args.4))
    }

    open spec fn answers(&self, payload: I, args: (A0, A1, A2, A3, A4), r: Result<O, E>) -> bool {
        call_ensures(*self, (payload, args.0, args.1, args.2, args.3, args.4), r)
    }

    fn call(&self, payload: I, args: (A0, A1, A2, A3, A4)) -> (r: Result<O, E>) {
        self(payload, args.0, args.1, args.2, args.3, args.4)
    }
}

/// A function of the payload and six more values is a handler.
impl<I, O, E, A0, A1, A2, A3, A4, A5, F> Handler<I, O, E, (A0, A1, A2, A3, A4, A5)> for F where
    F: Fn(I, A0, A1, A2, A3, A4, A5) -> Result<O, E>,
 {
    open spec fn accepts(&self, payload: I, args: (A0, A1, A2, A3, A4, A5)) -> bool {
        call_requires(*self, (payload, args.0, args.1, args.2, args.3, args.4, args.5))
    }

    open spec fn answers(&self, payload: I, args: (A0, A1, A2, A3, A4, A5), r: Result<O, E>) -> bool {
        call_ensures(*self, (payload, args.0, args.1, args.2, args.3, args.4, args.5), r)
    }

    fn call(&self, payload: I, args: (A0, A1, A2, A3, A4, A5)) -> (r: Result<O, E>) {
        self(payload, args.0, args.1, args.2, args.3, args.4, args.5)
    }
}

/// A function of the payload and seven more values is a handler.
impl<I, O, E, A0, A1, A2, A3, A4, A5, A6, F> Handler<I, O, E, (A0, A1, A2, A3, A4, A5, A6)> for F where
    F: Fn(I, A0, A1, A2, A3, A4, A5, A6) -> Result<O, E>,
 {
    open spec fn accepts(&self, payload: I, args: (A0, A1, A2, A3, A4, A5, A6)) -> bool {
        call_requires(*self, (payload, args.0, args.1, args.2, args.3, args.4, args.5, args.6))
    }

    open spec fn answers(&self, payload: I, args: (A0, A1, A2, A3, A4, A5, A6), r: Result<O, E>) -> bool {
        call_ensures(*self, (payload, args.0, args.1, args.2, args.3, args.4, args.5, args.6), r)
    }

    fn call(&self, payload: I, args: (A0, A1, A2, A3, A4, A5, A6)) -> (r: Result<O, E>) {
        self(payload, args.0, args.1, args.2, args.3, args.4, args.5, args.6)
    }
}

/// A function of the payload and eight more values is a handler.
impl<I, O, E, A0, A1, A2, A3, A4, A5, A6, A7, F> Handler<I, O, E, (A0, A1, A2, A3, A4, A5, A6, A7)> for F where
    F: Fn(I, A0, A1, A2, A3, A4, A5, A6, A7) -> Result<O, E>,
 {
    open spec fn accepts(&self, payload: I, args: (A0, A1, A2, A3, A4, A5, A6, A7)) -> bool {
        call_requires(*self, (payload, args.0, args.1, args.2, args.3, args.4, args.5, args.6, args.7))
    }

    open spec fn answers(&self, payload: I, args: (A0, A1, A2, A3, A4, A5, A6, A7), r: Result<O, E>) -> bool {
        call_ensures(*self, (payload, args.0, args.1, args.2, args.3, args.4, args.5, args.6, args.7), r)
    }

    fn call(&self, payload: I, args: (A0, A1, A2, A3, A4, A5, A6, A7)) -> (r: Result<O, E>) {
        self(payload, args.0, args.1, args.2, args.3, args.4, args.5, args.6, args.7)
    }
}

/// A function of the payload and nine more values is a handler.
impl<I, O, E, A0, A1, A2, A3, A4, A5, A6, A7, A8, F> Handler<I, O, E, (A0, A1, A2, A3, A4, A5, A6, A7, A8)> for F where
    F: Fn(I, A0, A1, A2, A3, A4, A5, A6, A7, A8) -> Result<O, E>,
 {
    open spec fn accepts(&self, payload: I, args: (A0, A1, A2, A3, A4, A5, A6, A7, A8)) -> bool {
        call_requires(*self, (payload, args.0, args.1, args.2, args.3, args.4, args.5, args.6, args.7, args.8))
    }

    open spec fn answers(&self, payload: I, args: (A0, A1, A2, A3, A4, A5, A6, A7, A8), r: Result<O, E>) -> bool {
        call_ensures(*self, (payload, args.0, args.1, args.2, args.3, args.4, args.5, args.6, args.7, args.8), r)
    }

    fn call(&self, payload: I, args: (A0, A1, A2, A3, A4, A5, A6, A7, A8)) -> (r: Result<O, E>) {
        self(payload, args.0, args.1, args.2, args.3, args.4, args.5, args.6, args.7, args.8)
    }
}

/// A function of the payload alone, taken as a handler, accepts what it
/// requires and answers what it ensures.
pub proof fn lemma_handler_0<I, O, E, F>(
    handler: F,
    payload: I,
    args: (),
    r: Result<O, E>,
) where
    F: Fn(I) -> Result<O, E>,

    ensures
        Handler::<I, O, E, ()>::accepts(&handler, payload, args) == call_requires(
            handler,
            (payload,),
        ),
        Handler::<I, O, E, ()>::answers(&handler, payload, args, r) == call_ensures(
            handler,
            (payload,),
            r,
        ),
{
}

/// A function of the payload and one more value, taken as a handler, accepts what it
/// requires and answers what it ensures.
pub proof fn lemma_handler_1<I, O, E, A0, F>(
    handler: F,
    payload: I,
    args: (A0,),
    r: Result<O, E>,
) where
    F: Fn(I, A0) -> Result<O, E>,

    ensures
        Handler::<I, O, E, (A0,)>::accepts(&handler, payload, args) == call_requires(
            handler,
            (payload, args.0),
        ),
        Handler::<I, O, E, (A0,)>::answers(&handler, payload, args, r) == call_ensures(
            handler,
            (payload, args.0),
            r,
        ),
{
}

/// A function of the payload and two more values, taken as a handler, accepts what it
/// requires and answers what it ensures.
pub proof fn lemma_handler_2<I, O, E, A0, A1, F>(
    handler: F,
    payload: I,
    args: (A0, A1),
    r: Result<O, E>,
) where
    F: Fn(I, A0, A1) -> Result<O, E>,

    ensures
        Handler::<I, O, E, (A0, A1)>::accepts(&handler, payload, args) == call_requires(
            handler,
            (payload, args.0, args.1),
        ),
        Handler::<I, O, E, (A0, A1)>::answers(&handler, payload, args, r) == call_ensures(
            handler,
            (payload, args.0, args.1),
            r,
        ),
{
}

/// A function of the payload and three more values, taken as a handler, accepts what it
/// requires and answers what it ensures.
pub proof fn lemma_handler_3<I, O, E, A0, A1, A2, F>(
    handler: F,
    payload: I,
    args: (A0, A1, A2),
    r: Result<O, E>,
) where
    F: Fn(I, A0, A1, A2) -> Result<O, E>,

    ensures
        Handler::<I, O, E, (A0, A1, A2)>::accepts(&handler, payload, args) == call_requires(
            handler,
            (payload, args.0, args.1, args.2),
        ),
        Handler::<I, O, E, (A0, A1, A2)>::answers(&handler, payload, args, r) == call_ensures(
            handler,
            (payload, args.0, args.1, args.2),
            r,
        ),
{
}

/// A function of the payload and four more values, taken as a handler, accepts what it
/// requires and answers what it ensures.
pub proof fn lemma_handler_4<I, O, E, A0, A1, A2, A3, F>(
    handler: F,
    payload: I,
    args: (A0, A1, A2, A3),
    r: Result<O, E>,
) where
    F: Fn(I, A0, A1, A2, A3) -> Result<O, E>,

    ensures
        Handler::<I, O, E, (A0, A1, A2, A3)>::accepts(&handler, payload, args) == call_requires(
            handler,
            (payload, args.0, args.1, args.2, args.3),
        ),
        Handler::<I, O, E, (A0, A1, A2, A3)>::answers(&handler, payload, args, r) == call_ensures(
            handler,
            (payload, args.0, args.1, args.2, args.3),
            r,
        ),
{
}

/// A function of the payload and five more values, taken as a handler, accepts what it
/// requires and answers what it ensures.
pub proof fn lemma_handler_5<I, O, E, A0, A1, A2, A3, A4, F>(
    handler: F,
    payload: I,
    args: (A0, A1, A2, A3, A4),
    r: Result<O, E>,
) where
    F: Fn(I, A0, A1, A2, A3, A4) -> Result<O, E>,

    ensures
        Handler::<I, O, E, (A0, A1, A2, A3, A4)>::accepts(&handler, payload, args) == call_requires(
            handler,
            (payload, args.0, args.1, args.2, args.3, args.4),
        ),
        Handler::<I, O, E, (A0, A1, A2, A3, A4)>::answers(&handler, payload, args, r) == call_ensures(
            handler,
            (payload, args.0, args.1, args.2, args.3, args.4),
            r,
        ),
{
}

/// A function of the payload and six more values, taken as a handler, accepts what it
/// requires and answers what it ensures.
pub proof fn lemma_handler_6<I, O, E, A0, A1, A2, A3, A4, A5, F>(
    handler: F,
    payload: I,
    args: (A0, A1, A2, A3, A4, A5),
    r: Result<O, E>,
) where
    F: Fn(I, A0, A1, A2, A3, A4, A5) -> Result<O, E>,

    ensures
        Handler::<I, O, E, (A0, A1, A2, A3, A4, A5)>::accepts(&handler, payload, args) == call_requires(
            handler,
            (payload, args.0, args.1, args.2, args.3, args.4, args.5),
        ),
        Handler::<I, O, E, (A0, A1, A2, A3, A4, A5)>::answers(&handler, payload, args, r) == call_ensures(
            handler,
            (payload, args.0, args.1, args.2, args.3, args.4, args.5),
            r,
        ),
{
}

/// A function of the payload and seven more values, taken as a handler, accepts what it
/// requires and answers what it ensures.
pub proof fn lemma_handler_7<I, O, E, A0, A1, A2, A3, A4, A5, A6, F>(
    handler: F,
    payload: I,
    args: (A0, A1, A2, A3, A4, A5, A6),
    r: Result<O, E>,
) where
    F: Fn(I, A0, A1, A2, A3, A4, A5, A6) -> Result<O, E>,

    ensures
        Handler::<I, O, E, (A0, A1, A2, A3, A4, A5, A6)>::accepts(&handler, payload, args) == call_requires(
            handler,
            (payload, args.0, args.1, args.2, args.3, args.4, args.5, args.6),
        ),
        Handler::<I, O, E, (A0, A1, A2, A3, A4, A5, A6)>::answers(&handler, payload, args, r) == call_ensures(
            handler,
            (payload, args.0, args.1, args.2, args.3, args.4, args.5, args.6),
            r,
        ),
{
}

/// A function of the payload and eight more values, taken as a handler, accepts what it
/// requires and answers what it ensures.
pub proof fn lemma_handler_8<I, O, E, A0, A1, A2, A3, A4, A5, A6, A7, F>(
    handler: F,
    payload: I,
    args: (A0, A1, A2, A3, A4, A5, A6, A7),
    r: Result<O, E>,
) where
    F: Fn(I, A0, A1, A2, A3, A4, A5, A6, A7) -> Result<O, E>,

    ensures
        Handler::<I, O, E, (A0, A1, A2, A3, A4, A5, A6, A7)>::accepts(&handler, payload, args) == call_requires(
            handler,
            (payload, args.0, args.1, args.2, args.3, args.4, args.5, args.6, args.7),
        ),
        Handler::<I, O, E, (A0, A1, A2, A3, A4, A5, A6, A7)>::answers(&handler, payload, args, r) == call_ensures(
            handler,
            (payload, args.0, args.1, args.2, args.3, args.4, args.5, args.6, args.7),
            r,
        ),
{
}

/// A function of the payload and nine more values, taken as a handler, accepts what it
/// requires and answers what it ensures.
pub proof fn lemma_handler_9<I, O, E, A0, A1, A2, A3, A4, A5, A6, A7, A8, F>(
    handler: F,
    payload: I,
    args: (A0, A1, A2, A3, A4, A5, A6, A7, A8),
    r: Result<O, E>,
) where
    F: Fn(I, A0, A1, A2, A3, A4, A5, A6, A7, A8) -> Result<O, E>,

    ensures
        Handler::<I, O, E, (A0, A1, A2, A3, A4, A5, A6, A7, A8)>::accepts(&handler, payload, args) == call_requires(
            handler,
            (payload, args.0, args.1, args.2, args.3, args.4, args.5, args.6, args.7, args.8),
        ),
        Handler::<I, O, E, (A0, A1, A2, A3, A4, A5, A6, A7, A8)>::answers(&handler, payload, args, r) == call_ensures(
            handler,
            (payload, args.0, args.1, args.2, args.3, args.4, args.5, args.6, args.7, args.8),
            r,
        ),
{
}

/// Why a request did not get an answer from the handler.
#[derive(Debug)]
pub enum ServeError {
    /// The payload could not be read from the request; the handler was not
    /// called.
    Decode { reason: String },
    /// The answer of the handler could not be written as JSON.
    Encode { reason: String },
}

/// A `ServeError` as specifications see it.
pub enum ServeErrorView {
    Decode { reason: Seq<char> },
    Encode { reason: Seq<char> },
}

impl View for ServeError {
    type V = ServeErrorView;

    open spec fn view(&self) -> ServeErrorView {
        match self {
            ServeError::Decode { reason } => ServeErrorView::Decode { reason: reason@ },
            ServeError::Encode { reason } => ServeErrorView::Encode { reason: reason@ },
        }
    }
}

/// The text of a body; a request without a body has the empty text.
pub open spec fn body_text(body: Option<Seq<char>>) -> Seq<char> {
    match body {
        Some(text) => text,
        None => Seq::empty(),
    }
}

/// The encoded payload of a request, taken from where a request with this
/// verb carries it: the query string for `DELETE` and `GET`, the body for
/// `POST` and `PUT`.
pub open spec fn carried_text(method: HttpMethod, request: HttpRequestView) -> Seq<char> {
    match method.spec_encoding() {
        PayloadEncoding::QueryString => query_part(request.uri),
        PayloadEncoding::JsonBody => body_text(request.body),
    }
}

/// The named fields that a request carries, read in the format that goes
/// with the verb.
pub open spec fn carried_fields(method: HttpMethod, request: HttpRequestView) -> Result<
    Entries,
    Seq<char>,
> {
    match method.spec_encoding() {
        PayloadEncoding::QueryString => bound(urldecoded_form(carried_text(method, request))),
        PayloadEncoding::JsonBody => bound(json_text_object(carried_text(method, request))),
    }
}

/// The fields of the payload of type `I` that a request carries.
pub open spec fn extracted_view<I: Payload>(method: HttpMethod, request: HttpRequestView) -> Result<
    Entries,
    ServeErrorView,
> {
    match carried_fields(method, request) {
        Err(reason) => Err(ServeErrorView::Decode { reason }),
        Ok(members) => match I::read(as_map(members)) {
            Ok(fields) => Ok(fields),
            Err(reason) => Err(ServeErrorView::Decode { reason }),
        },
    }
}

/// The response to an answer of the handler: a value goes out as JSON with
/// status 200, an error as the response that it converts to.
pub open spec fn answer_view<O: Payload, E: IntoResponse>(answer: Result<O, E>) -> Result<
    HttpResponseView,
    ServeErrorView,
> {
    match answer {
        Ok(value) => json_answer_view(json_object_text(as_map(value.fields()))),
        Err(error) => Ok(error.response_view()),
    }
}

/// An extracted payload or the error in its place, as specifications see it.
pub open spec fn extracted_of<I: Payload>(r: Result<I, ServeError>) -> Result<
    Entries,
    ServeErrorView,
> {
    match r {
        Ok(value) => Ok(value.fields()),
        Err(error) => Err(error@),
    }
}

/// A response or the error in its place, as specifications see it.
pub open spec fn served_of(r: Result<HttpResponse, ServeError>) -> Result<
    HttpResponseView,
    ServeErrorView,
> {
    match r {
        Ok(response) => Ok(response@),
        Err(error) => Err(error@),
    }
}

/// An answer without its JSON wrapper.
pub open spec fn unwrapped<O, E>(answer: Result<Json<O>, E>) -> Result<O, E> {
    match answer {
        Ok(json) => Ok(json.0),
        Err(error) => Err(error),
    }
}

/// Reads the payload of a request from where a request with this verb
/// carries it.
pub fn extract<I: Payload>(method: HttpMethod, request: &HttpRequest) -> (r: Result<I, ServeError>)
    ensures
        extracted_of(r) == extracted_view::<I>(method, request@),
{
    let members = match method.encoding() {
        PayloadEncoding::QueryString => {
            let target = split_target(request.uri.as_str());
            decode_query(target.1.as_str())
        },
        PayloadEncoding::JsonBody => match &request.body {
            Some(text) => decode_json(text.as_str()),
            None => {
                proof {
                    reveal_strlit("");
                    assert(""@ =~= Seq::<char>::empty());
                }
                decode_json("")
            },
        },
    };
    match members {
        Err(reason) => Err(ServeError::Decode { reason }),
        Ok(fields) => match I::from_fields(&fields) {
            Ok(payload) => Ok(payload),
            Err(reason) => Err(ServeError::Decode { reason }),
        },
    }
}

/// The response to a value that an encoder has already written, or has
/// failed to write.
pub open spec fn json_answer_view(encoded: Result<Seq<char>, Seq<char>>) -> Result<
    HttpResponseView,
    ServeErrorView,
> {
    match encoded {
        Ok(text) => Ok(json_response_view(text)),
        Err(reason) => Err(ServeErrorView::Encode { reason }),
    }
}

/// The response that carries an already encoded value: status 200, a header
/// that announces JSON, and the text as the body. Where the value could not
/// be encoded there is no response.
pub fn json_response(encoded: Result<String, String>) -> (r: Result<HttpResponse, ServeError>)
    ensures
        served_of(r) == json_answer_view(text_of(encoded)),
{
    match encoded {
        Ok(text) => Ok(HttpResponse::json(text)),
        Err(reason) => Err(ServeError::Encode { reason }),
    }
}

/// Writes the answer of a handler as a response.
pub fn respond<O: Payload, E: IntoResponse>(answer: Result<Json<O>, E>) -> (r: Result<
    HttpResponse,
    ServeError,
>)
    ensures
        served_of(r) == answer_view(unwrapped(answer)),
{
    match answer {
        Ok(json) => json_response(encode_json(&json.0.to_fields())),
        Err(error) => Ok(error.into_response()),
    }
}

/// A descriptor bound to a handler: the verb and the path of the endpoint,
/// and the function that answers its calls.
pub struct Route<I, O, E, Args, H: Handler<I, O, E, Args>> {
    method: HttpMethod,
    path: String,
    handler: H,
    input: PhantomData<I>,
    output: PhantomData<O>,
    error: PhantomData<E>,
    args: PhantomData<Args>,
}

impl<I, O, E, Args, H: Handler<I, O, E, Args>> Route<I, O, E, Args, H> {
    /// The verb of the endpoint.
    pub closed spec fn spec_method(&self) -> HttpMethod {
        self.method
    }

    /// The path of the endpoint.
    pub closed spec fn spec_path(&self) -> Seq<char> {
        self.path@
    }

    /// The handler.
    pub closed spec fn spec_handler(&self) -> H {
        self.handler
    }

    /// The route for the endpoint with this verb and path, answered by
    /// `handler`.
    pub fn new(method: HttpMethod, path: &str, handler: H) -> (r: Self)
        ensures
            r.spec_method() == method,
            r.spec_path() == path@,
            r.spec_handler() == handler,
    {
        Route {
            method,
            path: path.to_owned(),
            handler,
            input: PhantomData,
            output: PhantomData,
            error: PhantomData,
            args: PhantomData,
        }
    }

    /// The verb of the endpoint.
    pub fn method(&self) -> (r: HttpMethod)
        ensures
            r == self.spec_method(),
    {
        self.method
    }

    /// The path of the endpoint.
    pub fn path(&self) -> (r: &str)
        ensures
            r@ == self.spec_path(),
    {
        self.path.as_str()
    }

    /// Where the route looks for the payload of a request.
    pub fn decoding(&self) -> (r: PayloadEncoding)
        ensures
            r == self.spec_method().spec_encoding(),
    {
        self.method.encoding()
    }

    /// Calls the handler with a decoded payload and the supplied values. A
    /// value comes back wrapped for JSON, an error as the handler gave it.
    pub fn call(&self, payload: I, args: Args) -> (r: Result<Json<O>, E>)
        requires
            self.spec_handler().accepts(payload, args),
        ensures
            self.spec_handler().answers(payload, args, unwrapped(r)),
    {
        match self.handler.call(payload, args) {
            Ok(value) => Ok(Json(value)),
            Err(error) => Err(error),
        }
    }

    /// Answers one request: reads the payload from where the verb of the
    /// endpoint says it is, calls the handler, and writes its answer as a
    /// response.
    pub fn serve(&self, request: &HttpRequest, args: Args) -> (r: Result<HttpResponse, ServeError>) where
        I: Payload,
        O: Payload,
        E: IntoResponse,

        requires
            forall|payload: I| #[trigger] self.spec_handler().accepts(payload, args),
        ensures
            match extracted_view::<I>(self.spec_method(), request@) {
                Err(error) => served_of(r) == Err::<HttpResponseView, ServeErrorView>(error),
                Ok(fields) => exists|payload: I, answer: Result<O, E>|
                    payload.fields() == fields && #[trigger] self.spec_handler().answers(
                        payload,
                        args,
                        answer,
                    ) && served_of(r) == answer_view(answer),
            },
    {
        match extract::<I>(self.method, request) {
            Err(error) => Err(error),
            Ok(payload) => {
                let ghost given = payload;
                let answer = self.call(payload, args);
                let ghost answered = unwrapped(answer);
                let r = respond(answer);
                assert(self.spec_handler().answers(given, args, answered));
                r
            },
        }
    }
}

/// Binding: every descriptor can be bound to a handler for its pair of
/// payload types, whatever the number of further values the handler takes.
pub trait AjarsServerHandler<I, O>: RestType<I, O> {
    /// The route that answers calls of this endpoint with `handler`.
    fn to<E, Args, H: Handler<I, O, E, Args>>(&self, handler: H) -> (r: Route<I, O, E, Args, H>)
        ensures
            r.spec_method() == self.spec_method(),
            r.spec_path() == self.spec_path(),
            r.spec_handler() == handler,
    ;
}

impl<I, O, REST: RestType<I, O>> AjarsServerHandler<I, O> for REST {
    fn to<E, Args, H: Handler<I, O, E, Args>>(&self, handler: H) -> (r: Route<I, O, E, Args, H>) {
        Route::new(*self.method(), self.path(), handler)
    }
}

impl<I, O> Rest<I, O> {
    /// The route that answers calls of this endpoint with `handler`.
    pub fn handle<E, Args, H: Handler<I, O, E, Args>>(&self, handler: H) -> (r: Route<
        I,
        O,
        E,
        Args,
        H,
    >)
        ensures
            r.spec_method() == self.spec_method(),
            r.spec_path() == self.spec_path(),
            r.spec_handler() == handler,
    {
        self.to(handler)
    }
}

} // verus!
