//! The client side of a call: from a descriptor and a payload to the request
//! that goes out, and from the response that comes back to the decoded
//! answer or the error.
//!
//! The library does not talk to the network. `RequestBuilder::send` hands
//! out the request as a `PendingCall`; whoever owns the connection sends it
//! and reports what arrived to `PendingCall::receive`.

use crate::codec::{
    bound, decode_json, encode_json, encode_query, json_object_text, json_text_object, text_of,
    urlencoded_form,
};
use crate::descriptor::{
    application_json, content_type, content_type_json, content_type_name, HttpMethod,
    PayloadEncoding, RestType,
};
use crate::error::{Error, ErrorView};
use crate::fields::{as_map, Entries, Fields};
use crate::message::{HttpRequest, HttpRequestView, HttpResponse, HttpResponseView};
use crate::payload::Payload;
use crate::status::HttpStatus;
use crate::text::{decimal, decimal_text, join};
use std::marker::PhantomData;
use vstd::prelude::*;

verus! {

/// The name of the header that carries credentials.
pub open spec fn authorization_name() -> Seq<char> {
    "AUTHORIZATION"@
}

/// The URL of an endpoint: the base URL of the server followed by the path.
pub open spec fn endpoint_url(base_url: Seq<char>, path: Seq<char>) -> Seq<char> {
    base_url + path
}

/// The text that basic authentication encodes: the user name, a colon, and
/// the password where there is one.
pub open spec fn user_pass(username: Seq<char>, password: Option<Seq<char>>) -> Seq<char> {
    username + ":"@ + match password {
        Some(secret) => secret,
        None => Seq::empty(),
    }
}

/// The request that carries an encoded payload in its query string: the
/// query follows the URL after a question mark, and there is no body. Where
/// the payload could not be encoded there is no request.
pub open spec fn query_request_view(
    uri: Seq<char>,
    method: HttpMethod,
    headers: Map<Seq<char>, Seq<char>>,
    encoded: Result<Seq<char>, Seq<char>>,
) -> Result<HttpRequestView, ErrorView> {
    match encoded {
        Ok(query) => Ok(
            HttpRequestView { method, uri: uri + "?"@ + query, headers, body: None },
        ),
        Err(reason) => Err(
            ErrorView::Builder {
                context: "Failed to serialize data as query string"@,
                error: reason,
            },
        ),
    }
}

/// The request that carries an encoded payload in its body: the URL stays as
/// it is, the body is the JSON text, and a header announces JSON. Where the
/// payload could not be encoded there is no request.
pub open spec fn body_request_view(
    uri: Seq<char>,
    method: HttpMethod,
    headers: Map<Seq<char>, Seq<char>>,
    encoded: Result<Seq<char>, Seq<char>>,
) -> Result<HttpRequestView, ErrorView> {
    match encoded {
        Ok(json) => Ok(
            HttpRequestView {
                method,
                uri,
                headers: headers.insert(content_type_name(), content_type_json()),
                body: Some(json),
            },
        ),
        Err(reason) => Err(
            ErrorView::Builder {
                context: "Failed to serialize data as JSON body"@,
                error: reason,
            },
        ),
    }
}

/// The request for a payload with the given fields: `DELETE` and `GET` carry
/// it in the query string, `POST` and `PUT` in a JSON body.
pub open spec fn request_view(
    uri: Seq<char>,
    method: HttpMethod,
    headers: Map<Seq<char>, Seq<char>>,
    fields: Entries,
) -> Result<HttpRequestView, ErrorView> {
    match method.spec_encoding() {
        PayloadEncoding::QueryString => query_request_view(
            uri,
            method,
            headers,
            urlencoded_form(fields),
        ),
        PayloadEncoding::JsonBody => body_request_view(
            uri,
            method,
            headers,
            json_object_text(as_map(fields)),
        ),
    }
}

/// Whether a status code reports a failure of the client or of the server.
pub open spec fn is_failure(status: int) -> bool {
    400 <= status < 600
}

/// The error for a status that reports a failure, given a description of
/// the response that had it.
pub open spec fn refused_status(status: int, description: Seq<char>) -> ErrorView {
    ErrorView::Response {
        status,
        context: "Error HTTP status code received: "@ + decimal(status as nat),
        error: "Status code error: "@ + description,
    }
}

/// The error for a response whose status reports a failure.
pub open spec fn refused(response: HttpResponseView) -> ErrorView {
    refused_status(response.status, response.description())
}

/// The header value of basic authentication for encoded credentials, or the
/// error for an encoder that failed.
pub open spec fn basic_auth_view(encoded: Result<Seq<char>, Seq<char>>) -> Result<
    Seq<char>,
    ErrorView,
> {
    match encoded {
        Ok(credentials) => Ok("Basic "@ + credentials),
        Err(reason) => Err(
            ErrorView::Builder {
                context: "Failed to encode in base64 the basic auth string"@,
                error: reason,
            },
        ),
    }
}

/// The error for a response whose body could not be read.
pub open spec fn unreadable(status: int, reason: Seq<char>) -> ErrorView {
    ErrorView::Response {
        status,
        context: "Failed to read JSON body: "@ + decimal(status as nat),
        error: reason,
    }
}

/// The error for a request that the transport could not send.
pub open spec fn unsent(reason: Seq<char>) -> ErrorView {
    ErrorView::Builder { context: "Failed to send request"@, error: reason }
}

/// The body of a response, unless its status reports a failure.
pub open spec fn checked_body_view(response: HttpResponseView) -> Result<Seq<char>, ErrorView> {
    if is_failure(response.status) {
        Err(refused(response))
    } else {
        Ok(response.body)
    }
}

/// What a decoder's result becomes for a response with the given status.
pub open spec fn read_body_view(status: int, decoded: Result<Entries, Seq<char>>) -> Result<
    Entries,
    ErrorView,
> {
    match decoded {
        Ok(fields) => Ok(fields),
        Err(reason) => Err(unreadable(status, reason)),
    }
}

/// The fields of the payload that a response decodes to, or the error: a
/// response whose status reports a failure is refused without a look at its
/// body; any other body is read as a JSON object and then as a payload of
/// type `O`.
pub open spec fn decoded_view<O: Payload>(response: HttpResponseView) -> Result<
    Entries,
    ErrorView,
> {
    match checked_body_view(response) {
        Err(error) => Err(error),
        Ok(body) => match bound(json_text_object(body)) {
            Err(reason) => Err(unreadable(response.status, reason)),
            Ok(members) => read_body_view(response.status, O::read(as_map(members))),
        },
    }
}

/// A request or the error in its place, as specifications see it.
pub open spec fn request_of(r: Result<HttpRequest, Error>) -> Result<HttpRequestView, ErrorView> {
    match r {
        Ok(request) => Ok(request@),
        Err(error) => Err(error@),
    }
}

/// A response or the error in its place, as specifications see it.
pub open spec fn response_of(r: Result<HttpResponse, Error>) -> Result<
    HttpResponseView,
    ErrorView,
> {
    match r {
        Ok(response) => Ok(response@),
        Err(error) => Err(error@),
    }
}

/// A decoded payload or the error in its place, as specifications see it.
pub open spec fn payload_of<O: Payload>(r: Result<O, Error>) -> Result<Entries, ErrorView> {
    match r {
        Ok(value) => Ok(value.fields()),
        Err(error) => Err(error@),
    }
}

/// A body or the error in its place, as specifications see it.
pub open spec fn body_of(r: Result<String, Error>) -> Result<Seq<char>, ErrorView> {
    match r {
        Ok(body) => Ok(body@),
        Err(error) => Err(error@),
    }
}

/// What the transport reports, as the error type of the library has it: a
/// response stays a response, a failure to send becomes a builder error.
pub open spec fn arrived_view(arrived: Result<HttpResponse, String>) -> Result<
    HttpResponseView,
    ErrorView,
> {
    match arrived {
        Ok(response) => Ok(response@),
        Err(reason) => Err(unsent(reason@)),
    }
}

/// The request that carries an already encoded payload in its query string.
pub fn query_request(
    uri: &str,
    method: HttpMethod,
    headers: &Fields,
    encoded: Result<String, String>,
) -> (r: Result<HttpRequest, Error>)
    ensures
        request_of(r) == query_request_view(uri@, method, headers@, text_of(encoded)),
{
    match encoded {
        Ok(query) => {
            let mut target = join(uri, "?");
            target.append(query.as_str());
            Ok(HttpRequest { method, uri: target, headers: headers.clone(), body: None })
        },
        Err(reason) => Err(
            Error::builder("Failed to serialize data as query string", reason.as_str()),
        ),
    }
}

/// The request that carries an already encoded payload in its body.
pub fn body_request(
    uri: &str,
    method: HttpMethod,
    headers: &Fields,
    encoded: Result<String, String>,
) -> (r: Result<HttpRequest, Error>)
    ensures
        request_of(r) == body_request_view(uri@, method, headers@, text_of(encoded)),
{
    match encoded {
        Ok(json) => {
            let mut announced = headers.clone();
            announced.insert(content_type(), application_json());
            Ok(HttpRequest { method, uri: uri.to_owned(), headers: announced, body: Some(json) })
        },
        Err(reason) => Err(
            Error::builder("Failed to serialize data as JSON body", reason.as_str()),
        ),
    }
}

/// The request that carries `data` in its query string.
pub fn as_query_string<I: Payload>(
    uri: &str,
    method: HttpMethod,
    headers: &Fields,
    data: &I,
) -> (r: Result<HttpRequest, Error>)
    ensures
        request_of(r) == query_request_view(
            uri@,
            method,
            headers@,
            urlencoded_form(data.fields()),
        ),
{
    let fields = data.to_fields();
    query_request(uri, method, headers, encode_query(&fields))
}

/// The request that carries `data` in its body, as JSON.
pub fn as_body<I: Payload>(uri: &str, method: HttpMethod, headers: &Fields, data: &I) -> (r:
    Result<HttpRequest, Error>)
    ensures
        request_of(r) == body_request_view(
            uri@,
            method,
            headers@,
            json_object_text(as_map(data.fields())),
        ),
{
    let fields = data.to_fields();
    body_request(uri, method, headers, encode_json(&fields))
}

/// The name of the header that carries credentials.
pub fn authorization() -> (r: &'static str)
    ensures
        r@ == authorization_name(),
{
    "AUTHORIZATION"
}

/// The header value of bearer authentication for a token.
pub fn bearer_auth_value(token: &str) -> (r: String)
    ensures
        r@ == "Bearer "@ + token@,
{
    join("Bearer ", token)
}

/// The header value of basic authentication. `encoded_user_pass` is what a
/// base64 encoder made of `basic_auth_user_pass`, or the reason why it made
/// nothing.
pub fn basic_auth_value(encoded_user_pass: Result<String, String>) -> (r: Result<String, Error>)
    ensures
        body_of(r) == basic_auth_view(text_of(encoded_user_pass)),
{
    match encoded_user_pass {
        Ok(encoded) => Ok(join("Basic ", encoded.as_str())),
        Err(reason) => Err(
            Error::builder("Failed to encode in base64 the basic auth string", reason.as_str()),
        ),
    }
}

/// The error for a request that the transport could not send.
pub fn send_failure(reason: &str) -> (r: Error)
    ensures
        r@ == unsent(reason@),
{
    Error::builder("Failed to send request", reason)
}

/// Refuses a status that reports a failure of the client or of the server.
/// `description` stands for the response in the error.
pub fn check_status(status: HttpStatus, description: &str) -> (r: Result<(), Error>)
    ensures
        match r {
            Ok(_) => !is_failure(status@),
            Err(error) => is_failure(status@) && error@ == refused_status(
                status@,
                description@,
            ),
        },
{
    if status.is_client_error() || status.is_server_error() {
        let context = join(
            "Error HTTP status code received: ",
            decimal_text(status.status()).as_str(),
        );
        let error = join("Status code error: ", description);
        Err(Error::response(status, context.as_str(), error.as_str()))
    } else {
        Ok(())
    }
}

/// The body of a response, unless its status reports a failure of the client
/// or of the server.
pub fn checked_body(response: HttpResponse) -> (r: Result<String, Error>)
    ensures
        body_of(r) == checked_body_view(response@),
{
    match check_status(response.status(), response.describe().as_str()) {
        Ok(_) => Ok(response.body),
        Err(error) => Err(error),
    }
}

/// What a decoder's result becomes for a response with the given status: the
/// decoded value, or a response error that holds the decoder's reason.
pub fn read_body<O>(status: HttpStatus, decoded: Result<O, String>) -> (r: Result<O, Error>)
    ensures
        match decoded {
            Ok(value) => r == Ok::<O, Error>(value),
            Err(reason) => r matches Err(error) && error@ == unreadable(status@, reason@),
        },
{
    match decoded {
        Ok(value) => Ok(value),
        Err(reason) => {
            let context = join(
                "Failed to read JSON body: ",
                decimal_text(status.status()).as_str(),
            );
            Err(Error::response(status, context.as_str(), reason.as_str()))
        },
    }
}

/// Decodes a response: one whose status reports a failure is refused, any
/// other is read as the JSON form of a payload of type `O`.
pub fn into_http_response<O: Payload>(response: HttpResponse) -> (r: Result<O, Error>)
    ensures
        payload_of(r) == decoded_view::<O>(response@),
{
    let status = response.status();
    match checked_body(response) {
        Err(error) => Err(error),
        Ok(body) => match decode_json(body.as_str()) {
            Err(reason) => read_body(status, Err(reason)),
            Ok(members) => read_body(status, O::from_fields(&members)),
        },
    }
}

/// Allows to modify and inspect a request before it is sent and a response
/// before its body is read.
pub trait Interceptor {
    /// Whether `r` is a result that `before_request` may give for `request`.
    /// Nothing is known of an interceptor that does not say.
    open spec fn before(
        &self,
        uri: Seq<char>,
        request: HttpRequestView,
        r: Result<HttpRequestView, ErrorView>,
    ) -> bool {
        true
    }

    /// Whether `r` is a result that `after_response` may give for `response`.
    /// Nothing is known of an interceptor that does not say.
    open spec fn after(
        &self,
        response: Result<HttpResponseView, ErrorView>,
        r: Result<HttpResponseView, ErrorView>,
    ) -> bool {
        true
    }

    /// Called before a request is performed.
    fn before_request(&self, uri: &str, request: HttpRequest) -> (r: Result<HttpRequest, Error>)
        ensures
            self.before(uri@, request@, request_of(r)),
    ;

    /// Called after a response is received and before the body is consumed.
    fn after_response(&self, response: Result<HttpResponse, Error>) -> (r: Result<
        HttpResponse,
        Error,
    >)
        ensures
            self.after(response_of(response), response_of(r)),
    ;
}

/// An `Interceptor` that does not alter the request or the response.
pub struct DoNothingInterceptor {}

impl Interceptor for DoNothingInterceptor {
    open spec fn before(
        &self,
        uri: Seq<char>,
        request: HttpRequestView,
        r: Result<HttpRequestView, ErrorView>,
    ) -> bool {
        r == Ok::<HttpRequestView, ErrorView>(request)
    }

    open spec fn after(
        &self,
        response: Result<HttpResponseView, ErrorView>,
        r: Result<HttpResponseView, ErrorView>,
    ) -> bool {
        r == response
    }

    fn before_request(&self, uri: &str, request: HttpRequest) -> (r: Result<HttpRequest, Error>) {
        Ok(request)
    }

    fn after_response(&self, response: Result<HttpResponse, Error>) -> (r: Result<
        HttpResponse,
        Error,
    >) {
        response
    }
}

/// A client for the endpoints of one server.
pub struct AjarsClientWeb<T: Interceptor> {
    interceptor: T,
    base_url: String,
}

impl AjarsClientWeb<DoNothingInterceptor> {
    /// A client for the server at `base_url` that sends requests and reads
    /// responses as they are.
    pub fn new(base_url: &str) -> (r: Result<AjarsClientWeb<DoNothingInterceptor>, Error>)
        ensures
            r matches Ok(client) && client.spec_base_url() == base_url@,
    {
        AjarsClientWeb::new_with_interceptor(base_url, DoNothingInterceptor {  })
    }
}

impl<T: Interceptor> AjarsClientWeb<T> {
    /// The base URL of the server.
    pub closed spec fn spec_base_url(&self) -> Seq<char> {
        self.base_url@
    }

    /// The interceptor that sees every request and response.
    pub closed spec fn spec_interceptor(&self) -> T {
        self.interceptor
    }

    /// A client for the server at `base_url` whose requests and responses
    /// pass through `interceptor`.
    pub fn new_with_interceptor(base_url: &str, interceptor: T) -> (r: Result<
        AjarsClientWeb<T>,
        Error,
    >)
        ensures
            r matches Ok(client) && client.spec_base_url() == base_url@
                && client.spec_interceptor() == interceptor,
    {
        Ok(AjarsClientWeb { interceptor, base_url: base_url.to_owned() })
    }

    /// Starts a call of the endpoint that `rest` describes. The URL is the
    /// base URL followed by the path of the endpoint, and a header announces
    /// JSON.
    pub fn request<'a, I, O, REST: RestType<I, O>>(&'a self, rest: &'a REST) -> (r: RequestBuilder<
        'a,
        I,
        O,
        REST,
        T,
    >)
        ensures
            r.spec_rest() == *rest,
            r.spec_interceptor() == self.spec_interceptor(),
            r.spec_url() == endpoint_url(self.spec_base_url(), rest.spec_path()),
            r.spec_headers() == Map::<Seq<char>, Seq<char>>::empty().insert(
                content_type_name(),
                content_type_json(),
            ),
    {
        let url = join(self.base_url.as_str(), rest.path());
        RequestBuilder::new(rest, url, &self.interceptor).add_header(
            content_type(),
            application_json(),
        )
    }
}

/// A call that is being prepared: the endpoint, the URL and the headers.
pub struct RequestBuilder<'a, I, O, REST: RestType<I, O>, T: Interceptor> {
    rest: &'a REST,
    interceptor: &'a T,
    headers: Fields,
    url: String,
    phantom_i: PhantomData<I>,
    phantom_o: PhantomData<O>,
}

impl<'a, I, O, REST: RestType<I, O>, T: Interceptor> RequestBuilder<'a, I, O, REST, T> {
    /// The descriptor of the endpoint.
    pub closed spec fn spec_rest(&self) -> REST {
        *self.rest
    }

    /// The interceptor that sees the request and the response.
    pub closed spec fn spec_interceptor(&self) -> T {
        *self.interceptor
    }

    /// The URL of the endpoint.
    pub closed spec fn spec_url(&self) -> Seq<char> {
        self.url@
    }

    /// The headers set so far.
    pub closed spec fn spec_headers(&self) -> Map<Seq<char>, Seq<char>> {
        self.headers@
    }

    /// Whether `other` prepares a call of the same endpoint at the same URL
    /// through the same interceptor.
    pub open spec fn same_call(&self, other: &Self) -> bool {
        &&& other.spec_rest() == self.spec_rest()
        &&& other.spec_interceptor() == self.spec_interceptor()
        &&& other.spec_url() == self.spec_url()
    }

    /// A call of the endpoint that `rest` describes at `url`, without
    /// headers.
    pub fn new(rest: &'a REST, url: String, interceptor: &'a T) -> (r: Self)
        ensures
            r.spec_rest() == *rest,
            r.spec_interceptor() == *interceptor,
            r.spec_url() == url@,
            r.spec_headers() == Map::<Seq<char>, Seq<char>>::empty(),
    {
        RequestBuilder {
            rest,
            interceptor,
            url,
            headers: Fields::new(),
            phantom_i: PhantomData,
            phantom_o: PhantomData,
        }
    }

    /// Add a header to the request. A header of the same name is replaced.
    pub fn add_header(self, key: &str, value: &str) -> (r: Self)
        ensures
            self.same_call(&r),
            r.spec_headers() == self.spec_headers().insert(key@, value@),
    {
        let mut builder = self;
        builder.headers.insert(key, value);
        builder
    }

    /// Enable HTTP basic authentication. `encoded_user_pass` is what a
    /// base64 encoder made of `basic_auth_user_pass`, or the reason why it
    /// made nothing.
    pub fn basic_auth(self, encoded_user_pass: Result<String, String>) -> (r: Result<Self, Error>)
        ensures
            match basic_auth_view(text_of(encoded_user_pass)) {
                Ok(value) => r matches Ok(builder) && self.same_call(&builder)
                    && builder.spec_headers() == self.spec_headers().insert(
                    authorization_name(),
                    value,
                ),
                Err(failure) => r matches Err(error) && error@ == failure,
            },
    {
        match basic_auth_value(encoded_user_pass) {
            Ok(value) => Ok(self.add_header(authorization(), value.as_str())),
            Err(error) => Err(error),
        }
    }

    /// Enable HTTP bearer authentication.
    pub fn bearer_auth(self, token: &str) -> (r: Self)
        ensures
            self.same_call(&r),
            r.spec_headers() == self.spec_headers().insert(
                authorization_name(),
                "Bearer "@ + token@,
            ),
    {
        let value = bearer_auth_value(token);
        self.add_header(authorization(), value.as_str())
    }

    /// Builds the request for `data` and passes it through the interceptor.
    /// `DELETE` and `GET` carry the payload in the query string and have no
    /// body; `POST` and `PUT` carry it as JSON in the body, announced by a
    /// header. The call that comes back is ready to be sent.
    pub fn send(self, data: &I) -> (r: Result<PendingCall<'a, O, T>, Error>) where I: Payload
        ensures
            match request_view(
                self.spec_url(),
                self.spec_rest().spec_method(),
                self.spec_headers(),
                data.fields(),
            ) {
                Ok(built) => self.spec_interceptor().before(self.spec_url(), built, pending_of(r)),
                Err(error) => pending_of(r) == Err::<HttpRequestView, ErrorView>(error),
            },
            r matches Ok(call) ==> call.spec_interceptor() == self.spec_interceptor(),
    {
        let method = *self.rest.method();
        let built = match method.encoding() {
            PayloadEncoding::QueryString => as_query_string(
                self.url.as_str(),
                method,
                &self.headers,
                data,
            ),
            PayloadEncoding::JsonBody => as_body(self.url.as_str(), method, &self.headers, data),
        };
        match built {
            Err(error) => Err(error),
            Ok(request) => match self.interceptor.before_request(self.url.as_str(), request) {
                Err(error) => Err(error),
                Ok(request) => Ok(
                    PendingCall { request, interceptor: self.interceptor, output: PhantomData },
                ),
            },
        }
    }
}

/// The text that basic authentication encodes in base64: the user name, a
/// colon, and the password where there is one.
pub fn basic_auth_user_pass(username: &str, password: Option<&str>) -> (r: String)
    ensures
        r@ == user_pass(
            username@,
            match password {
                Some(secret) => Some(secret@),
                None => None,
            },
        ),
{
    let mut joined = join(username, ":");
    match password {
        Some(secret) => {
            joined.append(secret);
        },
        None => {
            assert(joined@ + Seq::<char>::empty() =~= joined@);
        },
    }
    joined
}

/// A call whose request is built and waits to be sent.
pub struct PendingCall<'a, O, T: Interceptor> {
    request: HttpRequest,
    interceptor: &'a T,
    output: PhantomData<O>,
}

/// A pending call or the error in its place, as specifications see it.
pub open spec fn pending_of<'a, O, T: Interceptor>(r: Result<PendingCall<'a, O, T>, Error>) -> Result<
    HttpRequestView,
    ErrorView,
> {
    match r {
        Ok(call) => Ok(call.spec_request()),
        Err(error) => Err(error@),
    }
}

impl<'a, O, T: Interceptor> PendingCall<'a, O, T> {
    /// The request to send.
    pub closed spec fn spec_request(&self) -> HttpRequestView {
        self.request@
    }

    /// The interceptor that sees the response.
    pub closed spec fn spec_interceptor(&self) -> T {
        *self.interceptor
    }

    /// The request to send.
    pub fn request(&self) -> (r: &HttpRequest)
        ensures
            r@ == self.spec_request(),
    {
        &self.request
    }

    /// Finishes the call with what the transport reports: the response that
    /// arrived, or the reason why the request could not be sent. The report
    /// passes through the interceptor; what comes out of it is decoded.
    pub fn receive(self, arrived: Result<HttpResponse, String>) -> (r: Result<O, Error>) where
        O: Payload,

        ensures
            exists|passed: Result<HttpResponseView, ErrorView>|
                #[trigger] self.spec_interceptor().after(arrived_view(arrived), passed)
                    && payload_of(r) == match passed {
                    Ok(response) => decoded_view::<O>(response),
                    Err(error) => Err(error),
                },
    {
        let reported = match arrived {
            Ok(response) => Ok(response),
            Err(reason) => Err(send_failure(reason.as_str())),
        };
        let passed = self.interceptor.after_response(reported);
        let ghost seen = response_of(passed);
        let r = match passed {
            Ok(response) => into_http_response(response),
            Err(error) => Err(error),
        };
        assert(self.spec_interceptor().after(arrived_view(arrived), seen));
        r
    }
}

} // verus!
