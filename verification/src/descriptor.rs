//! Endpoint descriptors: an HTTP verb and a path, tagged with the types of
//! the request and of the response. One descriptor is shared by the client
//! that calls the endpoint and the server that answers it, so that both
//! agree on verb, path and payload types.

use std::marker::PhantomData;
use vstd::prelude::*;

verus! {

/// The HTTP verbs that an endpoint can be declared with.
#[derive(Clone, Copy, Debug, PartialEq, Eq, Structural)]
pub enum HttpMethod {
    DELETE,
    GET,
    POST,
    PUT,
}

/// Where a request carries its payload.
#[derive(Clone, Copy, Debug, PartialEq, Eq, Structural)]
pub enum PayloadEncoding {
    /// In the query string of the URL; the body stays empty.
    QueryString,
    /// In the body, as JSON, announced by a `Content-Type` header.
    JsonBody,
}

/// The name of the header that announces the format of a body.
pub open spec fn content_type_name() -> Seq<char> {
    "Content-Type"@
}

/// The value of that header for a JSON body.
pub open spec fn content_type_json() -> Seq<char> {
    "application/json"@
}

/// The name of the header that announces the format of a body.
pub fn content_type() -> (r: &'static str)
    ensures
        r@ == content_type_name(),
{
    "Content-Type"
}

/// The value of that header for a JSON body.
pub fn application_json() -> (r: &'static str)
    ensures
        r@ == content_type_json(),
{
    "application/json"
}

impl HttpMethod {
    /// `DELETE` and `GET` carry the payload in the query string, `POST` and
    /// `PUT` in a JSON body.
    pub open spec fn spec_encoding(&self) -> PayloadEncoding {
        match self {
            HttpMethod::DELETE | HttpMethod::GET => PayloadEncoding::QueryString,
            HttpMethod::POST | HttpMethod::PUT => PayloadEncoding::JsonBody,
        }
    }

    /// The verb as it is written on the wire.
    pub open spec fn spec_name(&self) -> Seq<char> {
        match self {
            HttpMethod::DELETE => "DELETE"@,
            HttpMethod::GET => "GET"@,
            HttpMethod::POST => "POST"@,
            HttpMethod::PUT => "PUT"@,
        }
    }

    /// Where a request with this verb carries its payload.
    #[verifier::when_used_as_spec(spec_encoding)]
    pub fn encoding(&self) -> (r: PayloadEncoding)
        ensures
            r == self.spec_encoding(),
    {
        match self {
            HttpMethod::DELETE | HttpMethod::GET => PayloadEncoding::QueryString,
            HttpMethod::POST | HttpMethod::PUT => PayloadEncoding::JsonBody,
        }
    }

    /// The verb as it is written on the wire.
        pub fn name(&self) -> (r: &'static str)
        ensures
            r@ == self.spec_name(),
    {
        match self {
            HttpMethod::DELETE => "DELETE",
            HttpMethod::GET => "GET",
            HttpMethod::POST => "POST",
            HttpMethod::PUT => "PUT",
        }
    }
}

/// What every endpoint descriptor offers: its path and its verb. `I` is the
/// type of the request payload and `O` the type of the response; neither has
/// a value inside the descriptor.
pub trait RestType<I, O> {
    /// The path, as specifications see it.
    spec fn spec_path(&self) -> Seq<char>;

    /// The verb, as specifications see it.
    spec fn spec_method(&self) -> HttpMethod;

    /// A descriptor with an owned path for the same pair of payload types.
    fn build(method: HttpMethod, path: &str) -> (r: RestFluent<I, O>)
        ensures
            r.method_view() == method,
            r.path_view() == path@,
    {
        RestFluent::new(method, path)
    }

    /// The path of the endpoint.
    fn path(&self) -> (r: &str)
        ensures
            r@ == self.spec_path(),
    ;

    /// The verb of the endpoint.
    fn method(&self) -> (r: &HttpMethod)
        ensures
            *r == self.spec_method(),
    ;
}

/// A descriptor whose path is a string literal.
pub struct Rest<I, O> {
    path: &'static str,
    method: HttpMethod,
    input: PhantomData<I>,
    output: PhantomData<O>,
}

impl<I, O> Clone for Rest<I, O> {
    fn clone(&self) -> (r: Self)
        ensures
            r.method_view() == self.method_view(),
            r.path_view() == self.path_view(),
    {
        Self { path: self.path, method: self.method, input: PhantomData, output: PhantomData }
    }
}

impl<I, O> RestType<I, O> for Rest<I, O> {
    open spec fn spec_path(&self) -> Seq<char> {
        self.path_view()
    }

    open spec fn spec_method(&self) -> HttpMethod {
        self.method_view()
    }

    fn path(&self) -> (r: &str) {
        self.path
    }

    fn method(&self) -> (r: &HttpMethod) {
        &self.method
    }
}

impl<I, O> Rest<I, O> {
    /// The path, as specifications see it.
    pub closed spec fn path_view(&self) -> Seq<char> {
        self.path@
    }

    /// The verb, as specifications see it.
    pub closed spec fn method_view(&self) -> HttpMethod {
        self.method
    }

    /// A descriptor for `method` at `path`.
    pub fn new(method: HttpMethod, path: &'static str) -> (r: Self)
        ensures
            r.method_view() == method,
            r.path_view() == path@,
    {
        Self { method, path, input: PhantomData, output: PhantomData }
    }

    /// A `DELETE` endpoint at `path`.
    pub fn delete(path: &'static str) -> (r: Self)
        ensures
            r.method_view() == HttpMethod::DELETE,
            r.path_view() == path@,
    {
        Self::new(HttpMethod::DELETE, path)
    }

    /// A `GET` endpoint at `path`.
    pub fn get(path: &'static str) -> (r: Self)
        ensures
            r.method_view() == HttpMethod::GET,
            r.path_view() == path@,
    {
        Self::new(HttpMethod::GET, path)
    }

    /// A `POST` endpoint at `path`.
    pub fn post(path: &'static str) -> (r: Self)
        ensures
            r.method_view() == HttpMethod::POST,
            r.path_view() == path@,
    {
        Self::new(HttpMethod::POST, path)
    }

    /// A `PUT` endpoint at `path`.
    pub fn put(path: &'static str) -> (r: Self)
        ensures
            r.method_view() == HttpMethod::PUT,
            r.path_view() == path@,
    {
        Self::new(HttpMethod::PUT, path)
    }
}

/// A descriptor that owns its path, for paths made at run time.
pub struct RestFluent<I, O> {
    path: String,
    method: HttpMethod,
    input: PhantomData<I>,
    output: PhantomData<O>,
}

impl<I, O> Clone for RestFluent<I, O> {
    fn clone(&self) -> (r: Self)
        ensures
            r.method_view() == self.method_view(),
            r.path_view() == self.path_view(),
    {
        Self {
            path: self.path.clone(),
            method: self.method,
            input: PhantomData,
            output: PhantomData,
        }
    }
}

impl<I, O> RestType<I, O> for RestFluent<I, O> {
    open spec fn spec_path(&self) -> Seq<char> {
        self.path_view()
    }

    open spec fn spec_method(&self) -> HttpMethod {
        self.method_view()
    }

    fn path(&self) -> (r: &str) {
        self.path.as_str()
    }

    fn method(&self) -> (r: &HttpMethod) {
        &self.method
    }
}

impl<I, O> RestFluent<I, O> {
    /// The path, as specifications see it.
    pub closed spec fn path_view(&self) -> Seq<char> {
        self.path@
    }

    /// The verb, as specifications see it.
    pub closed spec fn method_view(&self) -> HttpMethod {
        self.method
    }

    /// A descriptor for `method` at `path`.
    pub fn new(method: HttpMethod, path: &str) -> (r: Self)
        ensures
            r.method_view() == method,
            r.path_view() == path@,
    {
        Self { method, path: path.to_owned(), input: PhantomData, output: PhantomData }
    }

    /// A `DELETE` endpoint at `path`.
    pub fn delete(path: &str) -> (r: Self)
        ensures
            r.method_view() == HttpMethod::DELETE,
            r.path_view() == path@,
    {
        Self::new(HttpMethod::DELETE, path)
    }

    /// A `GET` endpoint at `path`.
    pub fn get(path: &str) -> (r: Self)
        ensures
            r.method_view() == HttpMethod::GET,
            r.path_view() == path@,
    {
        Self::new(HttpMethod::GET, path)
    }

    /// A `POST` endpoint at `path`.
    pub fn post(path: &str) -> (r: Self)
        ensures
            r.method_view() == HttpMethod::POST,
            r.path_view() == path@,
    {
        Self::new(HttpMethod::POST, path)
    }

    /// A `PUT` endpoint at `path`.
    pub fn put(path: &str) -> (r: Self)
        ensures
            r.method_view() == HttpMethod::PUT,
            r.path_view() == path@,
    {
        Self::new(HttpMethod::PUT, path)
    }
}

} // verus!
