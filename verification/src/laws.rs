//! What holds of every call: where the payload travels, that the server
//! looks for it where the client put it, and that a response whose status
//! reports a failure never decodes.

use crate::client::{
    authorization_name, body_request_view, decoded_view, is_failure, query_request_view,
    refused, request_view,
};
use crate::codec::{
    json_object_text, json_text_reads_back, query_text_reads_back, urlencoded_form,
};
use crate::descriptor::{content_type_json, content_type_name, HttpMethod, PayloadEncoding};
use crate::error::ErrorView;
use crate::fields::{as_map, Entries};
use crate::message::{HttpRequestView, HttpResponseView};
use crate::payload::{reads_back, Payload};
use crate::server::{answer_view, carried_text, extracted_view, IntoResponse, ServeErrorView};
use crate::text::lemma_cut_joined;
use vstd::prelude::*;

verus! {

/// A `DELETE` or `GET` request carries the payload in the query string: the
/// target is the URL, a question mark and the encoded fields, and there is no
/// body. It exists exactly where the fields can be encoded.
pub proof fn lemma_query_verbs_use_the_query_string(
    uri: Seq<char>,
    method: HttpMethod,
    headers: Map<Seq<char>, Seq<char>>,
    fields: Entries,
)
    requires
        method == HttpMethod::DELETE || method == HttpMethod::GET,
    ensures
        match urlencoded_form(fields) {
            Ok(query) => request_view(uri, method, headers, fields) == Ok::<
                HttpRequestView,
                ErrorView,
            >(HttpRequestView { method, uri: uri + "?"@ + query, headers, body: None }),
            Err(reason) => request_view(uri, method, headers, fields) is Err,
        },
{
}

/// A `POST` or `PUT` request carries the payload in the body: the target is
/// the URL alone, the body is the JSON text of the fields, a header announces
/// JSON, and every other header is as it was set. It exists exactly where
/// the fields can be encoded.
pub proof fn lemma_body_verbs_use_a_json_body(
    uri: Seq<char>,
    method: HttpMethod,
    headers: Map<Seq<char>, Seq<char>>,
    fields: Entries,
)
    requires
        method == HttpMethod::POST || method == HttpMethod::PUT,
    ensures
        match json_object_text(as_map(fields)) {
            Ok(json) => {
                &&& request_view(uri, method, headers, fields) matches Ok(request)
                &&& request.method == method
                &&& request.uri == uri
                &&& request.body == Some(json)
                &&& request.headers.dom().contains(content_type_name())
                &&& request.headers[content_type_name()] == content_type_json()
                &&& forall|name: Seq<char>|
                    name != content_type_name() ==> (request.headers.dom().contains(name)
                        <==> headers.dom().contains(name)) && request.headers[name]
                        == headers[name]
            },
            Err(reason) => request_view(uri, method, headers, fields) is Err,
        },
{
}

/// The server looks for the payload where the client put it: whatever the
/// verb, the text that a request built for an encoded payload carries at the
/// place that goes with the verb is that encoded payload. The URL of the
/// endpoint holds no question mark of its own.
pub proof fn lemma_payload_is_read_where_it_was_written(
    uri: Seq<char>,
    method: HttpMethod,
    headers: Map<Seq<char>, Seq<char>>,
    encoded: Seq<char>,
)
    requires
        forall|j: int| 0 <= j < uri.len() ==> uri[j] != '?',
    ensures
        match method.spec_encoding() {
            PayloadEncoding::QueryString => query_request_view(
                uri,
                method,
                headers,
                Ok(encoded),
            ) matches Ok(request) && carried_text(method, request) == encoded,
            PayloadEncoding::JsonBody => body_request_view(
                uri,
                method,
                headers,
                Ok(encoded),
            ) matches Ok(request) && carried_text(method, request) == encoded,
        },
{
    reveal_strlit("?");
    assert("?"@ =~= seq!['?']);
    lemma_cut_joined(uri, encoded);
}

/// An echoed payload comes back as it was sent, wherever the two formats
/// read back what they write for it: the request that the client builds
/// carries the payload to the handler, and the response to a handler that
/// answers with the same payload decodes to it. The URL of the endpoint holds
/// no question mark of its own.
pub proof fn lemma_echo_round_trip<P: Payload, E: IntoResponse>(
    uri: Seq<char>,
    method: HttpMethod,
    headers: Map<Seq<char>, Seq<char>>,
    value: P,
)
    requires
        forall|j: int| 0 <= j < uri.len() ==> uri[j] != '?',
        reads_back(value),
        json_text_reads_back(value.fields()),
        method.spec_encoding() == PayloadEncoding::QueryString ==> query_text_reads_back(
            value.fields(),
        ),
    ensures
        request_view(uri, method, headers, value.fields()) matches Ok(request)
            && extracted_view::<P>(method, request) == Ok::<Entries, ServeErrorView>(
            value.fields(),
        ),
        answer_view::<P, E>(Ok(value)) matches Ok(response) && decoded_view::<P>(response)
            == Ok::<Entries, ErrorView>(value.fields()),
{
    match method.spec_encoding() {
        PayloadEncoding::QueryString => {
            lemma_payload_is_read_where_it_was_written(
                uri,
                method,
                headers,
                urlencoded_form(value.fields())->Ok_0,
            );
        },
        PayloadEncoding::JsonBody => {
            lemma_payload_is_read_where_it_was_written(
                uri,
                method,
                headers,
                json_object_text(as_map(value.fields()))->Ok_0,
            );
        },
    }
}

/// A response whose status reports a failure of the client or of the server
/// is refused, whatever its body holds and whatever type was expected.
pub proof fn lemma_failure_status_never_decodes<O: Payload>(response: HttpResponseView)
    requires
        is_failure(response.status),
    ensures
        decoded_view::<O>(response) == Err::<Entries, ErrorView>(refused(response)),
        refused(response) is Response,
{
}

/// An application error of a handler reaches the client as an error: the
/// server answers with the response that the error converts to, and the
/// client refuses that response, provided that its status reports a failure.
pub proof fn lemma_handler_error_reaches_the_client<O: Payload, E: IntoResponse>(error: E)
    requires
        is_failure(error.response_view().status),
    ensures
        answer_view::<O, E>(Err(error)) == Ok::<HttpResponseView, ServeErrorView>(
            error.response_view(),
        ),
        decoded_view::<O>(error.response_view()) is Err,
{
}

/// The header that announces the format of the body and the header that
/// carries credentials are two headers.
pub proof fn lemma_header_names_differ()
    ensures
        content_type_name() != authorization_name(),
{
    reveal_strlit("Content-Type");
    reveal_strlit("AUTHORIZATION");
    assert("Content-Type"@[0] != "AUTHORIZATION"@[0]);
}

} // verus!
