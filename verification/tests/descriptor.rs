use ajars::api::{PingRequest, PingResponse};
use ajars::descriptor::{
    application_json, content_type, HttpMethod, PayloadEncoding, Rest, RestFluent, RestType,
};

type Ping = Rest<PingRequest, PingResponse>;
type FluentPing = RestFluent<PingRequest, PingResponse>;

#[test]
fn const_descriptor_keeps_verb_and_path() {
    let rest: Rest<String, String> = Rest::get("/api/ping");
    assert_eq!(rest.path(), "/api/ping");
    assert_eq!(*rest.method(), HttpMethod::GET);
}

#[test]
fn fluent_descriptor_keeps_verb_and_path() {
    let rest: RestFluent<String, String> = RestFluent::put("/api/thing");
    assert_eq!(rest.path(), "/api/thing");
    assert_eq!(*rest.method(), HttpMethod::PUT);
    assert_eq!(rest.method().encoding(), PayloadEncoding::JsonBody);
}

#[test]
fn each_helper_fixes_its_verb() {
    assert_eq!(*Ping::delete("/a").method(), HttpMethod::DELETE);
    assert_eq!(*Ping::get("/a").method(), HttpMethod::GET);
    assert_eq!(*Ping::post("/a").method(), HttpMethod::POST);
    assert_eq!(*Ping::put("/a").method(), HttpMethod::PUT);
    assert_eq!(*FluentPing::delete("/a").method(), HttpMethod::DELETE);
    assert_eq!(*FluentPing::get("/a").method(), HttpMethod::GET);
    assert_eq!(*FluentPing::post("/a").method(), HttpMethod::POST);
    assert_eq!(*FluentPing::put("/a").method(), HttpMethod::PUT);
}

#[test]
fn new_takes_any_verb() {
    for method in [HttpMethod::DELETE, HttpMethod::GET, HttpMethod::POST, HttpMethod::PUT] {
        let rest = Ping::new(method, "/api/const");
        assert_eq!(*rest.method(), method);
        assert_eq!(rest.path(), "/api/const");
        let path = format!("/api/{}", 4711);
        let rest = FluentPing::new(method, &path);
        assert_eq!(*rest.method(), method);
        assert_eq!(rest.path(), "/api/4711");
    }
}

#[test]
fn the_empty_path_is_a_path() {
    assert_eq!(Ping::get("").path(), "");
    assert_eq!(FluentPing::get("").path(), "");
}

#[test]
fn build_makes_a_fluent_descriptor_of_the_same_types() {
    let rest: FluentPing = <Ping as RestType<PingRequest, PingResponse>>::build(
        HttpMethod::POST,
        "/api/built",
    );
    assert_eq!(*rest.method(), HttpMethod::POST);
    assert_eq!(rest.path(), "/api/built");
}

#[test]
fn a_clone_describes_the_same_endpoint() {
    let rest = Ping::delete("/api/ping");
    let copy = rest.clone();
    assert_eq!(copy.path(), rest.path());
    assert_eq!(copy.method(), rest.method());
    let rest = FluentPing::post("/api/ping");
    let copy = rest.clone();
    assert_eq!(copy.path(), rest.path());
    assert_eq!(copy.method(), rest.method());
}

#[test]
fn read_verbs_use_the_query_and_write_verbs_the_body() {
    assert_eq!(HttpMethod::DELETE.encoding(), PayloadEncoding::QueryString);
    assert_eq!(HttpMethod::GET.encoding(), PayloadEncoding::QueryString);
    assert_eq!(HttpMethod::POST.encoding(), PayloadEncoding::JsonBody);
    assert_eq!(HttpMethod::PUT.encoding(), PayloadEncoding::JsonBody);
}

#[test]
fn verbs_are_written_in_upper_case() {
    assert_eq!(HttpMethod::DELETE.name(), "DELETE");
    assert_eq!(HttpMethod::GET.name(), "GET");
    assert_eq!(HttpMethod::POST.name(), "POST");
    assert_eq!(HttpMethod::PUT.name(), "PUT");
}

#[test]
fn a_json_body_is_announced_by_content_type() {
    assert_eq!(content_type(), "Content-Type");
    assert_eq!(application_json(), "application/json");
}
