use ajars::api::{MyError, PingRequest, PingResponse};
use ajars::codec::decode_json;
use ajars::descriptor::{HttpMethod, PayloadEncoding, Rest, RestFluent, RestType};
use ajars::fields::Fields;
use ajars::message::{HttpRequest, HttpResponse};
use ajars::server::{
    extract, json_response, respond, AjarsServerHandler, IntoResponse, Json, ServeError,
};

#[derive(Debug, Clone)]
struct ServerError {}

impl IntoResponse for ServerError {
    fn into_response(self) -> HttpResponse {
        HttpResponse::new(418, "teapot")
    }
}

fn ping(body: PingRequest, _state: ()) -> Result<PingResponse, ServerError> {
    Ok(PingResponse { message: body.message })
}

fn json_headers() -> Fields {
    let mut headers = Fields::new();
    headers.insert("Content-Type", "application/json");
    headers
}

fn query_request(method: HttpMethod, path: &str, message: &str) -> HttpRequest {
    HttpRequest {
        method,
        uri: format!("{}?message={}", path, message),
        headers: json_headers(),
        body: None,
    }
}

fn body_request(method: HttpMethod, path: &str, message: &str) -> HttpRequest {
    HttpRequest {
        method,
        uri: path.to_owned(),
        headers: json_headers(),
        body: Some(format!("{{\"message\":\"{}\"}}", message)),
    }
}

fn message_of(response: &HttpResponse) -> String {
    let body = decode_json(&response.body).unwrap();
    body.get("message").unwrap().clone()
}

#[test]
fn should_create_a_delete_endpoint() {
    let rest = RestFluent::<PingRequest, PingResponse>::delete("/api/something/4711");
    let app = rest.to(ping);
    let payload = PingRequest { message: "message1234".to_owned() };

    let response = app
        .serve(&query_request(HttpMethod::DELETE, rest.path(), &payload.message), ((),))
        .unwrap();

    assert_eq!(response.status, 200);
    assert_eq!("application/json", response.headers.get("Content-Type").unwrap());
    assert_eq!(message_of(&response), payload.message);
}

#[test]
fn should_create_a_get_endpoint() {
    let rest = RestFluent::<PingRequest, PingResponse>::get("/api/something/4712");
    let app = rest.to(ping);
    let payload = PingRequest { message: "message5678".to_owned() };

    let response = app
        .serve(&query_request(HttpMethod::GET, rest.path(), &payload.message), ((),))
        .unwrap();

    assert_eq!(response.status, 200);
    assert_eq!("application/json", response.headers.get("Content-Type").unwrap());
    assert_eq!(message_of(&response), payload.message);
}

#[test]
fn should_create_a_post_endpoint() {
    let rest = RestFluent::<PingRequest, PingResponse>::post("/api/something/4713");
    let app = rest.to(ping);
    let payload = PingRequest { message: "message9012".to_owned() };

    let response = app
        .serve(&body_request(HttpMethod::POST, rest.path(), &payload.message), ((),))
        .unwrap();

    assert_eq!(response.status, 200);
    assert_eq!("application/json", response.headers.get("Content-Type").unwrap());
    assert_eq!(message_of(&response), payload.message);
}

#[test]
fn should_create_a_put_endpoint() {
    let rest = RestFluent::<PingRequest, PingResponse>::put("/api/something/4714");
    let app = rest.to(ping);
    let payload = PingRequest { message: "message3456".to_owned() };

    let response = app
        .serve(&body_request(HttpMethod::PUT, rest.path(), &payload.message), ((),))
        .unwrap();

    assert_eq!(response.status, 200);
    assert_eq!("application/json", response.headers.get("Content-Type").unwrap());
    assert_eq!(message_of(&response), payload.message);
}

#[test]
fn route_should_accept_variable_number_of_params() {
    let rest = RestFluent::<PingRequest, PingResponse>::delete("/api/something/4715");

    // Accept 1 param
    let _ = rest.to(|body: PingRequest| {
        Result::<_, ServerError>::Ok(PingResponse { message: body.message })
    });

    // Accept 2 param
    let _ = rest.to(|body: PingRequest, _: ()| {
        Result::<_, ServerError>::Ok(PingResponse { message: body.message })
    });

    // Accept 3 param
    let _ = rest.to(|body: PingRequest, _: String, _: String| {
        Result::<_, ServerError>::Ok(PingResponse { message: body.message })
    });

    // Accept 4 param
    let _ = rest.to(|body: PingRequest, _: (), _: String, _: usize| {
        Result::<_, ServerError>::Ok(PingResponse { message: body.message })
    });

    // Accept 5 param
    let _ = rest.to(|body: PingRequest, _: (), _: String, _: u64, _: ()| {
        Result::<_, ServerError>::Ok(PingResponse { message: body.message })
    });
}

#[test]
fn route_accepts_up_to_nine_further_params() {
    let rest = Rest::<PingRequest, PingResponse>::post("/api/nine");
    let route = rest.to(
        |body: PingRequest,
         a: u8,
         b: u8,
         c: u8,
         d: u8,
         e: u8,
         f: u8,
         g: u8,
         h: u8,
         i: u8| {
            let sum = a + b + c + d + e + f + g + h + i;
            Result::<_, ServerError>::Ok(PingResponse {
                message: format!("{}{}", body.message, sum),
            })
        },
    );
    let response = route
        .serve(&body_request(HttpMethod::POST, "/api/nine", "sum"), (1, 2, 3, 4, 5, 6, 7, 8, 9))
        .unwrap();
    assert_eq!(message_of(&response), "sum45");
}

#[test]
fn a_handler_with_two_further_values_binds_like_one_with_none() {
    let rest = Rest::<PingRequest, PingResponse>::get("/api/ping");
    let alone = rest.to(|body: PingRequest| {
        Result::<_, ServerError>::Ok(PingResponse { message: body.message })
    });
    let with_two = rest.to(|body: PingRequest, _state: u32, _peer: String| {
        Result::<_, ServerError>::Ok(PingResponse { message: body.message })
    });

    assert_eq!(alone.method(), with_two.method());
    assert_eq!(alone.path(), with_two.path());
    assert_eq!(alone.decoding(), with_two.decoding());

    let request = query_request(HttpMethod::GET, "/api/ping", "X");
    let first = alone.serve(&request, ()).unwrap();
    let second = with_two.serve(&request, (7, "peer".to_owned())).unwrap();
    assert_eq!(first.status, second.status);
    assert_eq!(first.headers.pairs(), second.headers.pairs());
    assert_eq!(first.body, second.body);
    assert_eq!(first.body, "{\"message\":\"X\"}");
}

#[test]
fn further_values_reach_the_handler_in_their_order() {
    let rest = Rest::<PingRequest, PingResponse>::post("/api/ping");
    let route = rest.to(|body: PingRequest, first: String, second: u16| {
        Result::<_, ServerError>::Ok(PingResponse {
            message: format!("{}-{}-{}", body.message, first, second),
        })
    });
    let answer = route
        .call(PingRequest { message: "m".to_owned() }, ("a".to_owned(), 2))
        .ok()
        .unwrap();
    assert_eq!(answer.0.message, "m-a-2");
}

#[test]
fn a_route_keeps_verb_and_path_of_its_descriptor() {
    let rest = Rest::<PingRequest, PingResponse>::put("/api/ping");
    let route = rest.handle(ping);
    assert_eq!(route.method(), HttpMethod::PUT);
    assert_eq!(route.path(), "/api/ping");
    assert_eq!(route.decoding(), PayloadEncoding::JsonBody);
    let route = RestFluent::<PingRequest, PingResponse>::delete("/x").to(ping);
    assert_eq!(route.method(), HttpMethod::DELETE);
    assert_eq!(route.path(), "/x");
    assert_eq!(route.decoding(), PayloadEncoding::QueryString);
}

#[test]
fn an_error_of_the_handler_goes_out_as_its_own_response() {
    let rest = Rest::<PingRequest, PingResponse>::get("/api/ping");
    let route = rest.to(|_: PingRequest| Result::<PingResponse, _>::Err(ServerError {}));
    let response = route.serve(&query_request(HttpMethod::GET, "/api/ping", "X"), ()).unwrap();
    assert_eq!(response.status, 418);
    assert_eq!(response.body, "teapot");
}

#[test]
fn the_sample_error_is_an_internal_server_error() {
    let response = MyError {}.into_response();
    assert_eq!(response.status, 500);
    assert_eq!(response.body, "");
    assert_eq!(response.headers.len(), 0);
}

#[test]
fn a_response_is_its_own_error_response() {
    let response = HttpResponse::new(404, "not here").into_response();
    assert_eq!(response.status, 404);
    assert_eq!(response.body, "not here");
}

#[test]
fn extract_reads_the_query_for_get_and_delete() {
    for method in [HttpMethod::GET, HttpMethod::DELETE] {
        let request = HttpRequest {
            method,
            uri: "/api/ping?message=in+query".to_owned(),
            headers: Fields::new(),
            body: Some("{\"message\":\"in body\"}".to_owned()),
        };
        let payload: PingRequest = extract(method, &request).unwrap();
        assert_eq!(payload.message, "in query");
    }
}

#[test]
fn extract_reads_the_body_for_post_and_put() {
    for method in [HttpMethod::POST, HttpMethod::PUT] {
        let request = HttpRequest {
            method,
            uri: "/api/ping?message=in+query".to_owned(),
            headers: Fields::new(),
            body: Some("{\"message\":\"in body\"}".to_owned()),
        };
        let payload: PingRequest = extract(method, &request).unwrap();
        assert_eq!(payload.message, "in body");
    }
}

#[test]
fn extract_refuses_a_request_without_the_payload() {
    let no_query = HttpRequest {
        method: HttpMethod::GET,
        uri: "/api/ping".to_owned(),
        headers: Fields::new(),
        body: None,
    };
    match extract::<PingRequest>(HttpMethod::GET, &no_query) {
        Err(ServeError::Decode { reason }) => assert_eq!(reason, "missing field `message`"),
        _ => panic!("expected a decode error"),
    }
    let no_body = HttpRequest {
        method: HttpMethod::POST,
        uri: "/api/ping".to_owned(),
        headers: Fields::new(),
        body: None,
    };
    match extract::<PingRequest>(HttpMethod::POST, &no_body) {
        Err(ServeError::Decode { reason }) => {
            assert_eq!(reason, "Error(\"EOF while parsing a value\", line: 1, column: 0)")
        }
        _ => panic!("expected a decode error"),
    }
}

#[test]
fn serve_does_not_call_the_handler_for_an_unreadable_payload() {
    let rest = Rest::<PingRequest, PingResponse>::post("/api/ping");
    let route = rest.to(|_: PingRequest| -> Result<PingResponse, ServerError> {
        panic!("the handler must not be called")
    });
    let request = HttpRequest {
        method: HttpMethod::POST,
        uri: "/api/ping".to_owned(),
        headers: Fields::new(),
        body: Some("not json".to_owned()),
    };
    assert!(matches!(route.serve(&request, ()), Err(ServeError::Decode { .. })));
}

#[test]
fn respond_writes_a_value_as_json() {
    let answer: Result<Json<PingResponse>, ServerError> =
        Ok(Json(PingResponse { message: "PONG".to_owned() }));
    let response = respond(answer).unwrap();
    assert_eq!(response.status, 200);
    assert_eq!(response.body, "{\"message\":\"PONG\"}");
    assert_eq!(response.headers.get("Content-Type").unwrap(), "application/json");
    assert_eq!(response.headers.len(), 1);
}

#[test]
fn json_response_reports_an_encoder_that_failed() {
    match json_response(Err("key must be a string".to_owned())) {
        Err(ServeError::Encode { reason }) => assert_eq!(reason, "key must be a string"),
        _ => panic!("expected an encode error"),
    }
    let response = json_response(Ok("[]".to_owned())).unwrap();
    assert_eq!(response.status, 200);
    assert_eq!(response.body, "[]");
}
