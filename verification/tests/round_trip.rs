use ajars::api::{
    ping, InfoRequest, MyError, PingRequest, PingResponse, Simple,
};
use ajars::client::AjarsClientWeb;
use ajars::descriptor::{HttpMethod, Rest, RestFluent, RestType};
use ajars::error::Error;
use ajars::message::HttpResponse;
use ajars::payload::Payload;
use ajars::server::AjarsServerHandler;

fn echo(body: Simple<String>, _state: ()) -> Result<Simple<String>, MyError> {
    Ok(body)
}

fn perform_call<REST: RestType<Simple<String>, Simple<String>>>(rest: &REST) {
    // Arrange
    let route = rest.to(echo);
    let ajars = AjarsClientWeb::new("http://127.0.0.1:8080").unwrap();
    let req_data = Simple { inner: "1234567890".to_owned() };

    // Act
    let call = ajars.request(rest).send(&req_data).ok().unwrap();
    let arrived = route.serve(call.request(), ((),)).map_err(|error| format!("{:?}", error));
    let response = call.receive(arrived);

    // Assert
    assert_eq!(req_data, response.unwrap());
}

#[test]
fn test_rest() {
    perform_call(&RestFluent::<Simple<String>, Simple<String>>::delete("/api/4711"));
    perform_call(&Rest::<Simple<String>, Simple<String>>::get("/api/const"));
    perform_call(&RestFluent::<Simple<String>, Simple<String>>::post("/api/4712"));
    perform_call(&RestFluent::<Simple<String>, Simple<String>>::put("/api/4713"));
}

#[test]
fn an_echoed_ping_comes_back_as_it_was_sent() {
    let rest = Rest::<PingRequest, PingRequest>::get("/api/ping");
    let route = rest.to(|body: PingRequest| Result::<_, MyError>::Ok(body));
    let client = AjarsClientWeb::new("http://localhost").unwrap();

    let call = client.request(&rest).send(&PingRequest { message: "X".to_owned() }).ok().unwrap();
    assert_eq!(call.request().uri, "http://localhost/api/ping?message=X");
    let arrived = route.serve(call.request(), ()).map_err(|error| format!("{:?}", error));
    let answer = call.receive(arrived).unwrap();

    assert_eq!(answer.message, "X");
}

#[test]
fn an_echo_keeps_what_the_formats_must_escape() {
    let message = "a b&c=d?e \"quoted\" \\ \u{e9}\u{2713}";
    for method in [HttpMethod::DELETE, HttpMethod::GET, HttpMethod::POST, HttpMethod::PUT] {
        let rest = RestFluent::<Simple<String>, Simple<String>>::new(method, "/api/echo");
        let route = rest.to(echo);
        let client = AjarsClientWeb::new("http://localhost").unwrap();
        let call =
            client.request(&rest).send(&Simple { inner: message.to_owned() }).ok().unwrap();
        let arrived = route.serve(call.request(), ((),)).map_err(|error| format!("{:?}", error));
        assert_eq!(call.receive(arrived).unwrap().inner, message);
    }
}

#[test]
fn the_ping_endpoint_answers_pong() {
    let rest = ping();
    assert_eq!(rest.path(), "/ping");
    assert_eq!(*rest.method(), HttpMethod::POST);
    let route = rest.to(|_body: PingRequest| {
        Result::<_, MyError>::Ok(PingResponse { message: "PONG".to_owned() })
    });
    let client = AjarsClientWeb::new("http://127.0.0.1:8080").unwrap();
    let call =
        client.request(&rest).send(&PingRequest { message: "PING".to_owned() }).ok().unwrap();
    assert_eq!(call.request().uri, "http://127.0.0.1:8080/ping");
    let arrived = route.serve(call.request(), ()).map_err(|error| format!("{:?}", error));
    assert_eq!(call.receive(arrived).unwrap().message, "PONG");
}

#[test]
fn an_error_of_the_handler_is_an_error_at_the_client() {
    for method in [HttpMethod::DELETE, HttpMethod::GET, HttpMethod::POST, HttpMethod::PUT] {
        let rest = RestFluent::<PingRequest, PingResponse>::new(method, "/api/ping");
        let route = rest.to(|_: PingRequest| Result::<PingResponse, _>::Err(MyError {}));
        let client = AjarsClientWeb::new("http://localhost").unwrap();
        let call =
            client.request(&rest).send(&PingRequest { message: "X".to_owned() }).ok().unwrap();
        let arrived = route.serve(call.request(), ()).map_err(|error| format!("{:?}", error));
        match call.receive(arrived) {
            Err(Error::Response { status, .. }) => {
                assert_eq!(status.status(), 500);
                assert!(status.is_server_error());
            }
            _ => panic!("the client must see an error"),
        }
    }
}

#[test]
fn a_404_from_the_server_is_a_client_error_at_the_client() {
    let rest = Rest::<PingRequest, PingResponse>::get("/api/ping");
    let route = rest.to(|_: PingRequest| {
        Result::<PingResponse, _>::Err(HttpResponse::new(404, "{\"message\":\"no such thing\"}"))
    });
    let client = AjarsClientWeb::new("http://localhost").unwrap();
    let call =
        client.request(&rest).send(&PingRequest { message: "X".to_owned() }).ok().unwrap();
    let arrived = route.serve(call.request(), ()).map_err(|error| format!("{:?}", error));
    match call.receive(arrived) {
        Err(Error::Response { status, context, .. }) => {
            assert!(status.is_client_error());
            assert_eq!(status.status(), 404);
            assert_eq!(context, "Error HTTP status code received: 404");
        }
        Err(Error::Builder { .. }) => panic!("a 404 is no transport error"),
        Ok(_) => panic!("a 404 must not decode"),
    }
}

#[test]
fn sample_payloads_are_read_back_from_their_fields() {
    let ping = PingRequest { message: "m".to_owned() };
    assert_eq!(PingRequest::from_fields(&ping.to_fields()).unwrap().message, "m");
    let pong = PingResponse { message: "n".to_owned() };
    assert_eq!(PingResponse::from_fields(&pong.to_fields()).unwrap().message, "n");
    let simple = Simple { inner: "i".to_owned() };
    assert_eq!(Simple::<String>::from_fields(&simple.to_fields()).unwrap(), simple);
    let info = InfoRequest { payload: "p".to_owned() };
    assert_eq!(InfoRequest::<String>::from_fields(&info.to_fields()).unwrap().payload, "p");
}

#[test]
fn sample_payloads_name_their_fields() {
    let fields = PingRequest { message: "m".to_owned() }.to_fields();
    assert_eq!(fields.pairs(), &vec![("message".to_owned(), "m".to_owned())]);
    let fields = Simple { inner: "i".to_owned() }.to_fields();
    assert_eq!(fields.pairs(), &vec![("inner".to_owned(), "i".to_owned())]);
    let fields = InfoRequest { payload: "p".to_owned() }.to_fields();
    assert_eq!(fields.pairs(), &vec![("payload".to_owned(), "p".to_owned())]);
}
