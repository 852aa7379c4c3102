use rest_client::boundary::{
    plugin_manager_destroy, plugin_manager_load_plugin, plugin_manager_new,
    plugin_manager_post_receive, plugin_manager_pre_send, plugin_manager_unload,
    request_create, request_destroy, request_send, response_body, response_body_length,
    response_destroy,
};
use rest_client::error::ErrorKind;
use rest_client::error_channel::{last_error_message, take_last_error, ErrorChannel};
use rest_client::headers::Headers;
use rest_client::injector::Injector;
use rest_client::plugins::{BridgeFailure, PluginManager};
use rest_client::request::Request;
use rest_client::response::{Reply, Response};
use rest_client::table::Table;

fn reply_with(status: u16, body: &[u8]) -> impl Fn(&Request) -> Result<Reply, String> + '_ {
    move |_r: &Request| Ok(Reply { status, headers: Headers::new(), body: body.to_vec() })
}

#[test]
fn create_and_destroy_request_twice() {
    let mut requests = Table::new();
    let mut errors = ErrorChannel::new();
    let h = request_create(&mut requests, &mut errors, "https://example.com/a");
    assert_ne!(h, 0);
    assert!(requests.contains(h));
    assert_eq!(requests.get(h).unwrap().destination(), "https://example.com/a");
    request_destroy(&mut requests, h);
    assert!(!requests.contains(h));
    request_destroy(&mut requests, h);
    request_destroy(&mut requests, 0);
    assert!(take_last_error(&mut errors).is_none());
}

#[test]
fn malformed_url_gives_null_and_invalid_input() {
    let mut requests = Table::new();
    let mut errors = ErrorChannel::new();
    assert_eq!(request_create(&mut requests, &mut errors, "::not a url::"), 0);
    let e = take_last_error(&mut errors).unwrap();
    assert_eq!(e.kind, ErrorKind::InvalidInput);
}

#[test]
fn body_copy_into_small_buffer_fails() {
    let mut requests = Table::new();
    let mut responses = Table::new();
    let mut errors = ErrorChannel::new();
    let req = request_create(&mut requests, &mut errors, "http://localhost/").unwrap_or_zero();
    let res = request_send(&requests, &mut responses, &mut errors, req, reply_with(200, b"hello"));
    assert_ne!(res, 0);
    assert_eq!(response_body_length(&responses, &mut errors, res), 5);
    let mut small = [9u8; 4];
    assert_eq!(response_body(&responses, &mut errors, res, &mut small), -1);
    assert_eq!(small, [9u8; 4]);
    assert_eq!(take_last_error(&mut errors).unwrap().kind, ErrorKind::BufferTooSmall);
    let mut big = [9u8; 8];
    assert_eq!(response_body(&responses, &mut errors, res, &mut big), 5);
    assert_eq!(&big, b"hello\x09\x09\x09");
    response_destroy(&mut responses, res);
    assert_eq!(response_body(&responses, &mut errors, res, &mut big), -1);
    assert_eq!(take_last_error(&mut errors).unwrap().kind, ErrorKind::NullPointer);
    assert_eq!(response_body_length(&responses, &mut errors, res), 0);
}

trait OrZero {
    fn unwrap_or_zero(self) -> usize;
}

impl OrZero for usize {
    fn unwrap_or_zero(self) -> usize {
        self
    }
}

#[test]
fn sending_error_status_gives_null() {
    let mut requests = Table::new();
    let mut responses: Table<Response> = Table::new();
    let mut errors = ErrorChannel::new();
    let req = request_create(&mut requests, &mut errors, "http://localhost/");
    assert_eq!(request_send(&requests, &mut responses, &mut errors, req, reply_with(500, b"")), 0);
    let mut buffer = [0u8; 64];
    let n = last_error_message(&mut errors, &mut buffer);
    assert_eq!(&buffer[..n as usize], b"Sending request failed.");
    assert_eq!(request_send(&requests, &mut responses, &mut errors, req, |_r: &Request| Err(String::from("refused"))), 0);
    let e = take_last_error(&mut errors).unwrap();
    assert_eq!(e.kind, ErrorKind::TransportError);
    assert_eq!(e.causes, vec![String::from("The request failed"), String::from("refused")]);
    assert_eq!(request_send(&requests, &mut responses, &mut errors, 77, reply_with(200, b"")), 0);
    assert_eq!(take_last_error(&mut errors).unwrap().kind, ErrorKind::NullPointer);
}

#[test]
fn manager_handles() {
    let mut managers: Table<PluginManager<Injector>> = Table::new();
    let mut requests = Table::new();
    let mut responses = Table::new();
    let mut errors = ErrorChannel::new();
    let pm = plugin_manager_new(&mut managers, &mut errors);
    assert_ne!(pm, 0);
    assert_eq!(plugin_manager_load_plugin(&mut managers, &mut errors, pm, Ok(Injector)), 0);
    assert_eq!(
        plugin_manager_load_plugin(&mut managers, &mut errors, pm, Err(BridgeFailure::Symbol(String::from("x")))),
        -1
    );
    let e = take_last_error(&mut errors).unwrap();
    assert_eq!(e.kind, ErrorKind::SymbolMissing);
    assert_eq!(e.message, "Loading plugin failed");
    let req = request_create(&mut requests, &mut errors, "http://localhost/");
    assert_eq!(plugin_manager_pre_send(&mut managers, &mut requests, &mut errors, pm, req), 0);
    assert_eq!(requests.get(req).unwrap().headers.get("some-dodgy-header"), vec![b"true".to_vec()]);
    let mut headers = Headers::new();
    headers.set("some-dodgy-header", "true");
    let res = responses.insert(Response { status: 200, headers, body: vec![] });
    assert_eq!(plugin_manager_post_receive(&mut managers, &mut responses, &mut errors, pm, res), 0);
    assert_eq!(responses.get(res).unwrap().headers.len(), 0);
    assert_eq!(plugin_manager_pre_send(&mut managers, &mut requests, &mut errors, pm, 999), -1);
    assert_eq!(plugin_manager_unload(&mut managers, &mut errors, pm), 0);
    assert_eq!(managers.get(pm).unwrap().len(), 0);
    let _ = plugin_manager_destroy(&mut managers, pm);
    assert!(!managers.contains(pm));
    assert_eq!(plugin_manager_unload(&mut managers, &mut errors, pm), -1);
    assert_eq!(plugin_manager_load_plugin(&mut managers, &mut errors, pm, Ok(Injector)), -1);
}

#[test]
fn empty_body_fits_an_empty_buffer() {
    let mut requests = Table::new();
    let mut responses = Table::new();
    let mut errors = ErrorChannel::new();
    let req = request_create(&mut requests, &mut errors, "http://localhost/empty");
    let res = request_send(&requests, &mut responses, &mut errors, req, reply_with(204, b""));
    assert_ne!(res, 0);
    let mut none: [u8; 0] = [];
    assert_eq!(response_body(&responses, &mut errors, res, &mut none), 0);
    assert!(take_last_error(&mut errors).is_none());
}
