use std::cell::RefCell;

use rest_client::error::ErrorKind;
use rest_client::headers::Headers;
use rest_client::pipeline::{complete_exchange, deliver, get, send_request};
use rest_client::plugins::{Plugin, PluginManager};
use rest_client::request::{Method, Request};
use rest_client::response::{Reply, Response};

struct AddTestHeader;

impl Plugin for AddTestHeader {
    fn name(&self) -> &'static str {
        "test header"
    }
    fn on_plugin_load(&self) {}
    fn on_plugin_unload(&self) {}
    fn pre_send(&self, request: &mut Request) {
        let _ = request.headers.set("X-Test", "1");
    }
    fn post_receive(&self, _response: &mut Response) {}
}

fn hello(_req: &Request) -> Result<Reply, String> {
    Ok(Reply { status: 200, headers: Headers::new(), body: b"hello".to_vec() })
}

#[test]
fn zero_plugins_hello_round_trip() {
    let mut manager: PluginManager<AddTestHeader> = PluginManager::new();
    let mut req = Request::new("http://localhost/hello").unwrap();
    let res = send_request(&mut manager, &mut req, hello).unwrap();
    assert_eq!(res.status, 200);
    assert_eq!(res.body, b"hello".to_vec());
}

#[test]
fn transport_sees_injected_header() {
    let mut manager = PluginManager::new();
    manager.load_plugin(Ok(AddTestHeader)).unwrap();
    let seen = RefCell::new(None);
    let mut req = Request::new("http://localhost/").unwrap();
    let transport = |r: &Request| {
        *seen.borrow_mut() = Some(r.headers.get("x-test"));
        Ok(Reply { status: 204, headers: Headers::new(), body: vec![] })
    };
    let res = send_request(&mut manager, &mut req, transport).unwrap();
    assert_eq!(res.status, 204);
    assert_eq!(seen.into_inner(), Some(vec![b"1".to_vec()]));
}

#[test]
fn server_error_gives_transport_error_and_no_response() {
    let mut manager: PluginManager<AddTestHeader> = PluginManager::new();
    let mut req = Request::new("http://localhost/").unwrap();
    let r = send_request(&mut manager, &mut req, |_r: &Request| {
        Ok(Reply { status: 500, headers: Headers::new(), body: b"oops".to_vec() })
    });
    assert_eq!(r.unwrap_err().kind, ErrorKind::TransportError);
}

#[test]
fn transport_failure_is_wrapped() {
    let mut manager: PluginManager<AddTestHeader> = PluginManager::new();
    let e = complete_exchange(&mut manager, Err(String::from("connection refused"))).unwrap_err();
    assert_eq!(e.kind, ErrorKind::TransportError);
    assert_eq!(e.message, "The request failed");
    assert_eq!(e.causes, vec![String::from("connection refused")]);
}

#[test]
fn deliver_runs_no_hook() {
    let req = Request::new("http://localhost/").unwrap();
    let res = deliver(&req, hello).unwrap();
    assert_eq!(res.body, b"hello".to_vec());
    assert_eq!(req.headers.len(), 0);
}

#[test]
fn get_forces_the_get_method() {
    let mut req = Request::new("http://localhost/").unwrap();
    req.method = Method::Post;
    let seen = RefCell::new(None);
    let res = get(req, |r: &Request| {
        *seen.borrow_mut() = Some(r.method);
        hello(r)
    });
    assert!(res.is_ok());
    assert_eq!(seen.into_inner(), Some(Method::Get));
}
