use std::cell::RefCell;
use std::rc::Rc;

use rest_client::error::ErrorKind;
use rest_client::injector::Injector;
use rest_client::plugins::{BridgeFailure, Plugin, PluginManager};
use rest_client::request::Request;
use rest_client::response::Response;

struct Recorder {
    name: &'static str,
    log: Rc<RefCell<Vec<String>>>,
}

impl Plugin for Recorder {
    fn name(&self) -> &'static str {
        self.name
    }

    fn on_plugin_load(&self) {
        self.log.borrow_mut().push(format!("load {}", self.name));
    }

    fn on_plugin_unload(&self) {
        self.log.borrow_mut().push(format!("unload {}", self.name));
    }

    fn pre_send(&self, request: &mut Request) {
        self.log.borrow_mut().push(format!("pre_send {}", self.name));
        let _ = request.headers.append("X-Seen-By", self.name);
    }

    fn post_receive(&self, response: &mut Response) {
        self.log.borrow_mut().push(format!("post_receive {}", self.name));
        response.body.extend_from_slice(self.name.as_bytes());
    }
}

fn recorders(log: &Rc<RefCell<Vec<String>>>) -> PluginManager<Recorder> {
    let mut manager = PluginManager::new();
    for name in ["a", "b", "c"] {
        manager.load_plugin(Ok(Recorder { name, log: log.clone() })).unwrap();
    }
    manager
}

#[test]
fn pre_send_runs_each_hook_once_in_load_order() {
    let log = Rc::new(RefCell::new(Vec::new()));
    let mut manager = recorders(&log);
    assert_eq!(manager.len(), 3);
    log.borrow_mut().clear();
    let mut req = Request::new("http://example.com").unwrap();
    manager.pre_send(&mut req);
    assert_eq!(*log.borrow(), vec!["pre_send a", "pre_send b", "pre_send c"]);
    assert_eq!(req.headers.get("x-seen-by"), vec![b"a".to_vec(), b"b".to_vec(), b"c".to_vec()]);
}

#[test]
fn post_receive_runs_each_hook_once_in_load_order() {
    let log = Rc::new(RefCell::new(Vec::new()));
    let mut manager = recorders(&log);
    log.borrow_mut().clear();
    let mut res = Response { status: 200, headers: rest_client::headers::Headers::new(), body: vec![] };
    manager.post_receive(&mut res);
    assert_eq!(*log.borrow(), vec!["post_receive a", "post_receive b", "post_receive c"]);
    assert_eq!(res.body, b"abc".to_vec());
}

#[test]
fn unload_fires_each_hook_once_then_is_a_no_op() {
    let log = Rc::new(RefCell::new(Vec::new()));
    let mut manager = recorders(&log);
    assert_eq!(*log.borrow(), vec!["load a", "load b", "load c"]);
    log.borrow_mut().clear();
    manager.unload();
    assert_eq!(*log.borrow(), vec!["unload a", "unload b", "unload c"]);
    assert_eq!(manager.len(), 0);
    manager.unload();
    assert_eq!(log.borrow().len(), 3);
    assert_eq!(manager.len(), 0);
}

#[test]
fn failed_load_leaves_manager_unchanged() {
    let log = Rc::new(RefCell::new(Vec::new()));
    let mut manager = recorders(&log);
    let e = manager.load_plugin(Err(BridgeFailure::Open(String::from("no such file")))).unwrap_err();
    assert_eq!(e.kind, ErrorKind::LoadError);
    assert_eq!(e.message, "Unable to load the plugin");
    assert_eq!(e.causes, vec![String::from("no such file")]);
    let e = manager.load_plugin(Err(BridgeFailure::Symbol(String::from("undefined symbol")))).unwrap_err();
    assert_eq!(e.kind, ErrorKind::SymbolMissing);
    assert_eq!(e.message, "The plugin entry symbol wasn't found");
    assert_eq!(manager.len(), 3);
}

#[test]
fn injector_sets_and_strips_its_header() {
    let mut manager = PluginManager::new();
    manager.load_plugin(Ok(Injector)).unwrap();
    assert_eq!(Injector.name(), "Header Injector");
    let mut req = Request::new("http://example.com").unwrap();
    req.headers.set("Some-Dodgy-Header", "false");
    req.headers.set("Accept", "*/*");
    manager.pre_send(&mut req);
    assert_eq!(req.headers.len(), 2);
    assert_eq!(req.headers.get("some-dodgy-header"), vec![b"true".to_vec()]);
    let mut headers = rest_client::headers::Headers::new();
    headers.set("some-dodgy-header", "true");
    headers.set("Server", "x");
    let mut res = Response { status: 200, headers, body: vec![] };
    manager.post_receive(&mut res);
    assert_eq!(res.headers.len(), 1);
    assert!(res.headers.get("some-dodgy-header").is_empty());
}
