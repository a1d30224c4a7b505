use std::sync::atomic::{AtomicUsize, Ordering};
use std::sync::Arc;

use jmx::{Error, ErrorKind, MBeanAddress, MBeanAttribute, MBeanClientTrait, MBeanConnector};
use jmx::{MBeanInfo, MBeanThreadWorker, MBeanThreadedClientOptions, Reply, Request, Value};

/// A connection that answers from fixed values, tagged with the address it
/// was made for, and counts the operations it serves.
struct Stub {
    tag: String,
    calls: Arc<AtomicUsize>,
}

impl MBeanConnector for Stub {
    fn connect(address: MBeanAddress) -> Result<Stub, Error> {
        match address {
            MBeanAddress::Address(a) if a == "unreachable:1" => Err(Error::new(ErrorKind::JvmInit)),
            MBeanAddress::Address(a) | MBeanAddress::ServiceUrl(a) => {
                Ok(Stub { tag: a, calls: Arc::new(AtomicUsize::new(0)) })
            }
        }
    }
}

impl MBeanClientTrait for Stub {
    fn get_attribute(&self, mbean: String, attribute: String) -> Result<Value, Error> {
        self.calls.fetch_add(1, Ordering::SeqCst);
        match (mbean.as_str(), attribute.as_str()) {
            ("bean1", "attr1") => Ok(Value::Int(16)),
            (_, "tag") => Ok(Value::Text(self.tag.clone())),
            _ => Err(Error::new(ErrorKind::JavaInvoke("Stub".to_string(), "getAttribute".to_string()))),
        }
    }

    fn get_mbean_info(&self, mbean: String) -> Result<MBeanInfo, Error> {
        self.calls.fetch_add(1, Ordering::SeqCst);
        Ok(MBeanInfo { attributes: vec![], class_name: mbean, description: self.tag.clone() })
    }

    fn query_names(&self, name: String, _query: String) -> Result<Vec<String>, Error> {
        self.calls.fetch_add(1, Ordering::SeqCst);
        Ok(vec![name, self.tag.clone()])
    }
}

fn read(worker: &mut MBeanThreadWorker<Stub>, mbean: &str, attribute: &str) -> Result<Value, Error> {
    worker.handle(Request::GetAttribute(mbean.to_string(), attribute.to_string())).into_attribute()
}

fn reconnect(worker: &mut MBeanThreadWorker<Stub>, address: &str, skip: bool) -> Result<(), Error> {
    let options = MBeanThreadedClientOptions::default().skip_connect(skip);
    worker
        .handle(Request::Reconnect(MBeanAddress::address(address.to_string()), options))
        .into_reconnected()
}

fn not_connected() -> Error {
    Error::new(ErrorKind::NotConnected)
}

#[test]
fn disconnected_reads_fail_without_touching_a_connection() {
    let calls = Arc::new(AtomicUsize::new(0));
    let mut worker: MBeanThreadWorker<Stub> = MBeanThreadWorker::new();
    assert!(!worker.is_connected());
    assert_eq!(read(&mut worker, "bean1", "attr1"), Err(not_connected()));
    let stub = Stub { tag: "A".to_string(), calls: calls.clone() };
    assert_eq!(worker.install(Ok(stub), "A".to_string()), Ok(()));
    assert_eq!(read(&mut worker, "bean1", "attr1"), Ok(Value::Int(16)));
    assert_eq!(calls.load(Ordering::SeqCst), 1);
    assert_eq!(reconnect(&mut worker, "A", true), Ok(()));
    assert!(!worker.is_connected());
    assert_eq!(read(&mut worker, "bean1", "attr1"), Err(not_connected()));
    let info = worker.handle(Request::GetMBeanInfo("bean1".to_string())).into_info();
    assert_eq!(info, Err(not_connected()));
    let names = worker.handle(Request::QueryNames("*:*".to_string(), "".to_string())).into_names();
    assert_eq!(names, Err(not_connected()));
    assert_eq!(calls.load(Ordering::SeqCst), 1);
}

#[test]
fn reconnect_replaces_connection() {
    let mut worker: MBeanThreadWorker<Stub> = MBeanThreadWorker::new();
    assert_eq!(reconnect(&mut worker, "A", false), Ok(()));
    assert_eq!(read(&mut worker, "x", "tag"), Ok(Value::Text("A".to_string())));
    assert_eq!(reconnect(&mut worker, "B", false), Ok(()));
    for _ in 0..3 {
        assert_eq!(read(&mut worker, "x", "tag"), Ok(Value::Text("B".to_string())));
    }
    let info = worker.handle(Request::GetMBeanInfo("m".to_string())).into_info().unwrap();
    assert_eq!(info.description, "B");
    let names = worker.handle(Request::QueryNames("n".to_string(), "q".to_string())).into_names();
    assert_eq!(names, Ok(vec!["n".to_string(), "B".to_string()]));
}

#[test]
fn failed_reconnect_keeps_connection() {
    let mut worker: MBeanThreadWorker<Stub> = MBeanThreadWorker::new();
    assert_eq!(reconnect(&mut worker, "A", false), Ok(()));
    let err = reconnect(&mut worker, "unreachable:1", false).unwrap_err();
    assert_eq!(
        err.kind(),
        &ErrorKind::ConnectFailed(
            "service:jmx:rmi://unreachable:1/jndi/rmi://unreachable:1/jmxrmi".to_string()
        )
    );
    assert_eq!(err.cause(), Some(&ErrorKind::JvmInit));
    assert!(worker.is_connected());
    assert_eq!(read(&mut worker, "x", "tag"), Ok(Value::Text("A".to_string())));
}

#[test]
fn failed_first_connect_stays_disconnected() {
    let mut worker: MBeanThreadWorker<Stub> = MBeanThreadWorker::new();
    assert!(reconnect(&mut worker, "unreachable:1", false).is_err());
    assert!(!worker.is_connected());
    assert_eq!(read(&mut worker, "bean1", "attr1"), Err(not_connected()));
}

#[test]
fn remote_failure_names_operation_and_target() {
    let mut worker: MBeanThreadWorker<Stub> = MBeanThreadWorker::new();
    assert_eq!(reconnect(&mut worker, "A", false), Ok(()));
    let err = read(&mut worker, "FOO:name=ServerBean", "Missing").unwrap_err();
    assert_eq!(
        err.kind(),
        &ErrorKind::RemoteOperation("getAttribute".to_string(), "FOO:name=ServerBean".to_string())
    );
    assert_eq!(
        err.cause(),
        Some(&ErrorKind::JavaInvoke("Stub".to_string(), "getAttribute".to_string()))
    );
}

#[test]
fn every_request_gets_reply_of_its_kind() {
    let mut worker: MBeanThreadWorker<Stub> = MBeanThreadWorker::new();
    let requests = vec![
        Request::GetAttribute("bean1".to_string(), "attr1".to_string()),
        Request::Reconnect(MBeanAddress::address("A".to_string()), MBeanThreadedClientOptions::default()),
        Request::GetMBeanInfo("bean1".to_string()),
        Request::QueryNames("*:*".to_string(), "".to_string()),
        Request::GetAttribute("bean1".to_string(), "attr1".to_string()),
    ];
    let mut kinds = Vec::new();
    for request in requests {
        kinds.push(match worker.handle(request) {
            Reply::Attribute(_) => "attribute",
            Reply::Info(_) => "info",
            Reply::Names(_) => "names",
            Reply::Reconnected(_) => "reconnected",
        });
    }
    assert_eq!(kinds, vec!["attribute", "reconnected", "info", "names", "attribute"]);
}

#[test]
fn end_to_end_scenario_on_worker() {
    let mut worker: MBeanThreadWorker<Stub> = MBeanThreadWorker::new();
    assert_eq!(read(&mut worker, "bean1", "attr1"), Err(not_connected()));
    assert_eq!(reconnect(&mut worker, "addressX", false), Ok(()));
    let value: Result<i32, Error> = jmx::client::decode_attribute(read(&mut worker, "bean1", "attr1"));
    assert_eq!(value, Ok(16));
    assert_eq!(reconnect(&mut worker, "addressX", true), Ok(()));
    assert_eq!(read(&mut worker, "bean1", "attr1"), Err(not_connected()));
}

#[test]
fn info_keeps_attribute_order() {
    let attribute = |name: &str| MBeanAttribute {
        description: String::new(),
        is_is: false,
        is_readable: true,
        is_writable: true,
        name: name.to_string(),
        java_type: "int".to_string(),
    };
    let info = MBeanInfo {
        attributes: vec![attribute("b"), attribute("a")],
        class_name: "C".to_string(),
        description: String::new(),
    };
    let reply = Reply::Info(Ok(info.clone())).into_info().unwrap();
    assert_eq!(reply.attributes[0].name, "b");
    assert_eq!(reply.attributes[1].name, "a");
    assert_eq!(reply, info);
}

#[test]
fn remote_result_passes_value_and_keeps_cause() {
    let r = jmx::worker::remote_result(Ok(Value::Int(3)), "getAttribute".to_string(), "b".to_string());
    assert_eq!(r, Ok(Value::Int(3)));
    let inner = Error::new(ErrorKind::JavaClone).context(ErrorKind::JvmInit);
    let r: Result<Value, Error> =
        jmx::worker::remote_result(Err(inner), "queryNames".to_string(), "n".to_string());
    let e = r.unwrap_err();
    assert_eq!(e.kind(), &ErrorKind::RemoteOperation("queryNames".to_string(), "n".to_string()));
    assert_eq!(e.causes, vec![ErrorKind::JvmInit, ErrorKind::JavaClone]);
}

#[test]
fn worker_stops_when_channel_closed_or_quit() {
    let mut worker: MBeanThreadWorker<Stub> = MBeanThreadWorker::new();
    assert!(!worker.serve_received(None));
    assert!(!worker.serve_received(Some(jmx::Message::Quit)));
    let (reply_to, replies) = crossbeam_channel::bounded(1);
    let request = Request::reconnect_default(MBeanAddress::address("A".to_string()));
    assert!(worker.serve_received(Some(jmx::protocol::call_message(request, reply_to))));
    assert!(worker.is_connected());
    assert!(matches!(replies.recv(), Ok(Reply::Reconnected(Ok(())))));
}

#[test]
fn default_reconnect_request_connects() {
    match Request::reconnect_default(MBeanAddress::address("h:1".to_string())) {
        Request::Reconnect(address, options) => {
            assert_eq!(address, MBeanAddress::address("h:1".to_string()));
            assert_eq!(options, MBeanThreadedClientOptions::default());
            assert!(!options.skip_connect);
        }
        _ => panic!("not a reconnection"),
    }
}
