use flowd::host::{Host, WorkerState};
use flowd::protocol::{
    respond, Capability, ComponentSourceMessage, ComponentSourcePayload, GraphChangenodeMetadata,
    GraphChangenodeRequestPayload, GraphClearRequestPayload, Request, Response,
};
use flowd::registry::{ComponentKind, Registry};

#[test]
fn registry_builtins_in_order() {
    let r = Registry::with_builtins();
    assert_eq!(r.len(), 3);
    let names: Vec<String> = r.list().into_iter().map(|m| m.name).collect();
    assert_eq!(names, vec!["FileReader", "SplitLines", "Trim"]);
    assert_eq!(r.lookup("Trim"), Some(ComponentKind::Trim));
    assert_eq!(r.lookup("FileReader"), Some(ComponentKind::FileReader));
    assert_eq!(r.lookup("Repeat"), None);
}

#[test]
fn registry_ignores_second_registration() {
    let mut r = Registry::new();
    assert!(r.register(ComponentKind::Trim));
    assert!(!r.register(ComponentKind::Trim));
    assert_eq!(r.len(), 1);
    assert_eq!(r.kind_at(0), ComponentKind::Trim);
}

#[test]
fn getruntime_answers_runtime_then_ports() {
    let reply = respond(&Registry::with_builtins(), Request::GetRuntime { secret: String::from("x") });
    assert!(!reply.close);
    assert_eq!(reply.messages.len(), 2);
    match &reply.messages[0] {
        Response::Runtime(m) => {
            assert_eq!(m.protocol, "runtime");
            assert_eq!(m.command, "runtime");
            assert_eq!(m.payload.runtime, "flowd");
            assert_eq!(m.payload.capabilities.len(), 11);
            assert_eq!(m.payload.capabilities[0], Capability::ProtocolNetwork);
            assert!(!m.payload.capabilities.contains(&Capability::GraphReadonly));
            let tags: Vec<String> = m.payload.capabilities.iter().map(|c| c.tag()).collect();
            assert_eq!(tags[10], "protocol:trace");
        }
        _ => panic!("first message is not runtime:runtime"),
    }
    match &reply.messages[1] {
        Response::Ports(m) => {
            assert_eq!(m.command, "ports");
            assert_eq!(m.payload.graph, "default_graph");
            assert!(m.payload.in_ports.is_empty());
            assert!(m.payload.out_ports.is_empty());
        }
        _ => panic!("second message is not runtime:ports"),
    }
}

#[test]
fn list_components_then_ready_with_count() {
    let reply = respond(&Registry::with_builtins(), Request::ListComponents { secret: String::new() });
    assert_eq!(reply.messages.len(), 4);
    match &reply.messages[1] {
        Response::Component(m) => assert_eq!(m.payload.name, "SplitLines"),
        _ => panic!("expected component:component"),
    }
    match &reply.messages[3] {
        Response::ComponentsReady(m) => {
            assert_eq!(m.command, "componentsready");
            assert_eq!(m.payload, 3);
        }
        _ => panic!("expected component:componentsready"),
    }
    let empty = respond(&Registry::new(), Request::ListComponents { secret: String::new() });
    assert_eq!(empty.messages.len(), 1);
}

#[test]
fn getstatus_reports_running() {
    let reply = respond(
        &Registry::new(),
        Request::GetStatus { graph: String::from("default_graph"), secret: String::new() },
    );
    match &reply.messages[0] {
        Response::Status(m) => {
            assert!(m.payload.started && m.payload.running && !m.payload.debug);
            assert_eq!(m.payload.graph, "default_graph");
        }
        _ => panic!("expected network:status"),
    }
}

#[test]
fn getsource_graph_or_stub() {
    let reg = Registry::new();
    let g = respond(&reg, Request::GetSource { name: String::from("default_graph"), secret: String::new() });
    match &g.messages[0] {
        Response::Source(m) => {
            assert_eq!(m.payload.language, "json");
            assert!(m.payload.code.contains("\"processes\""));
        }
        _ => panic!("expected component:source"),
    }
    let c = respond(&reg, Request::GetSource { name: String::from("Trim"), secret: String::new() });
    match &c.messages[0] {
        Response::Source(m) => assert_eq!(m.payload.language, "Rust"),
        _ => panic!("expected component:source"),
    }
    assert_eq!(ComponentSourceMessage::default_graph().payload.name, "default_graph");
    assert_eq!(ComponentSourcePayload::default_graph().language, "json");
}

#[test]
fn graph_requests_are_echoed() {
    let reg = Registry::new();
    let clear = GraphClearRequestPayload {
        id: String::from("g7"),
        name: String::from("label"),
        library: String::from("lib"),
        main: false,
        icon: String::from("cog"),
        description: String::from("d"),
        secret: String::from("s"),
    };
    match &respond(&reg, Request::ClearGraph(clear)).messages[0] {
        Response::GraphClear(m) => {
            assert_eq!(m.command, "clear");
            assert_eq!(m.payload.id, "g7");
            assert!(!m.payload.main);
            assert_eq!(m.payload.icon, "cog");
        }
        _ => panic!("expected graph:clear"),
    }
    let change = GraphChangenodeRequestPayload {
        id: String::from("n1"),
        metadata: GraphChangenodeMetadata { x: -3, y: 4, height: 10, width: 20, label: String::from("L") },
        graph: String::from("g7"),
        secret: String::from("s"),
    };
    match &respond(&reg, Request::ChangeNode(change)).messages[0] {
        Response::GraphChangenode(m) => {
            assert_eq!(m.payload.id, "n1");
            assert_eq!(m.payload.metadata.x, -3);
            assert_eq!(m.payload.graph, "g7");
        }
        _ => panic!("expected graph:changenode"),
    }
}

#[test]
fn unsupported_request_closes() {
    let reply = respond(&Registry::new(), Request::Unsupported);
    assert!(reply.close);
    assert!(reply.messages.is_empty());
}

#[test]
fn stop_broadcast_reaches_running_workers_once() {
    let mut h = Host::new(3);
    h.worker_exited(1);
    let targets = h.broadcast_stop();
    assert_eq!(targets, vec![0, 2]);
    assert_eq!(h.state(0), WorkerState::Stopping);
    assert_eq!(h.state(1), WorkerState::Exited);
    assert!(h.broadcast_stop().is_empty());
    assert!(!h.all_exited());
    h.worker_exited(0);
    h.worker_exited(2);
    assert!(h.all_exited());
}
