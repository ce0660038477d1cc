//! The runtime's side of the management protocol: the messages it sends and
//! which of them answer each request. Turning messages into JSON frames and
//! back is left to the network layer.

use crate::component::ComponentComponentPayload;
use crate::registry::{describes, Registry};
use vstd::prelude::*;

verus! {

/// A feature of the runtime that it advertises to editors.
#[derive(Debug, PartialEq, Eq, Structural, Clone, Copy)]
pub enum Capability {
    ProtocolNetwork,
    NetworkPersist,
    NetworkStatus,
    NetworkData,
    NetworkControl,
    ProtocolComponent,
    ComponentGetsource,
    ComponentSetsource,
    ProtocolRuntime,
    GraphReadonly,
    ProtocolGraph,
    ProtocolTrace,
}

pub open spec fn capability_tag(c: Capability) -> Seq<char> {
    match c {
        Capability::ProtocolNetwork => "protocol:network"@,
        Capability::NetworkPersist => "network:persist"@,
        Capability::NetworkStatus => "network:status"@,
        Capability::NetworkData => "network:data"@,
        Capability::NetworkControl => "network:control"@,
        Capability::ProtocolComponent => "protocol:component"@,
        Capability::ComponentGetsource => "component:getsource"@,
        Capability::ComponentSetsource => "component:setsource"@,
        Capability::ProtocolRuntime => "protocol:runtime"@,
        Capability::GraphReadonly => "graph:readonly"@,
        Capability::ProtocolGraph => "protocol:graph"@,
        Capability::ProtocolTrace => "protocol:trace"@,
    }
}

/// The capabilities that this runtime advertises, in order.
pub open spec fn advertised() -> Seq<Capability> {
    seq![
        Capability::ProtocolNetwork,
        Capability::NetworkPersist,
        Capability::NetworkStatus,
        Capability::NetworkData,
        Capability::NetworkControl,
        Capability::ProtocolComponent,
        Capability::ComponentGetsource,
        Capability::ComponentSetsource,
        Capability::ProtocolRuntime,
        Capability::ProtocolGraph,
        Capability::ProtocolTrace,
    ]
}

impl Capability {
    /// The name of the capability on the wire.
    pub fn tag(&self) -> (r: String)
        ensures
            r@ == capability_tag(*self),
    {
        match self {
            Capability::ProtocolNetwork => "protocol:network".to_owned(),
            Capability::NetworkPersist => "network:persist".to_owned(),
            Capability::NetworkStatus => "network:status".to_owned(),
            Capability::NetworkData => "network:data".to_owned(),
            Capability::NetworkControl => "network:control".to_owned(),
            Capability::ProtocolComponent => "protocol:component".to_owned(),
            Capability::ComponentGetsource => "component:getsource".to_owned(),
            Capability::ComponentSetsource => "component:setsource".to_owned(),
            Capability::ProtocolRuntime => "protocol:runtime".to_owned(),
            Capability::GraphReadonly => "graph:readonly".to_owned(),
            Capability::ProtocolGraph => "protocol:graph".to_owned(),
            Capability::ProtocolTrace => "protocol:trace".to_owned(),
        }
    }
}

/// The capabilities that this runtime advertises, in order.
pub fn advertised_capabilities() -> (r: Vec<Capability>)
    ensures
        r@ == advertised(),
{
    let r = vec![
        Capability::ProtocolNetwork,
        Capability::NetworkPersist,
        Capability::NetworkStatus,
        Capability::NetworkData,
        Capability::NetworkControl,
        Capability::ProtocolComponent,
        Capability::ComponentGetsource,
        Capability::ComponentSetsource,
        Capability::ProtocolRuntime,
        Capability::ProtocolGraph,
        Capability::ProtocolTrace,
    ];
    assert(r@ =~= advertised());
    r
}

/// The name of the graph that the runtime hosts.
pub open spec fn graph_name() -> Seq<char> {
    "default_graph"@
}

/// `runtime:runtime`: who the runtime is and what it can do.
#[derive(Debug, Clone)]
pub struct RuntimeRuntimePayload {
    pub id: String,
    pub label: String,
    pub version: String,
    pub all_capabilities: Vec<Capability>,
    pub capabilities: Vec<Capability>,
    pub graph: String,
    pub runtime: String,
    pub namespace: String,
    pub repository: String,
    pub repository_version: String,
}

impl Default for RuntimeRuntimePayload {
    fn default() -> (p: RuntimeRuntimePayload)
        ensures
            p.id@ == "f18a4924-9d4f-414d-a37c-deadbeef0000"@,
            p.label@ == "human-readable description of the runtime"@,
            p.version@ == "0.7"@,
            p.all_capabilities@ == advertised(),
            p.capabilities@ == advertised(),
            p.graph@ == graph_name(),
            p.runtime@ == "flowd"@,
            p.namespace@ == "main"@,
            p.repository@ == "https://github.com/ERnsTL/flowd.git"@,
            p.repository_version@ == "0.0.1-ffffffff"@,
    {
        RuntimeRuntimePayload {
            id: "f18a4924-9d4f-414d-a37c-deadbeef0000".to_owned(),
            label: "human-readable description of the runtime".to_owned(),
            version: "0.7".to_owned(),
            all_capabilities: advertised_capabilities(),
            capabilities: advertised_capabilities(),
            graph: "default_graph".to_owned(),
            runtime: "flowd".to_owned(),
            namespace: "main".to_owned(),
            repository: "https://github.com/ERnsTL/flowd.git".to_owned(),
            repository_version: "0.0.1-ffffffff".to_owned(),
        }
    }
}

#[derive(Debug, Clone)]
pub struct RuntimeRuntimeMessage {
    pub protocol: String,
    pub command: String,
    pub payload: RuntimeRuntimePayload,
}

impl Default for RuntimeRuntimeMessage {
    fn default() -> (m: RuntimeRuntimeMessage)
        ensures
            m.protocol@ == "runtime"@,
            m.command@ == "runtime"@,
            m.payload.id@ == "f18a4924-9d4f-414d-a37c-deadbeef0000"@,
            m.payload.label@ == "human-readable description of the runtime"@,
            m.payload.version@ == "0.7"@,
            m.payload.all_capabilities@ == advertised(),
            m.payload.capabilities@ == advertised(),
            m.payload.graph@ == graph_name(),
            m.payload.runtime@ == "flowd"@,
            m.payload.namespace@ == "main"@,
            m.payload.repository@ == "https://github.com/ERnsTL/flowd.git"@,
            m.payload.repository_version@ == "0.0.1-ffffffff"@,
    {
        RuntimeRuntimeMessage {
            protocol: "runtime".to_owned(),
            command: "runtime".to_owned(),
            payload: RuntimeRuntimePayload::default(),
        }
    }
}

/// `runtime:ports`: the graph's external ports.
#[derive(Debug, Clone)]
pub struct RuntimePortsPayload {
    pub graph: String,
    pub in_ports: Vec<String>,
    pub out_ports: Vec<String>,
}

impl Default for RuntimePortsPayload {
    fn default() -> (p: RuntimePortsPayload)
        ensures
            p.graph@ == graph_name(),
            p.in_ports@.len() == 0,
            p.out_ports@.len() == 0,
    {
        RuntimePortsPayload {
            graph: "default_graph".to_owned(),
            in_ports: Vec::new(),
            out_ports: Vec::new(),
        }
    }
}

#[derive(Debug, Clone)]
pub struct RuntimePortsMessage {
    pub protocol: String,
    pub command: String,
    pub payload: RuntimePortsPayload,
}

impl Default for RuntimePortsMessage {
    fn default() -> (m: RuntimePortsMessage)
        ensures
            m.protocol@ == "runtime"@,
            m.command@ == "ports"@,
            m.payload.graph@ == graph_name(),
            m.payload.in_ports@.len() == 0,
            m.payload.out_ports@.len() == 0,
    {
        RuntimePortsMessage {
            protocol: "runtime".to_owned(),
            command: "ports".to_owned(),
            payload: RuntimePortsPayload::default(),
        }
    }
}

/// `component:component`: one registered component type.
#[derive(Debug, Clone)]
pub struct ComponentComponentMessage {
    pub protocol: String,
    pub command: String,
    pub payload: ComponentComponentPayload,
}

impl ComponentComponentMessage {
    pub fn describing(payload: ComponentComponentPayload) -> (m: ComponentComponentMessage)
        ensures
            m.protocol@ == "component"@,
            m.command@ == "component"@,
            m.payload == payload,
    {
        ComponentComponentMessage {
            protocol: "component".to_owned(),
            command: "component".to_owned(),
            payload,
        }
    }
}

impl Default for ComponentComponentMessage {
    fn default() -> (m: ComponentComponentMessage)
        ensures
            m.protocol@ == "component"@,
            m.command@ == "component"@,
            m.payload.name@ == "main/Repeat"@,
            m.payload.description@ == "description of the Repeat component"@,
            m.payload.icon@ == "usd"@,
            !m.payload.subgraph,
            m.payload.in_ports@.len() == 0,
            m.payload.out_ports@.len() == 0,
    {
        ComponentComponentMessage::describing(ComponentComponentPayload::default())
    }
}

/// `component:componentsready`: the end of a listing, with its length.
#[derive(Debug, Clone)]
pub struct ComponentComponentsreadyMessage {
    pub protocol: String,
    pub command: String,
    pub payload: u32,
}

impl ComponentComponentsreadyMessage {
    pub fn counting(n: u32) -> (m: ComponentComponentsreadyMessage)
        ensures
            m.protocol@ == "component"@,
            m.command@ == "componentsready"@,
            m.payload == n,
    {
        ComponentComponentsreadyMessage {
            protocol: "component".to_owned(),
            command: "componentsready".to_owned(),
            payload: n,
        }
    }
}

impl Default for ComponentComponentsreadyMessage {
    fn default() -> (m: ComponentComponentsreadyMessage)
        ensures
            m.protocol@ == "component"@,
            m.command@ == "componentsready"@,
            m.payload == 1,
    {
        ComponentComponentsreadyMessage::counting(1)
    }
}

/// `network:status`.
#[derive(Debug, Clone)]
pub struct NetworkStatusPayload {
    pub graph: String,
    /// Seconds since the network started.
    pub uptime: u32,
    pub started: bool,
    pub running: bool,
    pub debug: bool,
}

impl Default for NetworkStatusPayload {
    fn default() -> (p: NetworkStatusPayload)
        ensures
            p.graph@ == graph_name(),
            p.uptime == 256,
            p.started,
            p.running,
            !p.debug,
    {
        NetworkStatusPayload {
            graph: "default_graph".to_owned(),
            uptime: 256,
            started: true,
            running: true,
            debug: false,
        }
    }
}

#[derive(Debug, Clone)]
pub struct NetworkStatusMessage {
    pub protocol: String,
    pub command: String,
    pub payload: NetworkStatusPayload,
}

impl Default for NetworkStatusMessage {
    fn default() -> (m: NetworkStatusMessage)
        ensures
            m.protocol@ == "network"@,
            m.command@ == "status"@,
            m.payload.graph@ == graph_name(),
            m.payload.uptime == 256,
            m.payload.started,
            m.payload.running,
            !m.payload.debug,
    {
        NetworkStatusMessage {
            protocol: "network".to_owned(),
            command: "status".to_owned(),
            payload: NetworkStatusPayload::default(),
        }
    }
}

/// `component:source`: the source of a component or of the graph.
#[derive(Debug, Clone)]
pub struct ComponentSourcePayload {
    pub name: String,
    pub language: String,
    pub library: String,
    pub code: String,
    pub tests: String,
}

/// The hosted graph as a JSON graph document.
pub open spec fn graph_document() -> Seq<char> {
    "{\"caseSensitive\":true,\"properties\":{\"name\":\"default_graph\",\"environment\":{\"type\":\"flowd\",\"content\":\"\"},\"description\":\"description for default_graph\",\"icon\":\"usd\"},\"inports\":{},\"outports\":{},\"groups\":[{\"name\":\"process_group1\",\"nodes\":[\"Repeater\"],\"metadata\":{\"description\":\"description of process_group1\"}}],\"processes\":{\"Repeater\":{\"component\":\"Repeat\",\"metadata\":{\"x\":100,\"y\":100}}},\"connections\":[]}"@
}

impl Default for ComponentSourcePayload {
    /// The source stub of a component.
    fn default() -> (p: ComponentSourcePayload)
        ensures
            p.name@ == "Repeat"@,
            p.language@ == "Rust"@,
            p.library@ == "main_library"@,
            p.code@ == "// source code for component Repeat"@,
            p.tests@ == "// unit tests for component Repeat"@,
    {
        ComponentSourcePayload {
            name: "Repeat".to_owned(),
            language: "Rust".to_owned(),
            library: "main_library".to_owned(),
            code: "// source code for component Repeat".to_owned(),
            tests: "// unit tests for component Repeat".to_owned(),
        }
    }
}

impl ComponentSourcePayload {
    /// The source of the hosted graph: a JSON graph document.
    pub fn default_graph() -> (p: ComponentSourcePayload)
        ensures
            p.name@ == graph_name(),
            p.language@ == "json"@,
            p.library@ == "main_library"@,
            p.code@ == graph_document(),
            p.tests@ == "// tests for graph default_graph"@,
    {
        ComponentSourcePayload {
            name: "default_graph".to_owned(),
            language: "json".to_owned(),
            library: "main_library".to_owned(),
            code: "{\"caseSensitive\":true,\"properties\":{\"name\":\"default_graph\",\"environment\":{\"type\":\"flowd\",\"content\":\"\"},\"description\":\"description for default_graph\",\"icon\":\"usd\"},\"inports\":{},\"outports\":{},\"groups\":[{\"name\":\"process_group1\",\"nodes\":[\"Repeater\"],\"metadata\":{\"description\":\"description of process_group1\"}}],\"processes\":{\"Repeater\":{\"component\":\"Repeat\",\"metadata\":{\"x\":100,\"y\":100}}},\"connections\":[]}".to_owned(),
            tests: "// tests for graph default_graph".to_owned(),
        }
    }
}

#[derive(Debug, Clone)]
pub struct ComponentSourceMessage {
    pub protocol: String,
    pub command: String,
    pub payload: ComponentSourcePayload,
}

impl Default for ComponentSourceMessage {
    fn default() -> (m: ComponentSourceMessage)
        ensures
            m.protocol@ == "component"@,
            m.command@ == "source"@,
            m.payload.name@ == "Repeat"@,
            m.payload.language@ == "Rust"@,
            m.payload.library@ == "main_library"@,
            m.payload.code@ == "// source code for component Repeat"@,
            m.payload.tests@ == "// unit tests for component Repeat"@,
    {
        ComponentSourceMessage {
            protocol: "component".to_owned(),
            command: "source".to_owned(),
            payload: ComponentSourcePayload::default(),
        }
    }
}

impl ComponentSourceMessage {
    /// The `component:source` message that carries the hosted graph.
    pub fn default_graph() -> (m: ComponentSourceMessage)
        ensures
            m.protocol@ == "component"@,
            m.command@ == "source"@,
            m.payload.name@ == graph_name(),
            m.payload.language@ == "json"@,
            m.payload.library@ == "main_library"@,
            m.payload.code@ == graph_document(),
            m.payload.tests@ == "// tests for graph default_graph"@,
    {
        ComponentSourceMessage {
            protocol: "component".to_owned(),
            command: "source".to_owned(),
            payload: ComponentSourcePayload::default_graph(),
        }
    }
}

/// `graph:clear` as an editor sends it.
#[derive(Debug, Clone)]
pub struct GraphClearRequestPayload {
    pub id: String,
    pub name: String,
    pub library: String,
    pub main: bool,
    pub icon: String,
    pub description: String,
    pub secret: String,
}

/// `graph:clear` as the runtime acknowledges it.
#[derive(Debug, Clone)]
pub struct GraphClearResponsePayload {
    pub id: String,
    pub name: String,
    pub library: String,
    pub main: bool,
    pub icon: String,
    pub description: String,
}

impl Default for GraphClearResponsePayload {
    fn default() -> (p: GraphClearResponsePayload)
        ensures
            p.id@ == "001"@,
            p.name@ == "main_graph"@,
            p.library@ == "main_library"@,
            p.main,
            p.icon@ == "fa-gbp"@,
            p.description@ == "the main graph"@,
    {
        GraphClearResponsePayload {
            id: "001".to_owned(),
            name: "main_graph".to_owned(),
            library: "main_library".to_owned(),
            main: true,
            icon: "fa-gbp".to_owned(),
            description: "the main graph".to_owned(),
        }
    }
}

#[derive(Debug, Clone)]
pub struct GraphClearResponse {
    pub protocol: String,
    pub command: String,
    pub payload: GraphClearResponsePayload,
}

impl GraphClearResponse {
    /// The acknowledgement of a `graph:clear` request: the same identifiers,
    /// without the secret.
    pub fn acknowledging(req: GraphClearRequestPayload) -> (m: GraphClearResponse)
        ensures
            m.protocol@ == "graph"@,
            m.command@ == "clear"@,
            m.payload.id == req.id,
            m.payload.name == req.name,
            m.payload.library == req.library,
            m.payload.main == req.main,
            m.payload.icon == req.icon,
            m.payload.description == req.description,
    {
        GraphClearResponse {
            protocol: "graph".to_owned(),
            command: "clear".to_owned(),
            payload: GraphClearResponsePayload {
                id: req.id,
                name: req.name,
                library: req.library,
                main: req.main,
                icon: req.icon,
                description: req.description,
            },
        }
    }
}

impl Default for GraphClearResponse {
    fn default() -> (m: GraphClearResponse)
        ensures
            m.protocol@ == "graph"@,
            m.command@ == "clear"@,
            m.payload.id@ == "001"@,
            m.payload.name@ == "main_graph"@,
            m.payload.library@ == "main_library"@,
            m.payload.main,
            m.payload.icon@ == "fa-gbp"@,
            m.payload.description@ == "the main graph"@,
    {
        GraphClearResponse {
            protocol: "graph".to_owned(),
            command: "clear".to_owned(),
            payload: GraphClearResponsePayload::default(),
        }
    }
}

/// Where and how a node is drawn.
#[derive(Debug, Clone)]
pub struct GraphChangenodeMetadata {
    pub x: i32,
    pub y: i32,
    pub height: u32,
    pub width: u32,
    pub label: String,
}

impl Default for GraphChangenodeMetadata {
    fn default() -> (m: GraphChangenodeMetadata)
        ensures
            m.x == 0,
            m.y == 0,
            m.height == 50,
            m.width == 50,
            m.label@ == "Repeater"@,
    {
        GraphChangenodeMetadata { x: 0, y: 0, height: 50, width: 50, label: "Repeater".to_owned() }
    }
}

/// `graph:changenode` as an editor sends it.
#[derive(Debug, Clone)]
pub struct GraphChangenodeRequestPayload {
    pub id: String,
    pub metadata: GraphChangenodeMetadata,
    pub graph: String,
    pub secret: String,
}

/// `graph:changenode` as the runtime acknowledges it.
#[derive(Debug, Clone)]
pub struct GraphChangenodeResponsePayload {
    pub id: String,
    pub metadata: GraphChangenodeMetadata,
    pub graph: String,
}

impl Default for GraphChangenodeResponsePayload {
    fn default() -> (p: GraphChangenodeResponsePayload)
        ensures
            p.id@ == "Repeater"@,
            p.metadata.x == 0,
            p.metadata.y == 0,
            p.metadata.height == 50,
            p.metadata.width == 50,
            p.metadata.label@ == "Repeater"@,
            p.graph@ == graph_name(),
    {
        GraphChangenodeResponsePayload {
            id: "Repeater".to_owned(),
            metadata: GraphChangenodeMetadata::default(),
            graph: "default_graph".to_owned(),
        }
    }
}

#[derive(Debug, Clone)]
pub struct GraphChangenodeResponse {
    pub protocol: String,
    pub command: String,
    pub payload: GraphChangenodeResponsePayload,
}

impl GraphChangenodeResponse {
    /// The acknowledgement of a `graph:changenode` request: the same node,
    /// metadata and graph, without the secret.
    pub fn acknowledging(req: GraphChangenodeRequestPayload) -> (m: GraphChangenodeResponse)
        ensures
            m.protocol@ == "graph"@,
            m.command@ == "changenode"@,
            m.payload.id == req.id,
            m.payload.metadata == req.metadata,
            m.payload.graph == req.graph,
    {
        GraphChangenodeResponse {
            protocol: "graph".to_owned(),
            command: "changenode".to_owned(),
            payload: GraphChangenodeResponsePayload {
                id: req.id,
                metadata: req.metadata,
                graph: req.graph,
            },
        }
    }
}

impl Default for GraphChangenodeResponse {
    fn default() -> (m: GraphChangenodeResponse)
        ensures
            m.protocol@ == "graph"@,
            m.command@ == "changenode"@,
            m.payload.id@ == "Repeater"@,
            m.payload.metadata.x == 0,
            m.payload.metadata.y == 0,
            m.payload.metadata.height == 50,
            m.payload.metadata.width == 50,
            m.payload.metadata.label@ == "Repeater"@,
            m.payload.graph@ == graph_name(),
    {
        GraphChangenodeResponse {
            protocol: "graph".to_owned(),
            command: "changenode".to_owned(),
            payload: GraphChangenodeResponsePayload::default(),
        }
    }
}

/// A request from an editor, as read off the wire.
#[derive(Debug, Clone)]
pub enum Request {
    /// `runtime:getruntime`.
    GetRuntime { secret: String },
    /// `component:list`.
    ListComponents { secret: String },
    /// `network:getstatus`.
    GetStatus { graph: String, secret: String },
    /// `component:getsource`.
    GetSource { name: String, secret: String },
    /// `graph:clear`.
    ClearGraph(GraphClearRequestPayload),
    /// `graph:changenode`.
    ChangeNode(GraphChangenodeRequestPayload),
    /// A command that the runtime does not serve.
    Unsupported,
}

/// A message from the runtime to an editor.
#[derive(Debug, Clone)]
pub enum Response {
    Runtime(RuntimeRuntimeMessage),
    Ports(RuntimePortsMessage),
    Component(ComponentComponentMessage),
    ComponentsReady(ComponentComponentsreadyMessage),
    Status(NetworkStatusMessage),
    Source(ComponentSourceMessage),
    GraphClear(GraphClearResponse),
    GraphChangenode(GraphChangenodeResponse),
}

/// What the runtime does with one request: messages to send, in order, and
/// whether to close the connection after them.
#[derive(Debug, Clone)]
pub struct Reply {
    pub messages: Vec<Response>,
    pub close: bool,
}

/// `r` is a `runtime:runtime` message that names this runtime and its
/// capabilities.
pub open spec fn is_runtime_message(r: Response) -> bool {
    r matches Response::Runtime(m) && m.protocol@ == "runtime"@ && m.command@ == "runtime"@
        && m.payload.runtime@ == "flowd"@ && m.payload.capabilities@ == advertised()
        && m.payload.all_capabilities@ == advertised() && m.payload.graph@ == graph_name()
}

/// `r` is a `runtime:ports` message with no ports for the hosted graph.
pub open spec fn is_empty_ports_message(r: Response) -> bool {
    r matches Response::Ports(m) && m.protocol@ == "runtime"@ && m.command@ == "ports"@
        && m.payload.graph@ == graph_name() && m.payload.in_ports@.len() == 0
        && m.payload.out_ports@.len() == 0
}

/// `r` is the `network:status` message of a running network.
pub open spec fn is_status_message(r: Response) -> bool {
    r matches Response::Status(m) && m.protocol@ == "network"@ && m.command@ == "status"@
        && m.payload.graph@ == graph_name() && m.payload.started && m.payload.running
        && !m.payload.debug && m.payload.uptime == 256
}

/// `r` is the `component:source` answer for a request about `name`.
pub open spec fn is_source_message(r: Response, name: Seq<char>) -> bool {
    r matches Response::Source(m) && m.protocol@ == "component"@ && m.command@ == "source"@ && if name
        == graph_name() {
        m.payload.name@ == graph_name() && m.payload.language@ == "json"@ && m.payload.code@
            == graph_document()
    } else {
        m.payload.name@ == "Repeat"@ && m.payload.language@ == "Rust"@
    }
}

/// `msgs` lists the registry: one `component:component` per registered type,
/// in order, then `component:componentsready` with their number.
pub open spec fn is_listing(msgs: Seq<Response>, reg: Seq<crate::registry::ComponentKind>) -> bool {
    &&& msgs.len() == reg.len() + 1
    &&& forall|i: int|
        0 <= i < reg.len() ==> (#[trigger] msgs[i] matches Response::Component(m) && m.protocol@
            == "component"@ && m.command@ == "component"@ && describes(m.payload, reg[i]))
    &&& msgs[reg.len() as int] matches Response::ComponentsReady(m) && m.protocol@ == "component"@
        && m.command@ == "componentsready"@ && m.payload == reg.len()
}

/// One `component:component` message per registered type, then
/// `component:componentsready` with their number.
pub fn list_components(reg: &Registry) -> (msgs: Vec<Response>)
    ensures
        is_listing(msgs@, reg@),
{
    let mut msgs: Vec<Response> = Vec::new();
    let mut i: usize = 0;
    while i < reg.len()
        invariant
            0 <= i <= reg@.len(),
            msgs@.len() == i,
            forall|j: int|
                0 <= j < i ==> (#[trigger] msgs@[j] matches Response::Component(m) && m.protocol@
                    == "component"@ && m.command@ == "component"@ && describes(m.payload, reg@[j])),
        decreases reg@.len() - i,
    {
        let m = ComponentComponentMessage::describing(reg.kind_at(i).metadata());
        msgs.push(Response::Component(m));
        i = i + 1;
    }
    msgs.push(Response::ComponentsReady(ComponentComponentsreadyMessage::counting(reg.count())));
    msgs
}

/// `r` acknowledges the `graph:clear` request `p` with the same identifiers.
pub open spec fn acknowledges_clear(r: Response, p: GraphClearRequestPayload) -> bool {
    r matches Response::GraphClear(m) && m.protocol@ == "graph"@ && m.command@ == "clear"@
        && m.payload.id == p.id && m.payload.name == p.name && m.payload.library == p.library
        && m.payload.main == p.main && m.payload.icon == p.icon && m.payload.description
        == p.description
}

/// `r` acknowledges the `graph:changenode` request `p` with the same node,
/// metadata and graph.
pub open spec fn acknowledges_changenode(r: Response, p: GraphChangenodeRequestPayload) -> bool {
    r matches Response::GraphChangenode(m) && m.protocol@ == "graph"@ && m.command@
        == "changenode"@ && m.payload.id == p.id && m.payload.metadata == p.metadata
        && m.payload.graph == p.graph
}

/// The answer to a request. Requests that would change the graph are
/// acknowledged and change nothing; a command that is not served closes the
/// connection.
pub fn respond(reg: &Registry, req: Request) -> (r: Reply)
    ensures
        r.close <==> req is Unsupported,
        req is Unsupported ==> r.messages@.len() == 0,
        req is GetRuntime ==> r.messages@.len() == 2 && is_runtime_message(r.messages@[0])
            && is_empty_ports_message(r.messages@[1]),
        req is ListComponents ==> is_listing(r.messages@, reg@),
        req is GetStatus ==> r.messages@.len() == 1 && is_status_message(r.messages@[0]),
        req matches Request::GetSource { name, .. } ==> r.messages@.len() == 1
            && is_source_message(r.messages@[0], name@),
        req matches Request::ClearGraph(p) ==> r.messages@.len() == 1 && acknowledges_clear(
            r.messages@[0],
            p,
        ),
        req matches Request::ChangeNode(p) ==> r.messages@.len() == 1 && acknowledges_changenode(
            r.messages@[0],
            p,
        ),
{
    match req {
        Request::GetRuntime { .. } => {
            let messages = vec![
                Response::Runtime(RuntimeRuntimeMessage::default()),
                Response::Ports(RuntimePortsMessage::default()),
            ];
            Reply { messages, close: false }
        },
        Request::ListComponents { .. } => Reply { messages: list_components(reg), close: false },
        Request::GetStatus { .. } => Reply {
            messages: vec![Response::Status(NetworkStatusMessage::default())],
            close: false,
        },
        Request::GetSource { name, .. } => {
            let graph = "default_graph".to_owned();
            let m = if name == graph {
                ComponentSourceMessage::default_graph()
            } else {
                ComponentSourceMessage::default()
            };
            Reply { messages: vec![Response::Source(m)], close: false }
        },
        Request::ClearGraph(p) => Reply {
            messages: vec![Response::GraphClear(GraphClearResponse::acknowledging(p))],
            close: false,
        },
        Request::ChangeNode(p) => Reply {
            messages: vec![Response::GraphChangenode(GraphChangenodeResponse::acknowledging(p))],
            close: false,
        },
        Request::Unsupported => Reply { messages: Vec::new(), close: true },
    }
}

} // verus!
