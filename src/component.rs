//! What every component shares: its descriptor, how it takes its ports, and
//! the lifecycle that its run loop follows.

use crate::ports::PortMap;
use crate::signal::{answer_signals, answered, envelopes, Answer};
use vstd::prelude::*;

verus! {

/// One port of a component, as advertised to editors.
#[derive(Debug, Clone)]
pub struct ComponentPort {
    pub name: String,
    pub allowed_type: String,
    pub schema: Option<String>,
    pub required: bool,
    pub is_arrayport: bool,
    pub description: String,
    pub values_allowed: Vec<String>,
    pub value_default: String,
}

/// A component's descriptor: name, looks, and ports.
#[derive(Debug, Clone)]
pub struct ComponentComponentPayload {
    pub name: String,
    pub description: String,
    pub icon: String,
    pub subgraph: bool,
    pub in_ports: Vec<ComponentPort>,
    pub out_ports: Vec<ComponentPort>,
}

/// A required, single, untyped port with the given name and description.
pub open spec fn plain_port(p: ComponentPort, name: Seq<char>, description: Seq<char>) -> bool {
    &&& p.name@ == name
    &&& p.allowed_type@ == "any"@
    &&& p.schema is None
    &&& p.required
    &&& !p.is_arrayport
    &&& p.description@ == description
    &&& p.values_allowed@.len() == 0
    &&& p.value_default@ == ""@
}

impl ComponentPort {
    /// A required, single, untyped port.
    pub fn plain(name: &str, description: &str) -> (p: ComponentPort)
        ensures
            plain_port(p, name@, description@),
    {
        ComponentPort {
            name: name.to_owned(),
            allowed_type: "any".to_owned(),
            schema: None,
            required: true,
            is_arrayport: false,
            description: description.to_owned(),
            values_allowed: Vec::new(),
            value_default: "".to_owned(),
        }
    }
}

/// A descriptor with one port on each side, as all built-in components have.
pub open spec fn one_in_one_out(
    m: ComponentComponentPayload,
    name: Seq<char>,
    description: Seq<char>,
    icon: Seq<char>,
    in_port: Seq<char>,
    in_description: Seq<char>,
    out_port: Seq<char>,
    out_description: Seq<char>,
) -> bool {
    &&& m.name@ == name
    &&& m.description@ == description
    &&& m.icon@ == icon
    &&& !m.subgraph
    &&& m.in_ports@.len() == 1
    &&& plain_port(m.in_ports@[0], in_port, in_description)
    &&& m.out_ports@.len() == 1
    &&& plain_port(m.out_ports@[0], out_port, out_description)
}

/// Builds a descriptor with one port on each side.
pub fn one_in_one_out_metadata(
    name: &str,
    description: &str,
    icon: &str,
    in_port: &str,
    in_description: &str,
    out_port: &str,
    out_description: &str,
) -> (m: ComponentComponentPayload)
    ensures
        one_in_one_out(
            m,
            name@,
            description@,
            icon@,
            in_port@,
            in_description@,
            out_port@,
            out_description@,
        ),
{
    ComponentComponentPayload {
        name: name.to_owned(),
        description: description.to_owned(),
        icon: icon.to_owned(),
        subgraph: false,
        in_ports: vec![ComponentPort::plain(in_port, in_description)],
        out_ports: vec![ComponentPort::plain(out_port, out_description)],
    }
}

impl Default for ComponentComponentPayload {
    /// A placeholder descriptor for a component that is not registered.
    fn default() -> (m: ComponentComponentPayload)
        ensures
            m.name@ == "main/Repeat"@,
            m.description@ == "description of the Repeat component"@,
            m.icon@ == "usd"@,
            !m.subgraph,
            m.in_ports@.len() == 0,
            m.out_ports@.len() == 0,
    {
        ComponentComponentPayload {
            name: "main/Repeat".to_owned(),
            description: "description of the Repeat component".to_owned(),
            icon: "usd".to_owned(),
            subgraph: false,
            in_ports: Vec::new(),
            out_ports: Vec::new(),
        }
    }
}

/// Why a component could not be built from the ports it was given.
#[derive(Debug, Clone)]
pub enum ConstructError {
    MissingInport(String),
    MissingOutport(String),
}

/// `i` and `o` were under `in_name` and `out_name`, and only those two
/// entries left the tables.
pub open spec fn ports_taken<I, O>(
    old_in: PortMap<I>,
    new_in: PortMap<I>,
    old_out: PortMap<O>,
    new_out: PortMap<O>,
    in_name: Seq<char>,
    out_name: Seq<char>,
    i: I,
    o: O,
) -> bool {
    &&& Some(i) == old_in.get(in_name)
    &&& Some(o) == old_out.get(out_name)
    &&& new_in.get(in_name) is None
    &&& new_out.get(out_name) is None
    &&& forall|n: Seq<char>| n != in_name ==> #[trigger] new_in.get(n) == old_in.get(n)
    &&& forall|n: Seq<char>| n != out_name ==> #[trigger] new_out.get(n) == old_out.get(n)
}

/// The tables are untouched and `e` names the first port that is missing.
pub open spec fn ports_missing<I, O>(
    old_in: PortMap<I>,
    new_in: PortMap<I>,
    old_out: PortMap<O>,
    new_out: PortMap<O>,
    in_name: Seq<char>,
    out_name: Seq<char>,
    e: ConstructError,
) -> bool {
    &&& new_in == old_in
    &&& new_out == old_out
    &&& old_in.get(in_name) is None ==> (e matches ConstructError::MissingInport(n) && n@
        == in_name)
    &&& old_in.get(in_name) is Some ==> (e matches ConstructError::MissingOutport(n) && n@
        == out_name)
}

/// Takes the in-port `in_name` and the out-port `out_name` out of the tables.
/// When either is missing, nothing is taken and the first missing one is
/// named.
pub fn take_ports<I, O>(
    inports: &mut PortMap<I>,
    outports: &mut PortMap<O>,
    in_name: &str,
    out_name: &str,
) -> (r: Result<(I, O), ConstructError>)
    ensures
        r is Ok <==> old(inports).get(in_name@) is Some && old(outports).get(out_name@) is Some,
        r matches Ok((i, o)) ==> ports_taken(
            *old(inports),
            *final(inports),
            *old(outports),
            *final(outports),
            in_name@,
            out_name@,
            i,
            o,
        ),
        r matches Err(e) ==> ports_missing(
            *old(inports),
            *final(inports),
            *old(outports),
            *final(outports),
            in_name@,
            out_name@,
            e,
        ),
{
    if !inports.contains(in_name) {
        return Err(ConstructError::MissingInport(in_name.to_owned()));
    }
    if !outports.contains(out_name) {
        return Err(ConstructError::MissingOutport(out_name.to_owned()));
    }
    let i = inports.remove(in_name);
    let o = outports.remove(out_name);
    match (i, o) {
        (Some(i), Some(o)) => Ok((i, o)),
        _ => Err(ConstructError::MissingInport(in_name.to_owned())),
    }
}

/// Whether a run loop leaves after draining inputs with these closed flags:
/// exactly when every input is closed.
pub open spec fn leaves(closed: Seq<bool>) -> bool {
    forall|k: int| 0 <= k < closed.len() ==> closed[k]
}

/// Where a component stands in its life.
#[derive(Debug, PartialEq, Eq, Structural, Clone, Copy)]
pub enum Phase {
    Running,
    /// Left its loop on a `stop` signal.
    Stopped,
    /// Left its loop because every input reached its end.
    Finished,
}

/// The decisions of a component's run loop. The loop reads its signals,
/// drains its inputs, then asks whether to leave or to park on its wake-up.
pub struct Lifecycle {
    phase: Phase,
}

impl View for Lifecycle {
    type V = Phase;

    closed spec fn view(&self) -> Phase {
        self.phase
    }
}

impl Lifecycle {
    pub fn new() -> (l: Lifecycle)
        ensures
            l@ is Running,
    {
        Lifecycle { phase: Phase::Running }
    }

    pub fn phase(&self) -> (r: Phase)
        ensures
            r == self@,
    {
        self.phase
    }

    /// Reads the signals that arrived since the last iteration: one `pong`
    /// for each `ping`, and a `stop` ends the loop.
    pub fn on_signals(&mut self, batch: &Vec<Vec<u8>>) -> (r: Answer)
        requires
            old(self)@ is Running,
        ensures
            envelopes(r.replies@) == answered(envelopes(batch@)).0,
            r.stop == answered(envelopes(batch@)).1,
            final(self)@ == if r.stop {
                Phase::Stopped
            } else {
                Phase::Running
            },
    {
        let r = answer_signals(batch);
        if r.stop {
            self.phase = Phase::Stopped;
        }
        r
    }

    /// After every input was drained: leave when each input is closed
    /// (empty and abandoned), else park until woken.
    pub fn on_drained(&mut self, closed: &Vec<bool>) -> (exit: bool)
        requires
            old(self)@ is Running,
        ensures
            exit == leaves(closed@),
            final(self)@ == if exit {
                Phase::Finished
            } else {
                Phase::Running
            },
    {
        let mut k: usize = 0;
        while k < closed.len()
            invariant
                0 <= k <= closed@.len(),
                forall|j: int| 0 <= j < k ==> closed@[j],
                self@ is Running,
            decreases closed@.len() - k,
        {
            if !closed[k] {
                return false;
            }
            k = k + 1;
        }
        self.phase = Phase::Finished;
        true
    }
}

} // verus!
