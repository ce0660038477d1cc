//! Splits each packet's text into lines.

use crate::component::{
    one_in_one_out, one_in_one_out_metadata, ports_missing, ports_taken, take_ports,
    ComponentComponentPayload, ConstructError, Lifecycle,
};
use crate::ports::PortMap;
use crate::text::{lines_of, split_lines};
use vstd::prelude::*;
use vstd::utf8::valid_utf8;

verus! {

/// Reads each packet on `IN` as UTF-8 text and sends each of its lines on
/// `OUT` as a packet of its own.
pub struct SplitLinesComponent<I, O> {
    pub inn: I,
    pub out: O,
    pub life: Lifecycle,
}

impl<I, O> SplitLinesComponent<I, O> {
    /// Takes the `IN` and `OUT` ports out of the tables.
    pub fn new(inports: &mut PortMap<I>, outports: &mut PortMap<O>) -> (r: Result<
        Self,
        ConstructError,
    >)
        ensures
            r is Ok <==> old(inports).get("IN"@) is Some && old(outports).get("OUT"@) is Some,
            r matches Ok(c) ==> c.life@ is Running && ports_taken(
                *old(inports),
                *final(inports),
                *old(outports),
                *final(outports),
                "IN"@,
                "OUT"@,
                c.inn,
                c.out,
            ),
            r matches Err(e) ==> ports_missing(
                *old(inports),
                *final(inports),
                *old(outports),
                *final(outports),
                "IN"@,
                "OUT"@,
                e,
            ),
    {
        match take_ports(inports, outports, "IN", "OUT") {
            Ok((inn, out)) => Ok(SplitLinesComponent { inn, out, life: Lifecycle::new() }),
            Err(e) => Err(e),
        }
    }

    /// The packets to send, in order, for an incoming one; `None` for a
    /// packet that is not UTF-8, which is dropped.
    pub fn transform(ip: &[u8]) -> (r: Option<Vec<Vec<u8>>>)
        ensures
            r is Some <==> valid_utf8(ip@),
            r matches Some(lines) ==> lines@.map_values(|l: Vec<u8>| l@) == lines_of(ip@),
    {
        split_lines(ip)
    }

    pub fn get_metadata() -> (m: ComponentComponentPayload)
        ensures
            one_in_one_out(
                m,
                "SplitLines"@,
                "Splits IP contents by newline (\\n) and forwards the parts in separate IPs."@,
                "cut"@,
                "IN"@,
                "IPs with text to split"@,
                "OUT"@,
                "split lines"@,
            ),
    {
        one_in_one_out_metadata(
            "SplitLines",
            "Splits IP contents by newline (\\n) and forwards the parts in separate IPs.",
            "cut",
            "IN",
            "IPs with text to split",
            "OUT",
            "split lines",
        )
    }
}

} // verus!
