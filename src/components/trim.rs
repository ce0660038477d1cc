//! Trims white space at both ends of each packet's text.

use crate::component::{
    one_in_one_out, one_in_one_out_metadata, ports_missing, ports_taken, take_ports,
    ComponentComponentPayload, ConstructError, Lifecycle,
};
use crate::ports::PortMap;
use crate::text::{trim_packet, trimmed};
use vstd::prelude::*;
use vstd::utf8::{decode_utf8, encode_utf8, valid_utf8};

verus! {

/// Reads each packet on `IN` as UTF-8 text and sends it on `OUT` with white
/// space trimmed at both ends.
pub struct TrimComponent<I, O> {
    pub inn: I,
    pub out: O,
    pub life: Lifecycle,
}

impl<I, O> TrimComponent<I, O> {
    /// Takes the `IN` and `OUT` ports out of the tables.
    pub fn new(inports: &mut PortMap<I>, outports: &mut PortMap<O>) -> (r: Result<
        Self,
        ConstructError,
    >)
        ensures
            r is Ok <==> old(inports).get("IN"@) is Some && old(outports).get("OUT"@) is Some,
            r matches Ok(c) ==> c.life@ is Running && ports_taken(
                *old(inports),
                *final(inports),
                *old(outports),
                *final(outports),
                "IN"@,
                "OUT"@,
                c.inn,
                c.out,
            ),
            r matches Err(e) ==> ports_missing(
                *old(inports),
                *final(inports),
                *old(outports),
                *final(outports),
                "IN"@,
                "OUT"@,
                e,
            ),
    {
        match take_ports(inports, outports, "IN", "OUT") {
            Ok((inn, out)) => Ok(TrimComponent { inn, out, life: Lifecycle::new() }),
            Err(e) => Err(e),
        }
    }

    /// The packet to send for an incoming one; `None` for a packet that is
    /// not UTF-8, which is dropped.
    pub fn transform(ip: &[u8]) -> (r: Option<Vec<u8>>)
        ensures
            r is Some <==> valid_utf8(ip@),
            r matches Some(out) ==> out@ == encode_utf8(trimmed(decode_utf8(ip@))),
    {
        trim_packet(ip)
    }

    pub fn get_metadata() -> (m: ComponentComponentPayload)
        ensures
            one_in_one_out(
                m,
                "Trim"@,
                "Reads IPs as UTF-8 strings and trims whitespace at beginning and end, forwarding the trimmed string."@,
                "cut"@,
                "IN"@,
                "IPs with strings to trim, one string per IP"@,
                "OUT"@,
                "trimmed strings"@,
            ),
    {
        one_in_one_out_metadata(
            "Trim",
            "Reads IPs as UTF-8 strings and trims whitespace at beginning and end, forwarding the trimmed string.",
            "cut",
            "IN",
            "IPs with strings to trim, one string per IP",
            "OUT",
            "trimmed strings",
        )
    }
}

} // verus!
