//! Reads the files that packets name.

use crate::component::{
    one_in_one_out, one_in_one_out_metadata, ports_missing, ports_taken, take_ports,
    ComponentComponentPayload, ConstructError, Lifecycle,
};
use crate::ports::PortMap;
use crate::text::decode_text;
use vstd::prelude::*;
use vstd::utf8::{decode_utf8, valid_utf8};

verus! {

/// Takes a file name from each packet on `NAMES` and sends the file's
/// contents on `OUT`. Reading the file is left to the host of the loop.
pub struct FileReaderComponent<I, O> {
    pub inn: I,
    pub out: O,
    pub life: Lifecycle,
}

impl<I, O> FileReaderComponent<I, O> {
    /// Takes the `IN` and `OUT` ports out of the tables.
    pub fn new(inports: &mut PortMap<I>, outports: &mut PortMap<O>) -> (r: Result<
        Self,
        ConstructError,
    >)
        ensures
            r is Ok <==> old(inports).get("NAMES"@) is Some && old(outports).get("OUT"@) is Some,
            r matches Ok(c) ==> c.life@ is Running && ports_taken(
                *old(inports),
                *final(inports),
                *old(outports),
                *final(outports),
                "NAMES"@,
                "OUT"@,
                c.inn,
                c.out,
            ),
            r matches Err(e) ==> ports_missing(
                *old(inports),
                *final(inports),
                *old(outports),
                *final(outports),
                "NAMES"@,
                "OUT"@,
                e,
            ),
    {
        match take_ports(inports, outports, "NAMES", "OUT") {
            Ok((inn, out)) => Ok(FileReaderComponent { inn, out, life: Lifecycle::new() }),
            Err(e) => Err(e),
        }
    }

    /// The file name that a packet carries; `None` for a packet that is not
    /// UTF-8, which is dropped.
    pub fn path_of(ip: &[u8]) -> (r: Option<String>)
        ensures
            r is Some <==> valid_utf8(ip@),
            r matches Some(p) ==> p@ == decode_utf8(ip@),
    {
        decode_text(ip)
    }

    pub fn get_metadata() -> (m: ComponentComponentPayload)
        ensures
            one_in_one_out(
                m,
                "FileReader"@,
                "Reads the contents of the given files and sends the contents."@,
                "file"@,
                "NAMES"@,
                "filenames, one per IP"@,
                "OUT"@,
                "conents of the given files"@,
            ),
    {
        one_in_one_out_metadata(
            "FileReader",
            "Reads the contents of the given files and sends the contents.",
            "file",
            "NAMES",
            "filenames, one per IP",
            "OUT",
            "conents of the given files",
        )
    }
}

} // verus!
