//! Text transforms that components apply to packets: UTF-8 decoding,
//! whitespace trimming and line splitting.

use vstd::prelude::*;
use vstd::utf8::*;
use vstd::slice::*;
use vstd::string::StringSliceAdditionalSpecFns;

verus! {

/// Unicode `White_Space`, the set that `char::is_whitespace` and `str::trim`
/// go by.
pub open spec fn is_white_space(c: char) -> bool {
    let u = c as u32;
    (0x09 <= u && u <= 0x0d) || u == 0x20 || u == 0x85 || u == 0xa0 || u == 0x1680 || (0x2000 <= u
        && u <= 0x200a) || u == 0x2028 || u == 0x2029 || u == 0x202f || u == 0x205f || u == 0x3000
}

/// `s` without its leading white space.
pub open spec fn trim_start(s: Seq<char>) -> Seq<char>
    decreases s.len(),
{
    if s.len() > 0 && is_white_space(s[0]) {
        trim_start(s.drop_first())
    } else {
        s
    }
}

/// `s` without its trailing white space.
pub open spec fn trim_end(s: Seq<char>) -> Seq<char>
    decreases s.len(),
{
    if s.len() > 0 && is_white_space(s.last()) {
        trim_end(s.drop_last())
    } else {
        s
    }
}

/// `s` without leading and trailing white space.
pub open spec fn trimmed(s: Seq<char>) -> Seq<char> {
    trim_end(trim_start(s))
}

/// Relies on `std::str::from_utf8`: `Ok` exactly for valid UTF-8, and then
/// the string slice is made of the same bytes.
#[verifier::external_body]
fn utf8_text<'a>(b: &'a [u8]) -> (r: Option<&'a str>)
    ensures
        r is Some <==> valid_utf8(b@),
        r matches Some(s) ==> s.spec_bytes() == b@,
{
    std::str::from_utf8(b).ok()
}

/// Relies on `str::trim`: leading and trailing `White_Space` removed.
#[verifier::external_body]
fn trim_text<'a>(s: &'a str) -> (r: &'a str)
    ensures
        r@ == trimmed(s@),
{
    s.trim()
}

/// Decodes a packet as UTF-8 text.
pub fn decode_text(ip: &[u8]) -> (r: Option<String>)
    ensures
        r is Some <==> valid_utf8(ip@),
        r matches Some(s) ==> s@ == decode_utf8(ip@),
{
    match utf8_text(ip) {
        Some(s) => {
            proof {
                encode_utf8_decode_utf8(s@);
            }
            Some(s.to_owned())
        },
        None => None,
    }
}

/// The packet's text with leading and trailing white space removed, encoded
/// as UTF-8 again; `None` when the packet is not UTF-8.
pub fn trim_packet(ip: &[u8]) -> (r: Option<Vec<u8>>)
    ensures
        r is Some <==> valid_utf8(ip@),
        r matches Some(out) ==> out@ == encode_utf8(trimmed(decode_utf8(ip@))),
{
    match utf8_text(ip) {
        Some(s) => {
            proof {
                encode_utf8_decode_utf8(s@);
            }
            let t = trim_text(s);
            Some(slice_to_vec(t.as_bytes()))
        },
        None => None,
    }
}

/// The byte `\n`.
pub const LF: u8 = 10;

/// The byte `\r`.
pub const CR: u8 = 13;

/// The position of the first `\n` in `b`, or `b.len()` when there is none.
pub open spec fn newline_at(b: Seq<u8>) -> int
    decreases b.len(),
{
    if b.len() == 0 {
        0
    } else if b[0] == LF {
        0
    } else {
        1 + newline_at(b.drop_first())
    }
}

/// A line that ended in `\n` loses one `\r` before it.
pub open spec fn strip_cr(line: Seq<u8>) -> Seq<u8> {
    if line.len() > 0 && line.last() == CR {
        line.drop_last()
    } else {
        line
    }
}

/// The lines of `b`, as `str::lines` cuts them: split at each `\n`, drop one
/// `\r` before a `\n`, and no empty line after a final `\n`.
pub open spec fn lines_of(b: Seq<u8>) -> Seq<Seq<u8>>
    decreases b.len(),
{
    if b.len() == 0 {
        Seq::empty()
    } else {
        let i = newline_at(b);
        if 0 <= i < b.len() {
            seq![strip_cr(b.take(i))] + lines_of(b.skip(i + 1))
        } else {
            seq![b]
        }
    }
}

proof fn lemma_newline_at(b: Seq<u8>, k: int)
    requires
        0 <= k <= b.len(),
        forall|j: int| 0 <= j < k ==> b[j] != LF,
        k < b.len() ==> b[k] == LF,
    ensures
        newline_at(b) == k,
    decreases k,
{
    if k > 0 {
        lemma_newline_at(b.drop_first(), k - 1);
    }
}

/// The lines of a packet, each as a packet of its own; `None` when the
/// packet is not UTF-8.
pub fn split_lines(ip: &[u8]) -> (r: Option<Vec<Vec<u8>>>)
    ensures
        r is Some <==> valid_utf8(ip@),
        r matches Some(lines) ==> lines@.map_values(|l: Vec<u8>| l@) == lines_of(ip@),
{
    if utf8_text(ip).is_none() {
        return None;
    }
    let mut lines: Vec<Vec<u8>> = Vec::new();
    let mut start: usize = 0;
    assert(ip@.skip(0) =~= ip@);
    assert(lines@.map_values(|l: Vec<u8>| l@) =~= Seq::<Seq<u8>>::empty());
    while start < ip.len()
        invariant
            0 <= start <= ip@.len(),
            lines@.map_values(|l: Vec<u8>| l@) + lines_of(ip@.skip(start as int)) == lines_of(ip@),
        decreases ip@.len() - start,
    {
        let ghost rest = ip@.skip(start as int);
        let mut end: usize = start;
        while end < ip.len() && ip[end] != LF
            invariant
                start <= end <= ip@.len(),
                forall|j: int| start <= j < end ==> ip@[j] != LF,
            decreases ip@.len() - end,
        {
            end = end + 1;
        }
        proof {
            lemma_newline_at(rest, end - start);
        }
        let mut stop: usize = end;
        if end < ip.len() && end > start && ip[end - 1] == CR {
            stop = end - 1;
        }
        let line = slice_to_vec(slice_subrange(ip, start, stop));
        let ghost before = lines@.map_values(|l: Vec<u8>| l@);
        lines.push(line);
        proof {
            assert(lines@.map_values(|l: Vec<u8>| l@) =~= before.push(line@));
            if end < ip@.len() {
                assert(rest.take(end - start) =~= ip@.subrange(start as int, end as int));
                assert(line@ =~= strip_cr(rest.take(end - start)));
                assert(rest.skip(end - start + 1) =~= ip@.skip(end + 1));
                assert(lines_of(rest) == seq![line@] + lines_of(ip@.skip(end + 1)));
                assert(before + lines_of(rest) =~= before.push(line@) + lines_of(
                    ip@.skip(end + 1),
                ));
            } else {
                assert(line@ =~= rest);
                assert(lines_of(rest) == seq![line@]);
                assert(ip@.skip(end as int) =~= Seq::<u8>::empty());
                assert(before + lines_of(rest) =~= before.push(line@) + lines_of(
                    ip@.skip(end as int),
                ));
            }
        }
        if end < ip.len() {
            start = end + 1;
        } else {
            start = end;
        }
    }
    proof {
        assert(ip@.skip(start as int) =~= Seq::<u8>::empty());
        assert(lines@.map_values(|l: Vec<u8>| l@) =~= lines@.map_values(|l: Vec<u8>| l@) + lines_of(
            ip@.skip(start as int),
        ));
    }
    Some(lines)
}

} // verus!
