//! The target's region table: a text of one line per mapping, each
//! `start-end perms ... label`, in which the heap carries the label `[heap]`.

use vstd::prelude::*;
use vstd::slice::slice_subrange;
use crate::fields::{find_byte, first_index};
use crate::numeral::{parse_signed, parsed_signed, Radix};

verus! {

/// The address range of one mapping, as the table gives it. The system
/// reports `start < end`; nothing here depends on it.
#[derive(Clone, Copy, Debug, PartialEq, Eq, Structural)]
pub struct MemoryRegion {
    pub start: usize,
    pub end: usize,
}

/// Why no heap could be taken from a table.
#[derive(Clone, Copy, Debug, PartialEq, Eq, Structural)]
pub enum LocateError {
    /// No line of the table carries the heap label.
    HeapNotFound,
    /// The labelled line does not begin with two hexadecimal addresses.
    MalformedEntry,
}

/// The bytes of `[heap]`.
pub open spec fn heap_label() -> Seq<u8> {
    seq![0x5bu8, 0x68u8, 0x65u8, 0x61u8, 0x70u8, 0x5du8]
}

/// The label stands in `s` at position `p`.
pub open spec fn label_at(s: Seq<u8>, p: int) -> bool {
    0 <= p && p + 6 <= s.len() && s.subrange(p, p + 6) == heap_label()
}

/// The label stands somewhere in `line`.
pub open spec fn has_label(line: Seq<u8>) -> bool {
    exists|p: int| label_at(line, p)
}

/// The first line of `table` that holds the label, without its line feed.
pub open spec fn heap_entry(table: Seq<u8>) -> Option<Seq<u8>>
    decreases table.len(),
{
    let e = first_index(table, 0x0a);
    let line = table.subrange(0, e as int);
    if has_label(line) {
        Some(line)
    } else if e < table.len() {
        heap_entry(table.subrange(e as int + 1, table.len() as int))
    } else {
        None
    }
}

/// The highest address that a table can name: the highest signed 64-bit
/// number, or the highest `usize` where that is less.
pub open spec fn highest_address() -> i64 {
    if usize::MAX > 0x7fff_ffff_ffff_ffff {
        0x7fff_ffff_ffff_ffff
    } else {
        usize::MAX as i64
    }
}

/// The range that a line of the table names. Its first field ends at the
/// first space; the field's first two parts, divided by `-`, are the start
/// and the end. Each is a hexadecimal numeral, with or without a `+`
/// before it, and no higher than the highest address.
pub open spec fn entry_region(line: Seq<u8>) -> Option<MemoryRegion> {
    let field = line.subrange(0, first_index(line, 0x20) as int);
    let dash = first_index(field, 0x2d);
    if dash >= field.len() {
        None
    } else {
        let low = field.subrange(0, dash as int);
        let rest = field.subrange(dash as int + 1, field.len() as int);
        let high = rest.subrange(0, first_index(rest, 0x2d) as int);
        match (
            parsed_signed(low, Radix::Hex, 0, highest_address()),
            parsed_signed(high, Radix::Hex, 0, highest_address()),
        ) {
            (Some(a), Some(b)) => Some(MemoryRegion { start: a as usize, end: b as usize }),
            _ => None,
        }
    }
}

/// What a table yields: the range of its first labelled line.
pub open spec fn located(table: Seq<u8>) -> Result<MemoryRegion, LocateError> {
    match heap_entry(table) {
        None => Err(LocateError::HeapNotFound),
        Some(line) => match entry_region(line) {
            Some(region) => Ok(region),
            None => Err(LocateError::MalformedEntry),
        },
    }
}

fn label_starts_at(line: &[u8], p: usize) -> (r: bool)
    requires
        p + 6 <= line@.len(),
    ensures
        r == label_at(line@, p as int),
{
    let r = line[p] == 0x5b && line[p + 1] == 0x68 && line[p + 2] == 0x65 && line[p + 3] == 0x61
        && line[p + 4] == 0x70 && line[p + 5] == 0x5d;
    proof {
        let sub = line@.subrange(p as int, p + 6);
        assert(sub[0] == line@[p + 0] && sub[1] == line@[p + 1] && sub[2] == line@[p + 2]);
        assert(sub[3] == line@[p + 3] && sub[4] == line@[p + 4] && sub[5] == line@[p + 5]);
        if r {
            assert(sub =~= heap_label());
        }
    }
    r
}

/// Tells whether a line carries the heap label.
pub fn has_heap_label(line: &[u8]) -> (r: bool)
    ensures
        r == has_label(line@),
{
    let n: usize = line.len();
    if n < 6 {
        return false;
    }
    let mut p: usize = 0;
    while p <= n - 6
        invariant
            n == line@.len(),
            n >= 6,
            forall|q: int| 0 <= q < p ==> !label_at(line@, q),
        decreases n - p,
    {
        if label_starts_at(line, p) {
            return true;
        }
        p += 1;
    }
    false
}

/// Reads the range at the head of one line of the table.
pub fn parse_entry(line: &[u8]) -> (r: Option<MemoryRegion>)
    ensures
        r == entry_region(line@),
{
    let space = find_byte(line, 0x20);
    let field = slice_subrange(line, 0, space);
    let dash = find_byte(field, 0x2d);
    if dash >= field.len() {
        return None;
    }
    let low = slice_subrange(field, 0, dash);
    let rest = slice_subrange(field, dash + 1, field.len());
    let stop = find_byte(rest, 0x2d);
    let high = slice_subrange(rest, 0, stop);
    let highest: i64 = if usize::MAX as u64 > 0x7fff_ffff_ffff_ffff {
        0x7fff_ffff_ffff_ffff
    } else {
        usize::MAX as i64
    };
    match (parse_signed(low, Radix::Hex, 0, highest), parse_signed(high, Radix::Hex, 0, highest)) {
        (Some(a), Some(b)) => Some(MemoryRegion { start: a as usize, end: b as usize }),
        _ => None,
    }
}

/// Finds the heap in the text of a region table: the range named by the
/// first line that carries the heap label.
pub fn locate_heap(table: &[u8]) -> (r: Result<MemoryRegion, LocateError>)
    ensures
        r == located(table@),
{
    let mut rest: &[u8] = table;
    loop
        invariant
            heap_entry(rest@) == heap_entry(table@),
        decreases rest@.len(),
    {
        let e = find_byte(rest, 0x0a);
        let line = slice_subrange(rest, 0, e);
        if has_heap_label(line) {
            return match parse_entry(line) {
                Some(region) => Ok(region),
                None => Err(LocateError::MalformedEntry),
            };
        }
        if e >= rest.len() {
            return Err(LocateError::HeapNotFound);
        }
        rest = slice_subrange(rest, e + 1, rest.len());
    }
}

} // verus!
