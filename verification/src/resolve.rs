//! Reading the answer of a process lookup: the identifiers of the matching
//! processes in decimal, divided by spaces, on one line with its line end.

use vstd::prelude::*;
use vstd::slice::slice_subrange;
use crate::fields::{find_byte, first_index};
use crate::numeral::{parse_signed, parsed_signed, Radix};

verus! {

/// Why a lookup named no process.
#[derive(Clone, Copy, Debug, PartialEq, Eq, Structural)]
pub enum ResolveError {
    /// The lookup answered nothing: no process has the name.
    NotFound,
    /// The answer does not begin with a process identifier.
    MalformedResult,
}

/// The first identifier listed: the answer without its final byte, the
/// line end, up to the first space.
pub open spec fn first_listed(output: Seq<u8>) -> Seq<u8> {
    let body = output.drop_last();
    body.subrange(0, first_index(body, 0x20) as int)
}

/// What an answer resolves to: the first identifier listed, which is a
/// decimal numeral within `i32`, with or without a sign.
pub open spec fn resolved(output: Seq<u8>) -> Result<i32, ResolveError> {
    if output.len() == 0 {
        Err(ResolveError::NotFound)
    } else {
        match parsed_signed(first_listed(output), Radix::Decimal, i32::MIN as i64, i32::MAX as i64) {
            Some(v) => Ok(v as i32),
            None => Err(ResolveError::MalformedResult),
        }
    }
}

/// Takes the process identifier from the answer of a lookup by name. Of
/// several processes it takes the first listed.
pub fn parse_pid(output: &[u8]) -> (r: Result<i32, ResolveError>)
    ensures
        r == resolved(output@),
{
    if output.len() == 0 {
        return Err(ResolveError::NotFound);
    }
    let body = slice_subrange(output, 0, output.len() - 1);
    let first = slice_subrange(body, 0, find_byte(body, 0x20));
    match parse_signed(first, Radix::Decimal, i32::MIN as i64, i32::MAX as i64) {
        Some(v) => Ok(v as i32),
        None => Err(ResolveError::MalformedResult),
    }
}

} // verus!
