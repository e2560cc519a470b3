//! Paths as the engine takes them: a nul-terminated byte string without inner nuls.
use vstd::prelude::*;

use crate::error::{Error, Result};
use ascii::AsciiChar;

verus! {

/// No byte of `bytes` is a nul.
pub open spec fn nul_free(bytes: Seq<u8>) -> bool {
    forall|i: int| 0 <= i < bytes.len() ==> bytes[i] != 0
}

/// `p` is the position of the first nul of `bytes`.
pub open spec fn first_nul(bytes: Seq<u8>, p: int) -> bool {
    &&& 0 <= p < bytes.len()
    &&& bytes[p] == 0
    &&& nul_free(bytes.subrange(0, p))
}

/// Every unit of `units` is an ASCII character.
pub open spec fn all_ascii(units: Seq<u16>) -> bool {
    forall|i: int| 0 <= i < units.len() ==> units[i] <= 0x7f
}

/// `p` is the position of the first unit of `units` that is not ASCII.
pub open spec fn first_non_ascii(units: Seq<u16>, p: int) -> bool {
    &&& 0 <= p < units.len()
    &&& units[p] > 0x7f
    &&& all_ascii(units.subrange(0, p))
}

/// The bytes of ASCII units.
pub open spec fn narrow(units: Seq<u16>) -> Seq<u8> {
    units.map_values(|u: u16| u as u8)
}

/// Relies on ascii's `AsciiChar::from_ascii` for a UTF-16 unit: it accepts exactly the
/// units up to 0x7f, and `as_byte` gives the accepted unit back as a byte.
#[verifier::external_body]
fn ascii_byte(unit: u16) -> (r: Option<u8>)
    ensures
        match r {
            Some(b) => unit <= 0x7f && b == unit,
            None => unit > 0x7f,
        },
{
    match AsciiChar::from_ascii(unit) {
        Ok(ch) => Some(ch.as_byte()),
        Err(_) => None,
    }
}

/// The engine's form of a path given as bytes: the bytes and a closing nul. A nul
/// inside the path cannot be represented; its first position is reported.
pub fn try_bytes_to_cstr(bytes: &[u8]) -> (r: Result<Vec<u8>>)
    ensures
        match r {
            Ok(v) => nul_free(bytes@) && v@ == bytes@.push(0),
            Err(e) => match e {
                Error::PathEncoding { position } => first_nul(bytes@, position as int),
                _ => false,
            },
        },
{
    let mut out: Vec<u8> = Vec::new();
    let mut i: usize = 0;
    while i < bytes.len()
        invariant
            i <= bytes@.len(),
            out@ == bytes@.subrange(0, i as int),
            nul_free(bytes@.subrange(0, i as int)),
        decreases bytes@.len() - i,
    {
        if bytes[i] == 0 {
            return Err(Error::PathEncoding { position: i });
        }
        out.push(bytes[i]);
        i += 1;
        assert(bytes@.subrange(0, i as int) =~= bytes@.subrange(0, i - 1).push(bytes@[i - 1]));
    }
    assert(bytes@.subrange(0, i as int) =~= bytes@);
    out.push(0);
    Ok(out)
}

/// The engine's form of a path given as UTF-16 units: every unit must be ASCII, and
/// the bytes must then be free of nuls. The first unit that breaks a rule is reported,
/// non-ASCII units being looked for first.
pub fn try_wide_to_cstr(units: &[u16]) -> (r: Result<Vec<u8>>)
    ensures
        match r {
            Ok(v) => all_ascii(units@) && nul_free(narrow(units@)) && v@ == narrow(units@).push(
                0,
            ),
            Err(e) => match e {
                Error::PathEncoding { position } => first_non_ascii(units@, position as int) || (
                all_ascii(units@) && first_nul(narrow(units@), position as int)),
                _ => false,
            },
        },
{
    let mut ascii: Vec<u8> = Vec::new();
    let mut i: usize = 0;
    while i < units.len()
        invariant
            i <= units@.len(),
            ascii@ == narrow(units@.subrange(0, i as int)),
            all_ascii(units@.subrange(0, i as int)),
        decreases units@.len() - i,
    {
        match ascii_byte(units[i]) {
            Some(b) => {
                ascii.push(b);
            },
            None => {
                return Err(Error::PathEncoding { position: i });
            },
        }
        i += 1;
        assert(units@.subrange(0, i as int) =~= units@.subrange(0, i - 1).push(units@[i - 1]));
        assert(ascii@ =~= narrow(units@.subrange(0, i as int)));
    }
    assert(units@.subrange(0, i as int) =~= units@);
    try_bytes_to_cstr(ascii.as_slice())
}

} // verus!
