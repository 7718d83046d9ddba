//! AMD backend support.
//!
//! The ROCm SMI session itself lives outside this library (it needs the
//! vendor's management library at link time); what can be stated and checked
//! of the backend's behaviour on plain values is here: the error carried
//! through [`crate::GpuDetectionError`] and the selection of the highest
//! supported clock frequency from a backend's frequency table.

use vstd::prelude::*;

verus! {

/// An error reported by the AMD management library, carried as its message.
#[derive(Clone, Debug)]
pub struct AmdError {
    /// The vendor library's description of the failure.
    pub message: String,
}

/// The lowercase hexadecimal digit for a value below 16.
pub open spec fn hex_digit(d: int) -> char {
    if d == 0 {
        '0'
    } else if d == 1 {
        '1'
    } else if d == 2 {
        '2'
    } else if d == 3 {
        '3'
    } else if d == 4 {
        '4'
    } else if d == 5 {
        '5'
    } else if d == 6 {
        '6'
    } else if d == 7 {
        '7'
    } else if d == 8 {
        '8'
    } else if d == 9 {
        '9'
    } else if d == 10 {
        'a'
    } else if d == 11 {
        'b'
    } else if d == 12 {
        'c'
    } else if d == 13 {
        'd'
    } else if d == 14 {
        'e'
    } else {
        'f'
    }
}

/// The sixteen lowercase hex digits of `id`, most significant first,
/// zero-padded.
pub open spec fn hex16_text(id: u64) -> Seq<char> {
    Seq::new(16, |i: int| hex_digit(((id >> (((15 - i) * 4) as u64)) & 0xf) as int))
}

/// Relies on the `format!` macro of std for the zero-padded 16-digit
/// lowercase hex rendering of the id; the result depends on the argument
/// alone.
#[verifier::external_body]
fn hex16(id: u64) -> (r: String)
    ensures
        r@ == hex16_text(id),
{
    format!("{:016x}", id)
}

/// Does the identifier read as this PCIe id, rendered as sixteen lowercase
/// hex digits? This is how the AMD backend matches a device identifier.
pub fn pcie_id_matches(id: u64, identifier: &str) -> (r: bool)
    ensures
        r == (identifier@ == hex16_text(id)),
{
    let rendered = hex16(id);
    let key = identifier.to_owned();
    rendered == key
}

/// The largest element of `s` that fits in `u32`, or 0 when none does.
pub open spec fn spec_max_fitting(s: Seq<u64>) -> u64
    decreases s.len(),
{
    if s.len() == 0 {
        0
    } else {
        let rest = spec_max_fitting(s.drop_last());
        if s.last() <= u32::MAX && s.last() > rest {
            s.last()
        } else {
            rest
        }
    }
}

/// Picks a clock reading in MHz from a backend's table of supported
/// frequencies: the largest value that fits in `u32`, or 0 when the table is
/// empty or holds only out-of-range values.
pub fn max_supported_mhz(supported: &Vec<u64>) -> (r: u32)
    ensures
        r == spec_max_fitting(supported@),
{
    let mut best: u32 = 0;
    let mut i: usize = 0;
    while i < supported.len()
        invariant
            0 <= i <= supported@.len(),
            best == spec_max_fitting(supported@.take(i as int)),
        decreases supported@.len() - i,
    {
        let x = supported[i];
        proof {
            assert(supported@.take(i + 1).drop_last() =~= supported@.take(i as int));
            assert(supported@.take(i + 1).last() == supported@[i as int]);
        }
        if x <= u32::MAX as u64 && x > best as u64 {
            best = x as u32;
        }
        i = i + 1;
    }
    proof {
        assert(supported@.take(supported@.len() as int) =~= supported@);
    }
    best
}

} // verus!
