use vstd::prelude::*;

verus! {

/// Bytes in a gigabyte (binary).
pub const GB: u64 = 1_073_741_824;

/// The whole gigabytes in `value` bytes, kept to 16 bits as the memory
/// widget stores them (wrapping above 65535).
pub fn bytes_to_gigabytes(value: u64) -> (r: u16)
    ensures
        r as int == (value / GB) as int % 65536,
{
    let whole = value / GB;
    let r = #[verifier::truncate] (whole as u16);
    assert(r == whole % 65536) by (bit_vector)
        requires r == #[verifier::truncate] (whole as u16);
    r
}

} // verus!
