//! Pixel extents on both sides of the device boundary.
//!
//! Callers give and receive sizes as pairs of `u32`; the device stores them as
//! pairs of `i32`. The two are related by reinterpreting the 32 bits, so that a
//! size survives the trip to the device and back whatever its magnitude.

use vstd::prelude::*;

verus! {

/// The device's signed reading of a caller's pixel count: the same 32 bits,
/// read in two's complement.
pub open spec fn signed_of(value: u32) -> i32 {
    if value <= 0x7fff_ffff {
        value as i32
    } else {
        (value - 0x1_0000_0000) as i32
    }
}

/// The caller's unsigned reading of a pixel count held by the device: the same
/// 32 bits, read as a natural number.
pub open spec fn unsigned_of(value: i32) -> u32 {
    if value >= 0 {
        value as u32
    } else {
        (value + 0x1_0000_0000) as u32
    }
}

/// The extent the device is asked for when a caller requests `size`.
pub open spec fn requested(size: [u32; 2]) -> (i32, i32) {
    (signed_of(size[0]), signed_of(size[1]))
}

/// The size a caller is told for a surface whose extent is `extent`.
pub open spec fn reported(extent: (i32, i32)) -> Seq<u32> {
    seq![unsigned_of(extent.0), unsigned_of(extent.1)]
}

/// Reads a caller's pixel count as the device does.
pub fn to_signed(value: u32) -> (r: i32)
    ensures
        r == signed_of(value),
{
    assert(value <= 0x7fff_ffffu32 ==> (value as i32) == value) by (bit_vector);
    assert(value > 0x7fff_ffffu32 ==> (value as i32) == value - 0x1_0000_0000) by (bit_vector);
    value as i32
}

/// Reads a pixel count held by the device as a caller does.
pub fn to_unsigned(value: i32) -> (r: u32)
    ensures
        r == unsigned_of(value),
{
    assert(value >= 0i32 ==> (value as u32) == value) by (bit_vector);
    assert(value < 0i32 ==> (value as u32) == value + 0x1_0000_0000) by (bit_vector);
    value as u32
}

/// The size to tell a caller for a surface of the given extent, width first.
pub fn report_extent(width: i32, height: i32) -> (r: [u32; 2])
    ensures
        r@ == reported((width, height)),
{
    let size: [u32; 2] = [to_unsigned(width), to_unsigned(height)];
    assert(size@ =~= reported((width, height)));
    size
}

/// A pixel count handed to the device and read back is the count that was
/// handed over.
pub proof fn signed_round_trip(value: u32)
    ensures
        unsigned_of(signed_of(value)) == value,
{
}

/// A pixel count read from the device and handed back is the count that was
/// read.
pub proof fn unsigned_round_trip(value: i32)
    ensures
        signed_of(unsigned_of(value)) == value,
{
}

/// Counts that fit both readings are the same in both.
pub proof fn small_counts_agree(value: u32)
    requires
        value <= 0x7fff_ffff,
    ensures
        signed_of(value) == value,
        unsigned_of(value as i32) == value,
{
}

/// A requested size, once the device holds it, is reported as it was requested.
pub proof fn requested_size_is_reported(size: [u32; 2])
    ensures
        reported(requested(size)) == size@,
{
    signed_round_trip(size[0]);
    signed_round_trip(size[1]);
    assert(reported(requested(size)) =~= size@);
}

} // verus!
