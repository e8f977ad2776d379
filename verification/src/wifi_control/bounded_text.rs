//! Fixed-capacity texts that the radio configuration carries.
use vstd::prelude::*;
use vstd::string::StringSliceAdditionalSpecFns;

verus! {

/// Capacity in bytes of a network name.
pub const SSID_CAPACITY: usize = 32;

/// Capacity in bytes of a network password.
pub const PASSWORD_CAPACITY: usize = 64;

#[verifier::external_type_specification]
#[verifier::external_body]
pub struct ExHeaplessString<const N: usize>(heapless::String<N>);

/// The bytes that a network-name buffer holds.
pub uninterp spec fn ssid_bytes(s: heapless::String<32>) -> Seq<u8>;

/// The bytes that a password buffer holds.
pub uninterp spec fn password_bytes(s: heapless::String<64>) -> Seq<u8>;

/// `<heapless::String<32> as FromStr>::from_str`: copies the bytes of `s` into
/// a 32-byte buffer, and fails when `s` has more than 32 bytes.
#[verifier::external_body]
pub(crate) fn ssid_buffer(s: &str) -> (r: Result<heapless::String<32>, ()>)
    ensures
        r is Ok <==> s.spec_bytes().len() <= 32,
        r matches Ok(h) ==> ssid_bytes(h) == s.spec_bytes(),
{
    <heapless::String<32> as core::str::FromStr>::from_str(s)
}

/// `<heapless::String<64> as FromStr>::from_str`: copies the bytes of `s` into
/// a 64-byte buffer, and fails when `s` has more than 64 bytes.
#[verifier::external_body]
pub(crate) fn password_buffer(s: &str) -> (r: Result<heapless::String<64>, ()>)
    ensures
        r is Ok <==> s.spec_bytes().len() <= 64,
        r matches Ok(h) ==> password_bytes(h) == s.spec_bytes(),
{
    <heapless::String<64> as core::str::FromStr>::from_str(s)
}

} // verus!
