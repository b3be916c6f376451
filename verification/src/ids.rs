//! Identifiers: name-based (version 5) UUIDs in the OID namespace and
//! their canonical text form.
use uuid::Uuid;
use vstd::prelude::*;

verus! {

/// The lower-case hexadecimal digit for a nibble `0 <= n < 16`.
pub open spec fn lower_hex_digit(n: int) -> char {
    if n < 10 {
        (48 + n) as char
    } else {
        (87 + n) as char
    }
}

/// The `i`-th hexadecimal digit (most significant first) of a 128-bit value.
pub open spec fn hex_nibble(id: u128, i: int) -> int {
    (id as int / vstd::arithmetic::power2::pow2((4 * (31 - i)) as nat) as int) % 16
}

/// Index of the hexadecimal digit written at position `j` of the hyphenated form.
pub open spec fn digit_at(j: int) -> int {
    if j < 8 {
        j
    } else if j < 13 {
        j - 1
    } else if j < 18 {
        j - 2
    } else if j < 23 {
        j - 3
    } else {
        j - 4
    }
}

/// Hyphenated lower-case form `xxxxxxxx-xxxx-xxxx-xxxx-xxxxxxxxxxxx` of a UUID.
pub open spec fn hyphenated(id: u128) -> Seq<char> {
    Seq::new(
        36,
        |j: int|
            if j == 8 || j == 13 || j == 18 || j == 23 {
                '-'
            } else {
                lower_hex_digit(hex_nibble(id, digit_at(j)))
            },
    )
}

/// The SHA-1 name-based UUID of the UTF-8 bytes of `name` in the OID namespace.
pub uninterp spec fn spec_uuid_v5_oid(name: Seq<char>) -> u128;

/// Calls `uuid::Uuid::new_v5(&Uuid::NAMESPACE_OID, name.as_bytes())` and returns
/// the UUID as a big-endian `u128`. Trusted: the value equals the name applied
/// to `name`, and, as `Builder::from_sha1_bytes` sets them, the version nibble is 5
/// and the variant bits are `10`. The SHA-1 digest itself is not described.
#[verifier::external_body]
pub(crate) fn uuid_v5_oid(name: &str) -> (id: u128)
    ensures
        id == spec_uuid_v5_oid(name@),
        (id >> 76u128) & 0xfu128 == 5,
        (id >> 62u128) & 0x3u128 == 2,
{
    Uuid::new_v5(&Uuid::NAMESPACE_OID, name.as_bytes()).as_u128()
}

/// Formats a UUID with `uuid::Uuid`'s `Display` (hyphenated, lower case).
/// Trusted: the text is the 36-character hyphenated form of the value, as
/// `uuid`'s `fmt::LowerHex` writes it.
#[verifier::external_body]
pub(crate) fn uuid_to_string(id: u128) -> (text: String)
    ensures
        text@ == hyphenated(id),
{
    Uuid::from_u128(id).to_string()
}

} // verus!
