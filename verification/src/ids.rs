//! Fresh random identifiers.
use vstd::prelude::*;

verus! {

/// `id`, read as a UUID in the byte order of `Uuid::as_u128`, has version 4
/// (random) and the RFC 4122 variant.
pub open spec fn is_v4_uuid(id: u128) -> bool {
    &&& (id >> 76u128) & 0xf == 4
    &&& (id >> 62u128) & 0x3 == 2
}

/// Calls `uuid::Uuid::new_v4` and returns it as `as_u128` does. The value is
/// random; what holds of every outcome is that the version nibble
/// is 4 and the variant bits are `10`.
#[verifier::external_body]
pub(crate) fn new_v4_uuid() -> (id: u128)
    ensures
        is_v4_uuid(id),
{
    uuid::Uuid::new_v4().as_u128()
}

/// Whether `c` is one of the 64 URL-safe characters of `nanoid::alphabet::SAFE`.
pub open spec fn is_url_safe_char(c: char) -> bool {
    ||| c == '_'
    ||| c == '-'
    ||| ('0' <= c && c <= '9')
    ||| ('a' <= c && c <= 'z')
    ||| ('A' <= c && c <= 'Z')
}

/// Calls `nanoid::format(nanoid::rngs::default, &nanoid::alphabet::SAFE, size)`,
/// which the `nanoid!(size)` macro expands to. The characters are random;
/// what holds of every outcome is that the string has `size` characters,
/// each from the alphabet. With a size of 0 `format` loops forever, and
/// `8 * size` must not overflow: `requires` leaves both out.
#[verifier::external_body]
pub(crate) fn random_code(size: usize) -> (code: String)
    requires
        1 <= size <= 1_000_000,
    ensures
        code@.len() == size,
        forall|i: int| 0 <= i < code@.len() ==> is_url_safe_char(#[trigger] code@[i]),
{
    nanoid::format(nanoid::rngs::default, &nanoid::alphabet::SAFE, size)
}

} // verus!
