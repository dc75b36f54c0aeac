use vstd::prelude::*;

verus! {

/// The text of a UUID as `Uuid`'s `Display` writes it: 32 lower-case
/// hexadecimal digits in groups of 8, 4, 4, 4 and 12, joined by hyphens.
pub uninterp spec fn uuid_text(id: u128) -> Seq<char>;

/// A freshly drawn version 4 UUID, as its 128-bit value.
///
/// Trusted: calls `uuid::Uuid::new_v4` and `Uuid::as_u128`. The value is
/// random, so nothing is promised of it. `new_v4` panics where the
/// operating system hands out no random bytes.
#[verifier::external_body]
pub(crate) fn random_uuid() -> u128 {
    uuid::Uuid::new_v4().as_u128()
}

/// The hyphenated text of the UUID with the 128-bit value `id`.
///
/// Trusted: calls `uuid::Uuid::from_u128` and the `Display` impl of `Uuid`
/// through `to_string`. The text depends on `id` alone.
#[verifier::external_body]
pub(crate) fn uuid_to_string(id: u128) -> (text: String)
    ensures
        text@ == uuid_text(id),
{
    uuid::Uuid::from_u128(id).to_string()
}

} // verus!
