//! UUIDs, held as their 128 bits, read and written by the `uuid` crate.
use vstd::prelude::*;

use crate::text::hex_field;

verus! {

/// What `uuid::Uuid::parse_str` makes of the text `s`: the bits of the UUID
/// it reads (`Uuid::as_u128`), or the message of the error it reports.
pub uninterp spec fn uuid_parse(s: Seq<char>) -> Result<u128, Seq<char>>;

/// The text that `Uuid::to_string` gives for the UUID with bits `u`: its
/// 32 lower-case hexadecimal digits, most significant first, in groups of
/// 8, 4, 4, 4 and 12 joined by hyphens.
pub open spec fn uuid_text(u: u128) -> Seq<char> {
    let h = hex_field(u as nat, 32);
    h.subrange(0, 8) + seq!['-'] + h.subrange(8, 12) + seq!['-'] + h.subrange(12, 16) + seq!['-']
        + h.subrange(16, 20) + seq!['-'] + h.subrange(20, 32)
}

/// Calls `uuid::Uuid::parse_str`. Claimed: the outcome is `uuid_parse` of
/// the text, the parsed UUID taken as its bits and an error as its message.
/// Which texts the crate accepts is left unsaid.
#[verifier::external_body]
pub(crate) fn parse_uuid(s: &str) -> (r: Result<u128, String>)
    ensures
        match uuid_parse(s@) {
            Ok(u) => r is Ok && r->Ok_0 == u,
            Err(m) => r matches Err(e) && e@ == m,
        },
{
    match uuid::Uuid::parse_str(s) {
        Ok(u) => Ok(u.as_u128()),
        Err(e) => Err(e.to_string()),
    }
}

/// Calls `uuid::Uuid::from_u128` and formats the UUID with `to_string`.
/// Claimed: the text is `uuid_text(u)`, the hyphenated lower-case form the
/// crate's `Display` writes, and `parse_str` reads it back to the
/// same bits (the crate documents that its parser accepts every format it
/// writes).
#[verifier::external_body]
pub(crate) fn uuid_to_string(u: u128) -> (r: String)
    ensures
        r@ == uuid_text(u),
        uuid_parse(r@) is Ok && uuid_parse(r@)->Ok_0 == u,
{
    uuid::Uuid::from_u128(u).to_string()
}

/// Whether the bits of a UUID mark version 4 (random) and the RFC 4122
/// variant: the version nibble is 4 and the two top bits of the variant
/// byte are `10`.
pub open spec fn is_random_uuid(u: u128) -> bool {
    u & 0xF000C000000000000000 == 0x40008000000000000000
}

/// Calls `uuid::Uuid::new_v4`. Its bits are random and left unsaid, but
/// for the version and variant bits, which `new_v4` sets by masking:
/// claimed, the UUID is marked version 4 with the RFC 4122 variant. (The
/// call panics only where the system's random source fails.)
#[verifier::external_body]
pub(crate) fn new_v4_bits() -> (r: u128)
    ensures
        is_random_uuid(r),
{
    uuid::Uuid::new_v4().as_u128()
}

/// A task id read from its text: the UUID's bits, or the parser's message.
pub fn task_id_from_text(s: &str) -> (r: Result<u128, String>)
    ensures
        match uuid_parse(s@) {
            Ok(u) => r == Ok::<u128, String>(u),
            Err(m) => r matches Err(e) && e@ == m,
        },
{
    parse_uuid(s)
}

/// The text of a task id, in the hyphenated form; it reads back as the
/// same id.
pub fn task_id_text(u: u128) -> (r: String)
    ensures
        r@ == uuid_text(u),
        uuid_parse(r@) == Ok::<u128, Seq<char>>(u),
{
    uuid_to_string(u)
}

/// A fresh random UUID in its hyphenated text form, used to name a
/// workspace folder.
pub fn generate_folder_name() -> (r: String)
    ensures
        exists|u: u128| is_random_uuid(u) && r@ == #[trigger] uuid_text(u),
{
    let u = new_v4_bits();
    uuid_to_string(u)
}

} // verus!
