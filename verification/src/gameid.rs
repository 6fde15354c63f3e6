//! Text form of a game-platform identifier.
//!
//! A game-platform account id is a 128-bit value. Its customary hyphenated
//! text form appears in the outbound notification payload; producing that
//! text is delegated to the `uuid` crate.

use vstd::prelude::*;

verus! {

/// The hyphenated text of a 128-bit game id, as the `uuid` crate renders
/// it. The text depends on the value alone.
pub uninterp spec fn uuid_text_of(v: u128) -> Seq<char>;

/// Relies on `uuid::Uuid::from_u128` and the `Hyphenated` formatter: the
/// text is a function of the 128-bit value alone, and the hyphenated form
/// is 36 characters long (8-4-4-4-12 hex digits with four hyphens).
#[verifier::external_body]
pub(crate) fn uuid_hyphenated(v: u128) -> (r: String)
    ensures
        r@ == uuid_text_of(v),
        r@.len() == 36,
{
    uuid::Uuid::from_u128(v).hyphenated().to_string()
}

} // verus!
