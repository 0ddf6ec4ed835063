//! What the game takes from chance: random cells for the food and fresh
//! identifiers for games and players. Nothing here is proved; the contracts
//! say what the crates `rand` and `uuid` document.

use vstd::prelude::*;
use rand::Rng;
use uuid::Uuid;

verus! {

/// Whether `c` is one of the digits `0` to `9` or one of the letters `a` to `f`.
pub open spec fn is_lower_hex(c: char) -> bool {
    ('0' <= c && c <= '9') || ('a' <= c && c <= 'f')
}

/// Whether `text` is written like an identifier: 36 characters, hyphens at
/// the places 8, 13, 18 and 23, and lower-case hexadecimal digits elsewhere.
pub open spec fn is_identifier(text: Seq<char>) -> bool {
    &&& text.len() == 36
    &&& forall|i: int|
        0 <= i < 36 ==> if i == 8 || i == 13 || i == 18 || i == 23 {
            #[trigger] text[i] == '-'
        } else {
            is_lower_hex(text[i])
        }
}

/// A random number from `0` up to, but not including, `bound`.
///
/// Calls `rand::thread_rng` and, on the generator it returns,
/// `rand::Rng::gen_range` with the range `0..bound`. `gen_range` panics on an
/// empty range, which `bound > 0` rules out, and returns a member of the range
/// it is given. Which member is left open: two calls may differ. The
/// generator is seeded by the system and panics where the system has no seed
/// to give.
#[verifier::external_body]
pub(crate) fn random_below(bound: i32) -> (number: i32)
    requires
        bound > 0,
    ensures
        0 <= number < bound,
{
    rand::thread_rng().gen_range(0..bound)
}

/// A fresh random identifier.
///
/// Calls `uuid::Uuid::new_v4` and writes the result out with `to_string`,
/// which for a `Uuid` gives its hyphenated lower-case form. Which identifier
/// comes back is left open: nothing here says that it differs from earlier
/// ones. `new_v4` takes its random bytes from the system and panics where the
/// system has none to give.
#[verifier::external_body]
pub(crate) fn new_identifier() -> (identifier: String)
    ensures
        is_identifier(identifier@),
{
    Uuid::new_v4().to_string()
}

} // verus!
