//! The canonical reaction.

use super::account::Account;
use vstd::prelude::*;

verus! {

/// One reaction to a post, aggregated over those who gave it.
#[derive(Debug, Clone, PartialEq, Eq)]
pub struct Reaction {
    pub count: u32,
    pub me: bool,
    pub name: String,
    pub accounts: Option<Vec<Account>>,
}

/// Whether no two reactions of a sequence share a name, so that the sequence
/// is a set keyed by name.
pub open spec fn keyed_by_name(reactions: Seq<Reaction>) -> bool {
    forall|i: int, j: int|
        0 <= i < j < reactions.len() ==> (#[trigger] reactions[i]).name@ != (
        #[trigger] reactions[j]).name@
}

} // verus!
