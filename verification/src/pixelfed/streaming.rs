//! What Pixelfed sends on a stream.

use crate::streaming::codec::{EventRule, Fallback, Vocabulary, VocabularyView};
use vstd::prelude::*;

verus! {

/// The names that Pixelfed gives to the units of a stream: none. Pixelfed
/// announces nothing, so whatever arrives holds nothing for the handler.
pub open spec fn events() -> VocabularyView {
    VocabularyView { rules: Seq::empty(), fallback: Fallback::Ignore }
}

/// The table of the names that Pixelfed gives to the units of a stream, which
/// is empty.
pub fn vocabulary() -> (table: Vocabulary)
    ensures
        table@ == events(),
{
    let rules: Vec<EventRule> = Vec::new();
    let table = Vocabulary { rules, fallback: Fallback::Ignore };
    assert(table@.rules =~= events().rules);
    table
}

} // verus!
