//! Reactions as Firefish reports them.

use crate::entities::reaction::{keyed_by_name, Reaction};
use vstd::prelude::*;

verus! {

/// How often one reaction was given to a note.
#[derive(Debug, Clone, PartialEq, Eq)]
pub struct ReactionCount {
    pub name: String,
    pub count: u32,
}

/// Whether `mine` names the reaction `name`.
pub open spec fn is_mine(name: Seq<char>, mine: Option<String>) -> bool {
    mine matches Some(m) && m@ == name
}

/// The canonical reaction that stands for one count.
pub open spec fn reaction_of(c: ReactionCount, mine: Option<String>) -> Reaction {
    Reaction { count: c.count, me: is_mine(c.name@, mine), name: c.name, accounts: None }
}

/// The canonical reactions that stand for a note's counts, in their order.
pub open spec fn reactions_of(counts: Seq<ReactionCount>, mine: Option<String>) -> Seq<Reaction> {
    counts.map_values(|c: ReactionCount| reaction_of(c, mine))
}

/// Aggregates a note's reaction counts: one reaction for each count, in the
/// same order, marked as the reader's own where `my_reaction` names it, and
/// attributed to no accounts.
pub fn map_reaction(reactions: Vec<ReactionCount>, my_reaction: Option<String>) -> (out: Vec<
    Reaction,
>)
    ensures
        out@ == reactions_of(reactions@, my_reaction),
{
    let mut out: Vec<Reaction> = Vec::new();
    for c in it: reactions
        invariant
            out@ == reactions_of(it.seq().take(it.index()), my_reaction),
    {
        let me = match &my_reaction {
            Some(m) => *m == c.name,
            None => false,
        };
        out.push(Reaction { count: c.count, me, name: c.name, accounts: None });
    }
    out
}

/// Whether no two counts of a sequence share a name.
pub open spec fn counts_keyed_by_name(counts: Seq<ReactionCount>) -> bool {
    forall|i: int, j: int|
        0 <= i < j < counts.len() ==> (#[trigger] counts[i]).name@ != (#[trigger] counts[j]).name@
}

/// Reactions stay a set keyed by name: where no two counts share a name, no
/// two reactions do, there is one reaction for each count, and at most one of
/// them is the reader's own.
pub proof fn law_reactions_stay_keyed(counts: Seq<ReactionCount>, mine: Option<String>)
    requires
        counts_keyed_by_name(counts),
    ensures
        reactions_of(counts, mine).len() == counts.len(),
        keyed_by_name(reactions_of(counts, mine)),
        forall|i: int, j: int|
            0 <= i < j < counts.len() ==> !((#[trigger] reactions_of(counts, mine)[i]).me && (
            #[trigger] reactions_of(counts, mine)[j]).me),
{
    let reactions = reactions_of(counts, mine);
    assert forall|i: int, j: int| 0 <= i < j < reactions.len() implies (
    #[trigger] reactions[i]).name@ != (#[trigger] reactions[j]).name@ by {
        assert(counts[i].name@ != counts[j].name@);
    }
    assert forall|i: int, j: int| 0 <= i < j < counts.len() implies !((#[trigger] reactions[i]).me
        && (#[trigger] reactions[j]).me) by {
        assert(counts[i].name@ != counts[j].name@);
    }
}

} // verus!
