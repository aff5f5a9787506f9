//! The vocabulary of a backend's stream: which name announces which payload.
//!
//! A backend names what a unit holds, either in an envelope around the
//! payload or by a marker in front of it. Which names a backend uses is a
//! table, and reading a name is a look into that table.

use crate::streaming::message::PayloadKind;
use crate::text::{bytes_start_with, str_eq};
use vstd::prelude::*;
use vstd::utf8::encode_utf8;

verus! {

/// What a name that the table does not hold stands for.
#[derive(Debug, Clone, Copy, PartialEq, Eq, Structural)]
pub enum Fallback {
    /// A sign of life.
    Heartbeat,
    /// Nothing that the handler is to see.
    Ignore,
}

/// One line of the table: units with this name hold a payload of this kind.
#[derive(Debug, Clone, PartialEq, Eq)]
pub struct EventRule {
    pub event: String,
    pub kind: PayloadKind,
}

/// The table of one backend. Where a name stands in it twice, the first line
/// counts.
#[derive(Debug, Clone, PartialEq, Eq)]
pub struct Vocabulary {
    pub rules: Vec<EventRule>,
    pub fallback: Fallback,
}

/// A table with its names as sequences of characters.
pub struct VocabularyView {
    pub rules: Seq<(Seq<char>, PayloadKind)>,
    pub fallback: Fallback,
}

impl View for EventRule {
    type V = (Seq<char>, PayloadKind);

    open spec fn view(&self) -> (Seq<char>, PayloadKind) {
        (self.event@, self.kind)
    }
}

impl View for Vocabulary {
    type V = VocabularyView;

    open spec fn view(&self) -> VocabularyView {
        VocabularyView {
            rules: self.rules@.map_values(|r: EventRule| r@),
            fallback: self.fallback,
        }
    }
}

/// What a unit turns out to be once its name is read.
#[derive(Debug, Clone, Copy, PartialEq, Eq, Structural)]
pub enum Reading {
    /// It holds a payload of this kind, which is still to be decoded.
    Payload(PayloadKind),
    /// It is a sign of life.
    Heartbeat,
    /// It holds nothing that the handler is to see.
    Ignored,
}

impl Fallback {
    /// What a unit with an unknown name turns out to be.
    pub open spec fn reading(self) -> Reading {
        match self {
            Fallback::Heartbeat => Reading::Heartbeat,
            Fallback::Ignore => Reading::Ignored,
        }
    }
}

/// The kind of payload that the first line with the name `event` gives, if
/// there is such a line.
pub open spec fn lookup(rules: Seq<(Seq<char>, PayloadKind)>, event: Seq<char>) -> Option<
    PayloadKind,
>
    decreases rules.len(),
{
    if rules.len() == 0 {
        None
    } else if rules[0].0 == event {
        Some(rules[0].1)
    } else {
        lookup(rules.drop_first(), event)
    }
}

/// The kind of payload that the first line gives whose name, in UTF-8, the
/// bytes of `unit` begin with, and the number of those bytes; nothing if no
/// line has such a name.
pub open spec fn lookup_marker(rules: Seq<(Seq<char>, PayloadKind)>, unit: Seq<u8>) -> Option<
    (PayloadKind, nat),
>
    decreases rules.len(),
{
    if rules.len() == 0 {
        None
    } else if encode_utf8(rules[0].0).is_prefix_of(unit) {
        Some((rules[0].1, encode_utf8(rules[0].0).len()))
    } else {
        lookup_marker(rules.drop_first(), unit)
    }
}

impl VocabularyView {
    /// What a unit with the name `event` turns out to be: the payload that the
    /// table gives for the name, or what the table says of unknown names.
    pub open spec fn reading(self, event: Seq<char>) -> Reading {
        match lookup(self.rules, event) {
            Some(kind) => Reading::Payload(kind),
            None => self.fallback.reading(),
        }
    }

    /// What a unit with a leading marker turns out to be, and how many bytes
    /// the marker takes: the payload that the table gives for the first name
    /// that the unit begins with, or, with no bytes taken, what the table says
    /// of unknown names.
    pub open spec fn marked_reading(self, unit: Seq<u8>) -> (Reading, nat) {
        match lookup_marker(self.rules, unit) {
            Some((kind, taken)) => (Reading::Payload(kind), taken),
            None => (self.fallback.reading(), 0),
        }
    }
}

impl Vocabulary {
    fn fallback_reading(&self) -> (reading: Reading)
        ensures
            reading == self.fallback.reading(),
    {
        match self.fallback {
            Fallback::Heartbeat => Reading::Heartbeat,
            Fallback::Ignore => Reading::Ignored,
        }
    }

    /// Reads the name that an envelope carries. A name that the table does not
    /// hold is no failure: it gives what the table says of unknown names.
    pub fn read(&self, event: &str) -> (reading: Reading)
        ensures
            reading == self@.reading(event@),
    {
        let n: usize = self.rules.len();
        let mut i: usize = 0;
        assert(self@.rules.skip(0) =~= self@.rules);
        while i < n
            invariant
                n == self.rules@.len(),
                i <= n,
                lookup(self@.rules, event@) == lookup(self@.rules.skip(i as int), event@),
            decreases n - i,
        {
            let ghost rest = self@.rules.skip(i as int);
            assert(rest.drop_first() =~= self@.rules.skip(i + 1));
            if str_eq(self.rules[i].event.as_str(), event) {
                return Reading::Payload(self.rules[i].kind);
            }
            i += 1;
        }
        self.fallback_reading()
    }

    /// Reads the marker that a unit begins with, and says how many bytes of
    /// the unit it takes. A unit that begins with none of the table's names is
    /// no failure: it gives what the table says of unknown names.
    pub fn read_marked(&self, unit: &[u8]) -> (reading: (Reading, usize))
        ensures
            (reading.0, reading.1 as nat) == self@.marked_reading(unit@),
    {
        let n: usize = self.rules.len();
        let mut i: usize = 0;
        assert(self@.rules.skip(0) =~= self@.rules);
        while i < n
            invariant
                n == self.rules@.len(),
                i <= n,
                lookup_marker(self@.rules, unit@) == lookup_marker(
                    self@.rules.skip(i as int),
                    unit@,
                ),
            decreases n - i,
        {
            let ghost rest = self@.rules.skip(i as int);
            assert(rest.drop_first() =~= self@.rules.skip(i + 1));
            let name = self.rules[i].event.as_str().as_bytes();
            if bytes_start_with(unit, name) {
                return (Reading::Payload(self.rules[i].kind), name.len());
            }
            i += 1;
        }
        (self.fallback_reading(), 0)
    }
}

/// A name is read as the first line that holds it says, and as unknown only
/// if no line holds it.
pub proof fn law_first_line_counts(rules: Seq<(Seq<char>, PayloadKind)>, event: Seq<char>)
    ensures
        match lookup(rules, event) {
            Some(kind) => exists|i: int|
                0 <= i < rules.len() && #[trigger] rules[i] == (event, kind) && forall|j: int|
                    0 <= j < i ==> (#[trigger] rules[j]).0 != event,
            None => forall|i: int| 0 <= i < rules.len() ==> (#[trigger] rules[i]).0 != event,
        },
    decreases rules.len(),
{
    if rules.len() > 0 && rules[0].0 != event {
        let rest = rules.drop_first();
        law_first_line_counts(rest, event);
        match lookup(rest, event) {
            Some(kind) => {
                let i = choose|i: int|
                    0 <= i < rest.len() && #[trigger] rest[i] == (event, kind) && forall|j: int|
                        0 <= j < i ==> (#[trigger] rest[j]).0 != event;
                assert forall|j: int| 0 <= j < i + 1 implies (#[trigger] rules[j]).0 != event by {
                    if j > 0 {
                        assert(rules[j] == rest[j - 1]);
                    }
                }
            },
            None => {
                assert forall|i: int| 0 <= i < rules.len() implies (#[trigger] rules[i]).0
                    != event by {
                    if i > 0 {
                        assert(rules[i] == rest[i - 1]);
                    }
                }
            },
        }
    }
}

} // verus!
