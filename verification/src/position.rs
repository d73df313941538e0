//! Positions in a text buffer and their order.

use crate::text::{decimal, push_decimal};
use std::cmp::Ordering;
use vstd::prelude::*;
use vstd::string::StringExecFns;
use vstd::std_specs::cmp::PartialOrdSpecImpl;

verus! {

/// A place in a buffer: a line and a column on that line.
///
/// Positions are ordered by line first and by column second.
#[derive(Clone, Copy, Debug, PartialEq, Eq, Structural, Ord, Hash)]
pub struct Position {
    pub line: usize,
    pub column: usize,
}

impl Position {
    /// `self` comes strictly before `other`.
    pub open spec fn precedes(self, other: Position) -> bool {
        self.line < other.line || (self.line == other.line && self.column < other.column)
    }

    /// `self` comes before `other` or is `other`.
    pub open spec fn at_most(self, other: Position) -> bool {
        self.precedes(other) || self == other
    }

    /// How `self` stands to `other` in the order of positions.
    pub open spec fn order(self, other: Position) -> Ordering {
        if self.precedes(other) {
            Ordering::Less
        } else if self == other {
            Ordering::Equal
        } else {
            Ordering::Greater
        }
    }

    /// The earlier of two positions; `self` where they are equal.
    pub open spec fn earlier(self, other: Position) -> Position {
        if other.precedes(self) {
            other
        } else {
            self
        }
    }

    /// The later of two positions; `self` where they are equal.
    pub open spec fn later(self, other: Position) -> Position {
        if self.precedes(other) {
            other
        } else {
            self
        }
    }

    /// The position written out for a log.
    pub open spec fn description(self) -> Seq<char> {
        "Position{ line: "@ + decimal(self.line as nat) + ", column: "@ + decimal(
            self.column as nat,
        ) + " }"@
    }

    pub fn new(line: usize, column: usize) -> (position: Position)
        ensures
            position.line == line,
            position.column == column,
    {
        Position { line, column }
    }

    /// Writes the position out for a log.
    pub fn describe(&self) -> (text: String)
        ensures
            text@ == self.description(),
    {
        let mut text = "Position{ line: ".to_owned();
        push_decimal(&mut text, self.line);
        text.append(", column: ");
        push_decimal(&mut text, self.column);
        text.append(" }");
        text
    }

    /// Compares by line, then by column.
    pub fn cmp(&self, other: &Position) -> (order: Ordering)
        ensures
            order == self.order(*other),
    {
        if self.line < other.line {
            Ordering::Less
        } else if self.line > other.line {
            Ordering::Greater
        } else if self.column < other.column {
            Ordering::Less
        } else if self.column > other.column {
            Ordering::Greater
        } else {
            Ordering::Equal
        }
    }
}

impl PartialOrd for Position {
    fn partial_cmp(&self, other: &Position) -> (order: Option<Ordering>) {
        Some(self.cmp(other))
    }
}

impl PartialOrdSpecImpl for Position {
    open spec fn obeys_partial_cmp_spec() -> bool {
        true
    }

    open spec fn partial_cmp_spec(&self, other: &Position) -> Option<Ordering> {
        Some(self.order(*other))
    }
}

/// No position comes before itself.
pub proof fn lemma_precedes_irreflexive(p: Position)
    ensures
        !p.precedes(p),
{
}

/// If `p` comes before `q` and `q` before `r`, then `p` comes before `r`.
pub proof fn lemma_precedes_transitive(p: Position, q: Position, r: Position)
    requires
        p.precedes(q),
        q.precedes(r),
    ensures
        p.precedes(r),
{
}

/// Of two positions no more than one comes before the other.
pub proof fn lemma_precedes_asymmetric(p: Position, q: Position)
    requires
        p.precedes(q),
    ensures
        !q.precedes(p),
{
}

/// Two positions that are each at most the other are the same position.
pub proof fn lemma_at_most_antisymmetric(p: Position, q: Position)
    requires
        p.at_most(q),
        q.at_most(p),
    ensures
        p == q,
{
}

/// Of two positions exactly one holds: the first comes before the second,
/// they are equal, or the second comes before the first.
pub proof fn lemma_order_total(p: Position, q: Position)
    ensures
        p.precedes(q) || p == q || q.precedes(p),
        !(p.precedes(q) && p == q),
        !(p == q && q.precedes(p)),
        !(p.precedes(q) && q.precedes(p)),
        p.order(q) == Ordering::Less <==> q.order(p) == Ordering::Greater,
        p.order(q) == Ordering::Equal <==> p == q,
{
}

/// Taking the earlier, or the later, position with the same position a
/// second time changes nothing.
pub proof fn lemma_earlier_later_idempotent(bound: Position, p: Position)
    ensures
        bound.earlier(p).earlier(p) == bound.earlier(p),
        bound.later(p).later(p) == bound.later(p),
        p.earlier(p) == p,
        p.later(p) == p,
{
}

} // verus!
