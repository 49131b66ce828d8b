//! Heights of a counterparty chain.

use vstd::prelude::*;

use crate::error::ClientError;

verus! {

/// A height is a revision number and a height within that revision.
/// Heights are ordered lexicographically: first by revision, then by height.
#[derive(Clone, Copy, Debug, PartialEq, Eq, Structural, Hash)]
pub struct Height {
    pub revision_number: u64,
    pub revision_height: u64,
}

impl Height {
    /// Strict lexicographic order.
    pub open spec fn lt(self, other: Height) -> bool {
        self.revision_number < other.revision_number || (self.revision_number
            == other.revision_number && self.revision_height < other.revision_height)
    }

    /// Non-strict lexicographic order.
    pub open spec fn le(self, other: Height) -> bool {
        self.lt(other) || self == other
    }

    /// The height directly after `self` within the same revision.
    pub open spec fn is_successor_of(self, other: Height) -> bool {
        self.revision_number == other.revision_number && self.revision_height
            == other.revision_height + 1
    }

    /// Builds a height; a revision height of zero is rejected.
    pub fn new(revision_number: u64, revision_height: u64) -> (r: Result<Height, ClientError>)
        ensures
            revision_height == 0 ==> r == Err::<Height, ClientError>(ClientError::InvalidHeight),
            revision_height != 0 ==> r == Ok::<Height, ClientError>(
                (Height { revision_number, revision_height }),
            ),
    {
        if revision_height == 0 {
            Err(ClientError::InvalidHeight)
        } else {
            Ok(Height { revision_number, revision_height })
        }
    }

    /// The height that a wire form stands for, where the wire writes `0-0`
    /// for no height.
    pub fn from_wire(revision_number: u64, revision_height: u64) -> (r: Option<Height>)
        ensures
            r == (if revision_number == 0 && revision_height == 0 {
                None
            } else {
                Some((Height { revision_number, revision_height }))
            }),
    {
        if revision_number == 0 && revision_height == 0 {
            None
        } else {
            Some(Height { revision_number, revision_height })
        }
    }

    pub fn revision_number(&self) -> (r: u64)
        ensures
            r == self.revision_number,
    {
        self.revision_number
    }

    pub fn revision_height(&self) -> (r: u64)
        ensures
            r == self.revision_height,
    {
        self.revision_height
    }

    pub fn is_lt(&self, other: &Height) -> (r: bool)
        ensures
            r == self.lt(*other),
    {
        self.revision_number < other.revision_number || (self.revision_number
            == other.revision_number && self.revision_height < other.revision_height)
    }

    pub fn is_le(&self, other: &Height) -> (r: bool)
        ensures
            r == self.le(*other),
    {
        self.is_lt(other) || (self.revision_number == other.revision_number
            && self.revision_height == other.revision_height)
    }

    pub fn is_gt(&self, other: &Height) -> (r: bool)
        ensures
            r == other.lt(*self),
    {
        other.is_lt(self)
    }

    pub fn is_ge(&self, other: &Height) -> (r: bool)
        ensures
            r == other.le(*self),
    {
        other.is_le(self)
    }

    /// The later of two heights.
    pub fn max(self, other: Height) -> (r: Height)
        ensures
            r == (if self.lt(other) {
                other
            } else {
                self
            }),
    {
        if self.is_lt(&other) {
            other
        } else {
            self
        }
    }
}

/// The order on heights is irreflexive.
pub proof fn law_height_order_irreflexive(a: Height)
    ensures
        !a.lt(a),
{
}

/// The order on heights is transitive.
pub proof fn law_height_order_transitive(a: Height, b: Height, c: Height)
    requires
        a.lt(b),
        b.lt(c),
    ensures
        a.lt(c),
{
}

/// The order on heights is total: of two heights one is below the other, or
/// they are equal.
pub proof fn law_height_order_total(a: Height, b: Height)
    ensures
        a.lt(b) || b.lt(a) || a == b,
        !(a.lt(b) && b.lt(a)),
{
}

} // verus!
