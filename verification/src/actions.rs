//! Discrete movement intents.
//!
//! An [`Actions`] value is a bitmask of the seven named movement flags.
//! Any subset is representable, including contradictory pairs such as
//! forward together with backward; contradictions are resolved when the
//! movement direction is read, not when flags are written.

use vstd::prelude::*;

verus! {

/// One named movement intent.
#[derive(Clone, Copy, Debug, PartialEq, Eq, Structural)]
pub enum Action {
    MoveForward,
    MoveBackward,
    StrafeLeft,
    StrafeRight,
    FlyUp,
    FlyDown,
    MoveFaster,
}

impl Action {
    /// The single bit this flag occupies in the mask.
    pub open spec fn spec_mask(self) -> u8 {
        match self {
            Action::MoveForward => 0x01,
            Action::MoveBackward => 0x02,
            Action::StrafeLeft => 0x04,
            Action::StrafeRight => 0x08,
            Action::FlyUp => 0x10,
            Action::FlyDown => 0x20,
            Action::MoveFaster => 0x40,
        }
    }

    /// Returns the single bit this flag occupies in the mask.
    pub fn mask(self) -> (r: u8)
        ensures
            r == self.spec_mask(),
    {
        match self {
            Action::MoveForward => 0x01,
            Action::MoveBackward => 0x02,
            Action::StrafeLeft => 0x04,
            Action::StrafeRight => 0x08,
            Action::FlyUp => 0x10,
            Action::FlyDown => 0x20,
            Action::MoveFaster => 0x40,
        }
    }
}

/// A set of movement flags, packed as a bitmask.
#[derive(Clone, Copy, Debug, PartialEq, Eq, Structural)]
pub struct Actions {
    pub bits: u8,
}

impl Actions {
    /// Whether the flag `a` is active in this set.
    pub open spec fn has(self, a: Action) -> bool {
        self.bits & a.spec_mask() == a.spec_mask()
    }

    /// The empty set: no movement intent active.
    pub fn empty() -> (r: Actions)
        ensures
            r.bits == 0,
    {
        Actions { bits: 0 }
    }

    /// The set holding exactly the flag `a`.
    pub fn single(a: Action) -> (r: Actions)
        ensures
            r.bits == a.spec_mask(),
            r.has(a),
    {
        let r = Actions { bits: a.mask() };
        proof {
            let m: u8 = a.spec_mask();
            assert(m & m == m) by (bit_vector);
        }
        r
    }

    /// The union of two flag sets.
    pub fn union(self, other: Actions) -> (r: Actions)
        ensures
            r.bits == (self.bits | other.bits),
    {
        Actions { bits: self.bits | other.bits }
    }

    /// This set with every flag of `other` cleared.
    pub fn without(self, other: Actions) -> (r: Actions)
        ensures
            r.bits == (self.bits & !other.bits),
    {
        Actions { bits: self.bits & !other.bits }
    }

    /// Whether every flag of `other` is active in this set.
    pub fn contains(self, other: Actions) -> (r: bool)
        ensures
            r == ((self.bits & other.bits) == other.bits),
    {
        (self.bits & other.bits) == other.bits
    }

    /// Whether the flag `a` is active in this set.
    pub fn is_active(self, a: Action) -> (r: bool)
        ensures
            r == self.has(a),
    {
        let m: u8 = a.mask();
        (self.bits & m) == m
    }
}

/// How one axis of movement reads a pair of opposing flags: both or
/// neither cancel to zero, otherwise the active flag gives its sign.
pub open spec fn axis_sign(pos: bool, neg: bool) -> int {
    if pos && neg {
        0
    } else if pos {
        1
    } else if neg {
        -1
    } else {
        0
    }
}

/// Local-X intent (strafe): left is positive, right is negative.
pub open spec fn direction_x(a: Actions) -> int {
    axis_sign(a.has(Action::StrafeLeft), a.has(Action::StrafeRight))
}

/// Local-Y intent (vertical): up is positive, down is negative.
pub open spec fn direction_y(a: Actions) -> int {
    axis_sign(a.has(Action::FlyUp), a.has(Action::FlyDown))
}

/// Local-Z intent (walk): forward is positive, backward is negative.
pub open spec fn direction_z(a: Actions) -> int {
    axis_sign(a.has(Action::MoveForward), a.has(Action::MoveBackward))
}

/// The three opposing flag pairs, positive member first.
pub open spec fn opposing_pair(pos: Action, neg: Action) -> bool {
    ||| (pos == Action::MoveForward && neg == Action::MoveBackward)
    ||| (pos == Action::StrafeLeft && neg == Action::StrafeRight)
    ||| (pos == Action::FlyUp && neg == Action::FlyDown)
}

/// Law: enabling both members of an opposing pair cancels that axis of
/// the movement direction, whichever order the two flags were enabled in.
pub proof fn lemma_opposing_pair_cancels(a: Actions, pos: Action, neg: Action)
    requires
        opposing_pair(pos, neg),
    ensures
        (a.bits | pos.spec_mask()) | neg.spec_mask() == (a.bits | neg.spec_mask()) | pos.spec_mask(),
        ({
            let both = (Actions { bits: (a.bits | pos.spec_mask()) | neg.spec_mask() });
            &&& (pos == Action::StrafeLeft ==> direction_x(both) == 0)
            &&& (pos == Action::FlyUp ==> direction_y(both) == 0)
            &&& (pos == Action::MoveForward ==> direction_z(both) == 0)
        }),
{
    let b: u8 = a.bits;
    let mp: u8 = pos.spec_mask();
    let mn: u8 = neg.spec_mask();
    assert((b | mp) | mn == (b | mn) | mp) by (bit_vector);
    assert(((b | mp) | mn) & mp == mp && ((b | mp) | mn) & mn == mn) by (bit_vector);
}

/// Law: disabling flags that are not active leaves the bitmask
/// unchanged, so disabling is idempotent.
pub proof fn lemma_disable_inactive_unchanged(a: Actions, f: Actions)
    requires
        a.bits & f.bits == 0,
    ensures
        a.bits & !f.bits == a.bits,
{
    let b: u8 = a.bits;
    let m: u8 = f.bits;
    assert(b & !m == b) by (bit_vector)
        requires
            b & m == 0,
    ;
}

/// Law: starting from no flags, enabling `a`, then `b`, then disabling
/// `a` leaves exactly `b` active, for any two distinct flags.
pub proof fn lemma_enable_disable_round_trip(a: Action, b: Action)
    requires
        a != b,
    ensures
        ((0u8 | a.spec_mask()) | b.spec_mask()) & !a.spec_mask() == b.spec_mask(),
{
    let ma: u8 = a.spec_mask();
    let mb: u8 = b.spec_mask();
    assert(ma == 1 || ma == 2 || ma == 4 || ma == 8 || ma == 16 || ma == 32 || ma == 64);
    assert(mb == 1 || mb == 2 || mb == 4 || mb == 8 || mb == 16 || mb == 32 || mb == 64);
    assert(ma != mb);
    assert(((0u8 | ma) | mb) & !ma == mb) by (bit_vector)
        requires
            ma == 1 || ma == 2 || ma == 4 || ma == 8 || ma == 16 || ma == 32 || ma == 64,
            mb == 1 || mb == 2 || mb == 4 || mb == 8 || mb == 16 || mb == 32 || mb == 64,
            ma != mb,
    ;
}

} // verus!
