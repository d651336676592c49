//! Contact normals and the choice of the normal a body stands on.

use vstd::prelude::*;

verus! {

/// One whole unit of a normal component, in millionths.
pub const NORMAL_UNIT: i64 = 1_000_000;

/// Vertical components below this (0.0001) are snapped to exactly zero.
pub const SNAP_BELOW: i64 = 100;

/// Identifier of a physics body.
pub type EntityId = u64;

/// A contact normal, each component in millionths of a unit.
#[derive(Clone, Copy, Debug, PartialEq, Eq, Structural)]
pub struct Normal {
    pub x: i64,
    pub y: i64,
}

/// One contact reported by the physics collaborator: the two bodies, whether
/// the contact is active, and the normal as reported (pointing from the first
/// body toward the second).
#[derive(Clone, Copy, Debug, PartialEq, Eq, Structural)]
pub struct Contact {
    pub collider1: EntityId,
    pub collider2: EntityId,
    pub active: bool,
    pub normal: Normal,
}

impl Normal {
    /// Straight up: the normal of flat ground.
    pub open spec fn spec_up() -> Normal {
        Normal { x: 0, y: NORMAL_UNIT }
    }

    pub fn up() -> (r: Normal)
        ensures
            r == Normal::spec_up(),
    {
        Normal { x: 0, y: NORMAL_UNIT }
    }

    /// Both components lie within one unit, as those of a unit vector do.
    pub open spec fn wf(self) -> bool {
        -NORMAL_UNIT <= self.x <= NORMAL_UNIT && -NORMAL_UNIT <= self.y <= NORMAL_UNIT
    }
}

/// Every contact normal in `s` is well formed.
pub open spec fn contacts_wf(s: Seq<Contact>) -> bool {
    forall|i: int| 0 <= i < s.len() ==> #[trigger] s[i].normal.wf()
}

/// The normal of `c` oriented away from the body `e`, if `e` takes part in an
/// active contact `c`.
pub open spec fn oriented(c: Contact, e: EntityId) -> Option<Normal> {
    if !c.active {
        None
    } else if c.collider1 == e {
        Some(Normal { x: (-c.normal.x) as i64, y: (-c.normal.y) as i64 })
    } else if c.collider2 == e {
        Some(c.normal)
    } else {
        None
    }
}

/// The most upward-facing oriented normal among `s` (the first one on a tie),
/// before snapping.
pub open spec fn most_upward(s: Seq<Contact>, e: EntityId) -> Option<Normal>
    decreases s.len(),
{
    if s.len() == 0 {
        None
    } else {
        let best = most_upward(s.drop_last(), e);
        match oriented(s.last(), e) {
            Some(n) => match best {
                Some(b) => if n.y > b.y { Some(n) } else { Some(b) },
                None => Some(n),
            },
            None => best,
        }
    }
}

/// A vertical component below `SNAP_BELOW` becomes exactly zero.
pub open spec fn snapped(n: Normal) -> Normal {
    if n.y < SNAP_BELOW {
        Normal { x: n.x, y: 0 }
    } else {
        n
    }
}

/// The normal that `e` stands on, given the contacts of this tick.
pub open spec fn standing_normal(s: Seq<Contact>, e: EntityId) -> Option<Normal> {
    match most_upward(s, e) {
        Some(n) => Some(snapped(n)),
        None => None,
    }
}

/// Among the active contacts involving `entity`, orient each normal away from
/// `entity` and pick the most upward-facing one (the first on a tie); snap a
/// tiny vertical component to zero. `None` when no active contact involves
/// `entity`.
pub fn resolve_standing_normal(contacts: &Vec<Contact>, entity: EntityId) -> (r: Option<Normal>)
    requires
        contacts_wf(contacts@),
    ensures
        r == standing_normal(contacts@, entity),
{
    let mut best: Option<Normal> = None;
    let mut i: usize = 0;
    while i < contacts.len()
        invariant
            0 <= i <= contacts.len(),
            contacts_wf(contacts@),
            best == most_upward(contacts@.take(i as int), entity),
        decreases contacts.len() - i,
    {
        let c = contacts[i];
        assert(c.normal.wf());
        let cand: Option<Normal> = if !c.active {
            None
        } else if c.collider1 == entity {
            Some(Normal { x: -c.normal.x, y: -c.normal.y })
        } else if c.collider2 == entity {
            Some(c.normal)
        } else {
            None
        };
        match cand {
            Some(n) => {
                match best {
                    Some(b) => {
                        if n.y > b.y {
                            best = Some(n);
                        }
                    },
                    None => {
                        best = Some(n);
                    },
                }
            },
            None => {},
        }
        assert(contacts@.take(i + 1).drop_last() == contacts@.take(i as int));
        i = i + 1;
    }
    assert(contacts@.take(contacts.len() as int) == contacts@);
    match best {
        Some(n) => {
            if n.y < SNAP_BELOW {
                Some(Normal { x: n.x, y: 0 })
            } else {
                Some(n)
            }
        },
        None => None,
    }
}

} // verus!
