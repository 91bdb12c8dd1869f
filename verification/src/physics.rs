//! Collision-filter vocabulary shared with the physics collaborator.
//!
//! Filters are bit masks: a shape belongs to the groups in `memberships`
//! and collides only with shapes whose group is in `filters`.
use vstd::prelude::*;

verus! {

/// Static world geometry.
pub const GROUP_WORLD: u32 = 1;

/// Attacking hit-box shapes.
pub const GROUP_HIT: u32 = 2;

/// Defending hurt-box shapes.
pub const GROUP_HURT: u32 = 4;

/// The player's shapes.
pub const GROUP_PLAYER: u32 = 8;

/// Enemy shapes.
pub const GROUP_ENEMY: u32 = 16;

/// A shape's collision-filter state: which groups it belongs to and
/// which groups it responds to.
#[derive(Clone, Copy, Debug, PartialEq, Eq, Structural)]
pub struct CollisionGroups {
    pub memberships: u32,
    pub filters: u32,
}

impl CollisionGroups {
    /// A filter from explicit membership and filter masks.
    pub fn new(memberships: u32, filters: u32) -> (r: Self)
        ensures
            r.memberships == memberships,
            r.filters == filters,
    {
        CollisionGroups { memberships, filters }
    }

    /// The empty filter: the shape responds to nothing.
    pub open spec fn spec_none() -> CollisionGroups {
        CollisionGroups { memberships: 0, filters: 0 }
    }

    /// The player hurt box's normal filter: a player-group shape that
    /// responds to hit boxes.
    pub open spec fn spec_player_hurt() -> CollisionGroups {
        CollisionGroups { memberships: GROUP_PLAYER, filters: GROUP_HIT }
    }
}

} // verus!
