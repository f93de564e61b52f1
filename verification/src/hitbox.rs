//! The hitbox of the melee attack: present for the frame after the attack
//! began, gone after the next cleanup.

use vstd::prelude::*;

verus! {

/// Side of the square hitbox, in arena units.
pub const HITBOX_SIZE: u32 = 96;

/// Offset of the hitbox from the player along the x-axis, in arena units.
pub const HITBOX_OFFSET_X: i32 = 48;

/// Offset of the hitbox from the player along the y-axis, in arena units.
pub const HITBOX_OFFSET_Y: i32 = -48;

/// Whether the attack's hitbox exists. It carries no identity and takes
/// part in no collision.
#[derive(Debug, Clone, Copy, PartialEq, Eq, Structural)]
pub enum TransientHitbox {
    Absent,
    Present,
}

impl TransientHitbox {
    /// Puts the hitbox in place, as an attack begins.
    pub fn spawn(&mut self)
        ensures
            *final(self) == TransientHitbox::Present,
    {
        *self = TransientHitbox::Present;
    }

    /// Removes the hitbox if there is one, whatever its age, and tells
    /// whether there was one to remove.
    pub fn sweep(&mut self) -> (removed: bool)
        ensures
            *final(self) == TransientHitbox::Absent,
            removed == (*old(self) == TransientHitbox::Present),
    {
        let removed = match *self {
            TransientHitbox::Present => true,
            TransientHitbox::Absent => false,
        };
        *self = TransientHitbox::Absent;
        removed
    }
}

} // verus!
