//! Capability shared by every entity that presents a sprite: pushing the
//! logical animation frame out to the presented one, so the drawn frame can
//! never drift from the simulated state for longer than one explicit sync.

use vstd::prelude::*;

verus! {

/// An entity whose presented animation frame is a cached copy of its logical
/// one; `reload_sprite` re-syncs the cache.
pub trait SpriteUser {
    fn reload_sprite(&mut self);
}

} // verus!
