//! Identities of the things in the scene.

use vstd::prelude::*;

verus! {

/// Names one entity of the scene: a clip, a camera, a mesh, a layer.
#[derive(Clone, Copy, Debug, PartialEq, Eq, Structural)]
pub struct EntityId {
    pub index: usize,
}

} // verus!
