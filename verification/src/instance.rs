//! The per-draw-call render unit.
//!
//! The harness draws exactly four instances, arranged in a 2-by-2 grid, each
//! independently rotatable. All continuous fields are carried in millionths
//! of their natural unit: positions in micro-units of clip space, rotations
//! in microradians, scales in millionths.

use vstd::prelude::*;
use crate::angle::TAU_URAD;

verus! {

/// The fixed number of instances; changing it would require rebuilding both
/// the GPU buffer and the pipeline, which is out of scope.
pub const INSTANCE_COUNT: usize = 4;

/// A scale factor of one in millionths.
pub const SCALE_ONE: i64 = 1_000_000;

/// Horizontal and vertical offset of each grid cell from the center, in
/// micro-units of clip space (0.35).
pub const GRID_OFFSET: i64 = 350_000;

/// One render unit: one of the four per-draw-call records consumed by the
/// instanced draw.
#[derive(Clone, Copy, Debug, PartialEq, Eq, Structural)]
pub struct TriInstance {
    /// Horizontal center position in micro-units of clip space.
    pub position_x: i64,
    /// Vertical center position in micro-units of clip space.
    pub position_y: i64,
    /// Rotation in microradians, kept normalized to `[0, TAU_URAD)`.
    pub rotation: i64,
    /// Scale factor in millionths.
    pub scale: i64,
}

impl TriInstance {
    /// A tracked rotation always lies in `[0, 2*pi)`.
    pub open spec fn inv(self) -> bool {
        0 <= self.rotation < TAU_URAD
    }
}

/// One grid cell with rotation zero and scale one.
pub open spec fn spec_grid_instance(x: int, y: int) -> TriInstance {
    TriInstance { position_x: x as i64, position_y: y as i64, rotation: 0, scale: SCALE_ONE }
}

/// The four default instances: a 2-by-2 grid, row-major from the top left.
pub open spec fn spec_default_instances() -> Seq<TriInstance> {
    seq![
        spec_grid_instance(-(GRID_OFFSET as int), GRID_OFFSET as int),
        spec_grid_instance(GRID_OFFSET as int, GRID_OFFSET as int),
        spec_grid_instance(-(GRID_OFFSET as int), -(GRID_OFFSET as int)),
        spec_grid_instance(GRID_OFFSET as int, -(GRID_OFFSET as int)),
    ]
}

/// Build the default instance list.
pub fn default_instances() -> (r: Vec<TriInstance>)
    ensures
        r@ == spec_default_instances(),
        r@.len() == INSTANCE_COUNT,
{
    let mut r: Vec<TriInstance> = Vec::new();
    r.push(TriInstance { position_x: -GRID_OFFSET, position_y: GRID_OFFSET, rotation: 0, scale: SCALE_ONE });
    r.push(TriInstance { position_x: GRID_OFFSET, position_y: GRID_OFFSET, rotation: 0, scale: SCALE_ONE });
    r.push(TriInstance { position_x: -GRID_OFFSET, position_y: -GRID_OFFSET, rotation: 0, scale: SCALE_ONE });
    r.push(TriInstance { position_x: GRID_OFFSET, position_y: -GRID_OFFSET, rotation: 0, scale: SCALE_ONE });
    proof {
        assert(r@ =~= spec_default_instances());
    }
    r
}

} // verus!
