//! The editor camera, as the scene observes it: its projection parameters
//! and the time it has been advanced by. Projection-matrix construction
//! belongs to the rendering backend; the scene only owns the parameters.

use vstd::prelude::*;
use crate::fixed::FX_ONE;

verus! {

/// Aspect ratio of a viewport in fixed point: width over height, rounded
/// toward zero.
pub open spec fn aspect_spec(width: int, height: int) -> int {
    (width * (FX_ONE as int)) / height
}

/// An editor camera: vertical field of view in fixed-point degrees, aspect
/// ratio, near and far clip planes, and accumulated time.
#[derive(Clone, Copy, Debug, PartialEq, Eq, Structural)]
pub struct EditorCamera {
    pub FOV: i64,
    pub Aspect: i64,
    pub NearClip: i64,
    pub FarClip: i64,
    pub Time: i64,
}

/// The camera after being advanced by an elapsed timestep: accumulated time
/// grows, saturating at the top of the range; nothing else moves.
pub open spec fn advanced_spec(c: EditorCamera, ts: int) -> EditorCamera {
    EditorCamera {
        Time: if c.Time + ts <= i64::MAX as int {
            (c.Time + ts) as i64
        } else {
            i64::MAX
        },
        ..c
    }
}

impl EditorCamera {
    /// A camera with the given projection parameters and no time elapsed.
    pub fn Create(fov: i64, aspectRatio: i64, nearClip: i64, farClip: i64) -> (r: EditorCamera)
        ensures
            r == (EditorCamera {
                FOV: fov,
                Aspect: aspectRatio,
                NearClip: nearClip,
                FarClip: farClip,
                Time: 0,
            }),
    {
        EditorCamera { FOV: fov, Aspect: aspectRatio, NearClip: nearClip, FarClip: farClip, Time: 0 }
    }

    /// Advances the camera by an elapsed timestep.
    pub fn OnUpdate(&mut self, ts: i64)
        requires
            ts >= 0,
        ensures
            *final(self) == advanced_spec(*old(self), ts as int),
    {
        if self.Time <= i64::MAX - ts {
            self.Time = self.Time + ts;
        } else {
            self.Time = i64::MAX;
        }
    }

    /// Recomputes the projection for a new viewport size.
    pub fn SetViewportSize(&mut self, viewportWidth: u32, viewportHeight: u32)
        requires
            viewportHeight >= 1,
        ensures
            *final(self) == (EditorCamera {
                Aspect: aspect_spec(viewportWidth as int, viewportHeight as int) as i64,
                ..*old(self)
            }),
            final(self).Aspect as int == aspect_spec(viewportWidth as int, viewportHeight as int),
    {
        let a: u64 = ((viewportWidth as u64) * 65536) / (viewportHeight as u64);
        self.Aspect = a as i64;
    }

    /// The current aspect ratio.
    pub fn GetAspectRatio(&self) -> (r: i64)
        ensures
            r == self.Aspect,
    {
        self.Aspect
    }
}

} // verus!
