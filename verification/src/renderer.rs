//! The fixed instanced-draw renderer.
//!
//! `SimpleRender` owns a CPU-side mirror of the instance list together with a
//! model of the GPU-resident instance buffer. Every frame the renderer
//! unconditionally re-uploads the whole mirror into the buffer and issues a
//! single instanced draw of three vertices per instance over a cleared
//! target; there is no dirty tracking. The actual pipeline, buffer and
//! command-queue handles live in the unverified shell, which replays the
//! returned `FrameSubmission` against them.

use vstd::prelude::*;
use vstd::pervasive::VecAdditionalExecFns;
use crate::angle::{wrap_spec, wrap_angle, TAU_URAD};
use crate::instance::{TriInstance, INSTANCE_COUNT, spec_default_instances, default_instances};

verus! {

/// Red, green and blue of the fixed clear color in millionths (0.1).
pub const CLEAR_RGB_MICRO: i64 = 100_000;

/// Alpha of the fixed clear color in millionths (0).
pub const CLEAR_ALPHA_MICRO: i64 = 0;

/// Abstract renderer state: the surface format the pipeline was built for,
/// the CPU instance mirror, and the contents of the GPU instance buffer.
#[verifier::ext_equal]
pub ghost struct RenderModel {
    pub format: u32,
    pub insts: Seq<TriInstance>,
    pub buf: Seq<TriInstance>,
}

/// One recorded frame: a single render pass that clears the target and
/// issues one instanced draw.
#[derive(Clone, Copy, Debug, PartialEq, Eq, Structural)]
pub struct FrameSubmission {
    /// Vertices per instance (always 3: one triangle).
    pub vertex_count: u32,
    /// Number of instances drawn.
    pub instance_count: u32,
    /// Red, green, blue of the clear color in millionths.
    pub clear_rgb: i64,
    /// Alpha of the clear color in millionths.
    pub clear_alpha: i64,
}

/// The one frame shape this pipeline ever submits.
pub open spec fn spec_submission() -> FrameSubmission {
    FrameSubmission {
        vertex_count: 3,
        instance_count: INSTANCE_COUNT as u32,
        clear_rgb: CLEAR_RGB_MICRO,
        clear_alpha: CLEAR_ALPHA_MICRO,
    }
}

/// The fixed draw pipeline with its instance buffer and CPU mirror.
pub struct SimpleRender {
    /// Texture format token of the color attachment the pipeline targets.
    pub format: u32,
    /// CPU-side instance mirror.
    pub instances: Vec<TriInstance>,
    /// Model of the GPU-resident instance buffer: what the last upload wrote.
    pub buffer: Vec<TriInstance>,
}

impl View for SimpleRender {
    type V = RenderModel;

    open spec fn view(&self) -> RenderModel {
        RenderModel { format: self.format, insts: self.instances@, buf: self.buffer@ }
    }
}

impl SimpleRender {
    /// The CPU mirror always matches the instance count the pipeline and
    /// buffer were built for, and every tracked rotation is normalized.
    pub open spec fn wf(self) -> bool {
        &&& self.instances@.len() == INSTANCE_COUNT
        &&& self.buffer@.len() == INSTANCE_COUNT
        &&& forall|i: int|
            0 <= i < self.instances@.len() ==> (#[trigger] self.instances@[i]).inv()
    }

    /// Build the renderer for a given color format: the four default
    /// instances, and an instance buffer initialized by uploading them.
    pub fn new(format: u32) -> (r: SimpleRender)
        ensures
            r.wf(),
            r@ == (RenderModel {
                format,
                insts: spec_default_instances(),
                buf: spec_default_instances(),
            }),
    {
        let instances = default_instances();
        let buffer = default_instances();
        SimpleRender { format, instances, buffer }
    }

    /// Render one frame: re-upload the entire CPU mirror into the instance
    /// buffer, then record one pass that clears the target and draws three
    /// vertices for each instance. The mirror itself is not changed.
    pub fn render(&mut self) -> (sub: FrameSubmission)
        requires
            old(self).wf(),
        ensures
            final(self).wf(),
            final(self)@ == (RenderModel { buf: old(self)@.insts, ..old(self)@ }),
            sub == spec_submission(),
    {
        let upload = copy_instances(&self.instances);
        self.buffer = upload;
        let n = self.instances.len() as u32;
        FrameSubmission {
            vertex_count: 3,
            instance_count: n,
            clear_rgb: CLEAR_RGB_MICRO,
            clear_alpha: CLEAR_ALPHA_MICRO,
        }
    }

    /// Add a signed angle increment to one instance's rotation and
    /// re-normalize it into `[0, 2*pi)`.
    pub fn add_rotation(&mut self, i: usize, delta_urad: i64)
        requires
            old(self).wf(),
            i < INSTANCE_COUNT,
            i64::MIN < delta_urad <= i64::MAX - TAU_URAD,
        ensures
            final(self).wf(),
            final(self)@ == (RenderModel {
                insts: old(self)@.insts.update(i as int, (TriInstance {
                    rotation: wrap_spec(old(self)@.insts[i as int].rotation + delta_urad) as i64,
                    ..old(self)@.insts[i as int]
                })),
                ..old(self)@
            }),
    {
        let cur = self.instances[i];
        let rot = wrap_angle(cur.rotation + delta_urad);
        self.instances.set(i, TriInstance { rotation: rot, ..cur });
    }

    /// Set one instance's rotation to an already-normalized angle.
    pub fn set_rotation(&mut self, i: usize, rot_urad: i64)
        requires
            old(self).wf(),
            i < INSTANCE_COUNT,
            0 <= rot_urad < TAU_URAD,
        ensures
            final(self).wf(),
            final(self)@ == (RenderModel {
                insts: old(self)@.insts.update(i as int, (TriInstance {
                    rotation: rot_urad,
                    ..old(self)@.insts[i as int]
                })),
                ..old(self)@
            }),
    {
        let cur = self.instances[i];
        self.instances.set(i, TriInstance { rotation: rot_urad, ..cur });
    }
}

/// Element-for-element copy of an instance list, modelling a buffer upload.
fn copy_instances(src: &Vec<TriInstance>) -> (r: Vec<TriInstance>)
    ensures
        r@ == src@,
{
    let mut r: Vec<TriInstance> = Vec::new();
    let mut i: usize = 0;
    while i < src.len()
        invariant
            i <= src.len(),
            r@ == src@.take(i as int),
        decreases
            src.len() - i,
    {
        r.push(src[i]);
        proof {
            assert(r@ =~= src@.take(i as int + 1));
        }
        i = i + 1;
    }
    proof {
        assert(r@ =~= src@);
    }
    r
}

} // verus!
