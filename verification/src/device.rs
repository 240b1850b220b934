//! GPU device and surface lifecycle.
//!
//! `RenderContext` models the device layer: a backend instance created once
//! at startup, and an adapter, logical device and command queue that are
//! populated together, exactly once, when the first surface is created
//! (all-or-nothing transition from `Uninitialized` to `Ready`). The opaque
//! backend handles themselves live in the unverified shell; this module owns
//! the decisions: the single-device policy, the first-offered-format
//! selection, and the surface configuration that must be (re-)applied to the
//! live surface whenever size or present mode changes.

use vstd::prelude::*;

verus! {

/// Number of frames the presentation engine may queue ahead.
pub const FRAME_LATENCY: u32 = 2;

/// Lifecycle of the device layer: the adapter, device and queue are either
/// all absent or all present.
#[derive(Clone, Copy, Debug, PartialEq, Eq, Structural)]
pub enum DevicePhase {
    Uninitialized,
    Ready,
}

/// Swap-chain timing policy, mirroring the presentation modes the backend
/// offers.
#[derive(Clone, Copy, Debug, PartialEq, Eq, Structural)]
pub enum PresentMode {
    AutoVsync,
    AutoNoVsync,
    Fifo,
    FifoRelaxed,
    Immediate,
    Mailbox,
}

/// The sole error kind in scope: no adapter, device or usable surface format
/// could be negotiated. The failure is unrecoverable for the process — no
/// retry and no fallback adapter selection is attempted.
#[derive(Clone, Copy, Debug, PartialEq, Eq, Structural)]
pub enum InitError {
    Fatal,
}

/// Configuration applied to a presentable surface. The usage is always
/// render-attachment, the alpha mode is backend-chosen, and no extra view
/// formats are registered, so none of those are carried here.
#[derive(Clone, Copy, Debug, PartialEq, Eq, Structural)]
pub struct SurfaceConfig {
    /// Texture format token: the first format offered by the surface's
    /// capability query.
    pub format: u32,
    /// Surface width in pixels.
    pub width: u32,
    /// Surface height in pixels.
    pub height: u32,
    /// Swap-chain timing policy.
    pub present_mode: PresentMode,
    /// Maximum number of queued frames.
    pub frame_latency: u32,
}

/// The configuration a fresh surface receives.
pub open spec fn spec_surface_config(
    format: u32,
    width: u32,
    height: u32,
    present_mode: PresentMode,
) -> SurfaceConfig {
    SurfaceConfig { format, width, height, present_mode, frame_latency: FRAME_LATENCY }
}

/// A per-window presentable target: its stored configuration and the format
/// its frames use. One per window; its lifetime cannot exceed the owning
/// `RenderContext`.
#[derive(Clone, Copy, Debug, PartialEq, Eq, Structural)]
pub struct RenderSurface {
    /// The configuration last applied to the live surface.
    pub config: SurfaceConfig,
    /// The selected texture format, also recorded in `config`.
    pub format: u32,
}

impl RenderSurface {
    /// The convenience copy of the format always matches the configuration.
    pub open spec fn inv(self) -> bool {
        self.format == self.config.format
    }
}

/// The device layer: lifecycle state of the backend instance, adapter,
/// device and queue.
pub struct RenderContext {
    pub phase: DevicePhase,
}

impl RenderContext {
    /// Create the device layer. Only the backend instance exists at this
    /// point; picking the backend enumeration policy is the shell's job and
    /// has no device-level side effects.
    pub fn new() -> (r: RenderContext)
        ensures
            r.phase is Uninitialized,
    {
        RenderContext { phase: DevicePhase::Uninitialized }
    }

    /// Negotiate the first surface. `formats` reports the outcome of the
    /// shell's adapter and device negotiation against this surface: `None`
    /// when no compatible adapter or device was obtainable, otherwise the
    /// format list from the surface's capability query for the negotiated
    /// adapter, in the backend's preference order.
    ///
    /// On success the device layer becomes `Ready` (adapter, device and
    /// queue populated together) and the surface carries the first offered
    /// format with its initial configuration, which the shell must apply
    /// before presenting. On failure nothing is populated; the failure is
    /// fatal for the process. A second surface is not supported: the call
    /// consumes the one `Uninitialized` state.
    pub fn create_surface(
        &mut self,
        formats: Option<Vec<u32>>,
        width: u32,
        height: u32,
        present_mode: PresentMode,
    ) -> (r: Result<RenderSurface, InitError>)
        requires
            old(self).phase is Uninitialized,
        ensures
            r is Ok <==> (formats matches Some(f) && f@.len() > 0),
            match r {
                Ok(s) => {
                    &&& final(self).phase is Ready
                    &&& s.inv()
                    &&& s.format == formats.unwrap()@[0]
                    &&& s.config == spec_surface_config(
                        formats.unwrap()@[0],
                        width,
                        height,
                        present_mode,
                    )
                },
                Err(e) => {
                    &&& final(self).phase is Uninitialized
                    &&& e is Fatal
                },
            },
    {
        match formats {
            Option::Some(f) => {
                if f.len() > 0 {
                    let format = f[0];
                    self.phase = DevicePhase::Ready;
                    Result::Ok(RenderSurface {
                        config: SurfaceConfig {
                            format,
                            width,
                            height,
                            present_mode,
                            frame_latency: FRAME_LATENCY,
                        },
                        format,
                    })
                } else {
                    Result::Err(InitError::Fatal)
                }
            },
            Option::None => Result::Err(InitError::Fatal),
        }
    }

    /// Update a surface's stored configuration for a new size or present
    /// mode. The shell must re-apply the returned configuration to the live
    /// surface; omitting that leaves a stale configuration and subsequent
    /// frame acquisition fails.
    pub fn reconfigure(
        &self,
        surface: &mut RenderSurface,
        width: u32,
        height: u32,
        present_mode: PresentMode,
    )
        requires
            self.phase is Ready,
            old(surface).inv(),
        ensures
            final(surface).inv(),
            final(surface).format == old(surface).format,
            final(surface).config == spec_surface_config(
                old(surface).config.format,
                width,
                height,
                present_mode,
            ),
    {
        surface.config = SurfaceConfig {
            format: surface.config.format,
            width,
            height,
            present_mode,
            frame_latency: FRAME_LATENCY,
        };
    }
}

} // verus!
