use vstd::prelude::*;

use crate::descriptors::Size2;
use crate::gpu::{Device, DeviceTextureView, Queue};
use crate::surface::SurfaceConfiguration;

verus! {

/// The entrypoint interface a hosted application implements.
///
/// The host's runtime drives it: `init` runs once at startup against the
/// configured surface; the remaining hooks are event-driven, with do-nothing
/// defaults, so an application implements only what it needs.
pub trait App {
    /// Called once at startup; any initialization happens here.
    fn init(config: &SurfaceConfiguration, device: &Device, queue: &Queue) -> Self where
        Self: Sized;

    /// Called whenever the window or canvas is resized; size-dependent
    /// resources are rebuilt here.
    fn on_resize(&mut self, _new_size: Size2, _device: &Device, _queue: &Queue) where
        Self: Sized,
    {
    }

    /// Called once per update cycle.
    fn on_update(&mut self) where Self: Sized {
    }

    /// Called once per render cycle with the frame's target view.
    fn on_render(&mut self, _target_view: &DeviceTextureView, _device: &Device, _queue: &Queue)
        where Self: Sized
    {
    }
}

} // verus!
