//! What the host installs to make reflective surfaces work.

use vstd::prelude::*;

verus! {

/// A behaviour that runs once per tick.
#[derive(Clone, Copy, Debug, PartialEq, Eq, Structural)]
pub enum Behaviour {
    /// Builds a surface that has just appeared.
    SurfaceBuilder,
    /// Moves the auxiliary cameras with the viewer.
    CameraSynchronizer,
    /// Resizes the render targets with the output.
    ResizeReactor,
}

/// The registration entry point.
#[derive(Clone, Copy, Debug, PartialEq, Eq, Structural)]
pub struct RefractiveMaterialPlugin;

impl RefractiveMaterialPlugin {
    /// The behaviours to put on the host's per-tick schedule, in the order in
    /// which a tick runs them, one after the other: a surface is built, or
    /// its build deferred, before the cameras are synchronized, so that the
    /// synchronizer reads the clip plane of a camera that the same tick
    /// spawned; size changes are handled last.
    pub fn build(&self) -> (r: Vec<Behaviour>)
        ensures
            r@ == seq![
                Behaviour::SurfaceBuilder,
                Behaviour::CameraSynchronizer,
                Behaviour::ResizeReactor,
            ],
    {
        let mut r: Vec<Behaviour> = Vec::new();
        r.push(Behaviour::SurfaceBuilder);
        r.push(Behaviour::CameraSynchronizer);
        r.push(Behaviour::ResizeReactor);
        assert(r@ =~= seq![
            Behaviour::SurfaceBuilder,
            Behaviour::CameraSynchronizer,
            Behaviour::ResizeReactor,
        ]);
        r
    }
}

} // verus!
