//! The scene contracts: `Painter`, the paint-one-frame capability a
//! materialized scene offers, and `Sandy`, the deferred constructor a scene
//! type offers so the registry can materialize it once a context exists.
//! Both are implemented by scene authors; each impl states its own promises
//! through the trait's spec functions.

use vstd::prelude::*;

use crate::gfx::GraphicsContext;

verus! {

/// A materialized scene: paints one frame at a time against the shared
/// graphics context.  Timing is passed by value each tick, in microseconds,
/// so no scene holds shared mutable timing state.
pub trait Painter: Sized {
    /// How one paint call relates the scene's state after the call to its
    /// state before, for the given context and timing values.
    spec fn painted(
        pre: Self,
        post: Self,
        ctx: GraphicsContext,
        delta_micros: u64,
        time_micros: u64,
    ) -> bool;

    /// Issues one frame's worth of work against the context's presentation
    /// surface and forwards the frame timing.  A scene is only ever painted
    /// under a configured surface: it cannot exist before the first
    /// reconfigure, and painting acquires a presentable frame.
    fn paint(&mut self, context: &GraphicsContext, delta_micros: u64, time_micros: u64)
        requires
            context.is_configured(),
        ensures
            Self::painted(*old(self), *final(self), *context, delta_micros, time_micros),
    ;
}

/// A scene type that can be readied (constructed) from a live graphics
/// context and a scene-specific parameter bundle.  Readying allocates the
/// scene's resources and must not paint.
pub trait Sandy: Sized {
    /// The scene-specific construction parameters.
    type Extra;

    /// What a freshly readied scene looks like, for the given context and
    /// parameter bundle.
    spec fn readied(ctx: GraphicsContext, extra: Self::Extra, scene: Self) -> bool;

    /// Builds the scene.  The surface must already be configured: scene
    /// construction reads the configuration (to size projections or pick a
    /// color-target format).
    fn ready(context: &GraphicsContext, extra: &Self::Extra) -> (scene: Self)
        requires
            context.is_configured(),
        ensures
            Self::readied(*context, *extra, scene),
    ;
}

} // verus!
