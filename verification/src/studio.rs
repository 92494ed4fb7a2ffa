//! The scene registry ("Studio"): an ordered list of deferred scene
//! constructors over one graphics context, at most one materialized scene,
//! wraparound selection by index, and a render entry point that forwards
//! frame timing to the current scene.

use std::rc::Rc;

use vstd::arithmetic::div_mod::{
    lemma_add_mod_noop_right, lemma_mod_bound, lemma_mod_equivalence, lemma_mod_twice,
    lemma_small_mod,
};
use vstd::prelude::*;

use crate::gfx::GraphicsContext;
use crate::painter::{Painter, Sandy};

verus! {

/// A type-erased, deferred scene constructor: materializing it against a
/// live graphics context yields a scene.  A registry holds one homogeneous
/// list of factories; heterogeneous scene types stand behind one factory
/// type, typically an enum with one variant per concrete scene.
pub trait SceneFactory: Sized {
    /// The scene type this factory materializes.
    type Scene: Painter;

    /// What the factory promises of every scene it materializes against the
    /// given context.
    spec fn produces(&self, ctx: GraphicsContext, scene: Self::Scene) -> bool;

    /// Invokes the deferred constructor.  The factory itself performs no
    /// fallible work; the surface must be configured, since scene
    /// construction reads the configuration.
    fn materialize(&self, context: &GraphicsContext) -> (scene: Self::Scene)
        requires
            context.is_configured(),
        ensures
            self.produces(*context, scene),
    ;
}

/// The parameter-capture policy of a factory, chosen at registration time by
/// the caller, which knows the concrete parameter type: a plain bundle is
/// captured by value; a bundle the host keeps its own handle to is captured
/// behind a shared-ownership wrapper, so every materialization reads the one
/// shared instance rather than an independent copy.
pub enum Capture<E> {
    ByValue(E),
    Shared(Rc<E>),
}

impl<E> Capture<E> {
    /// The captured parameter bundle, regardless of capture mode.
    pub open spec fn value(self) -> E {
        match self {
            Capture::ByValue(e) => e,
            Capture::Shared(rc) => *rc,
        }
    }

    /// Borrows the captured bundle for one materialization.  No copy of the
    /// bundle is made in either mode.
    pub fn borrow(&self) -> (r: &E)
        ensures
            *r == self.value(),
    {
        match self {
            Capture::ByValue(e) => e,
            Capture::Shared(rc) => &**rc,
        }
    }
}

/// The factory for one concrete scene type: its captured construction
/// parameters, materialized by handing them to the scene's deferred
/// constructor.
pub struct SceneEntry<T: Sandy + Painter> {
    pub capture: Capture<T::Extra>,
}

impl<T: Sandy + Painter> SceneFactory for SceneEntry<T> {
    type Scene = T;

    /// Every scene this entry materializes is readied from the one captured
    /// parameter bundle.
    open spec fn produces(&self, ctx: GraphicsContext, scene: T) -> bool {
        T::readied(ctx, self.capture.value(), scene)
    }

    fn materialize(&self, context: &GraphicsContext) -> (scene: T) {
        T::ready(context, self.capture.borrow())
    }
}

/// The registry: the graphics context it is bound to, the ordered factory
/// list (insertion order is selection order, zero-based), the current
/// materialized scene — at most one — and the index it was selected at.
pub struct Studio<F: SceneFactory> {
    pub context: GraphicsContext,
    pub ready_functions: Vec<F>,
    pub current_scene: Option<F::Scene>,
    pub current_index: usize,
}

impl<F: SceneFactory> Studio<F> {
    /// Well-formedness: a current scene exists only over a non-empty factory
    /// list and a configured surface, and the recorded index stays within
    /// the list.  An empty registry has no current scene and index zero.
    pub open spec fn wf(self) -> bool {
        &&& self.current_scene is Some ==> self.ready_functions@.len() > 0
            && self.context.is_configured()
        &&& self.ready_functions@.len() > 0 ==> self.current_index
            < self.ready_functions@.len()
        &&& self.ready_functions@.len() == 0 ==> self.current_index == 0
            && self.current_scene is None
    }

    /// How one selection step relates a registry state `post` to the state
    /// `pre` it was reached from, for the requested `index`: on an empty
    /// factory list nothing happens; otherwise the index wraps around by
    /// modulo, the factory there materializes the new current scene, and the
    /// list and context are untouched.
    pub open spec fn selected(pre: Self, post: Self, index: int) -> bool {
        &&& post.ready_functions@ == pre.ready_functions@
        &&& post.context == pre.context
        &&& if pre.ready_functions@.len() == 0 {
            post == pre
        } else {
            &&& post.current_index == index % pre.ready_functions@.len() as int
            &&& post.current_scene matches Some(s)
                && pre.ready_functions@[post.current_index as int].produces(pre.context, s)
        }
    }

    /// Binds a fresh registry to one graphics context: no factories, no
    /// current scene.
    pub fn new(context: GraphicsContext) -> (r: Studio<F>)
        ensures
            r.wf(),
            r.context == context,
            r.ready_functions@.len() == 0,
            r.current_scene is None,
            r.current_index == 0,
    {
        Studio { context, ready_functions: Vec::new(), current_scene: None, current_index: 0 }
    }

    /// Appends one factory.  Index assignment is append order: the new
    /// factory gets index `len - 1` of the new list.  Nothing else changes.
    pub fn add_scene(&mut self, factory: F)
        requires
            old(self).wf(),
        ensures
            final(self).wf(),
            final(self).ready_functions@ == old(self).ready_functions@.push(factory),
            final(self).context == old(self).context,
            final(self).current_scene == old(self).current_scene,
            final(self).current_index == old(self).current_index,
    {
        self.ready_functions.push(factory);
    }

    /// Materializes the scene at `index % len` and makes it current,
    /// dropping the previous current scene; with an empty factory list this
    /// is a no-op.  Out-of-range indices are not an error: selection wraps
    /// around, which is what enables cyclic scene navigation.
    pub fn initialize_scene(&mut self, index: usize)
        requires
            old(self).wf(),
            old(self).ready_functions@.len() > 0 ==> old(self).context.is_configured(),
        ensures
            final(self).wf(),
            Self::selected(*old(self), *final(self), index as int),
            old(self).ready_functions@.len() == 0 ==> *final(self) == *old(self),
    {
        let len = self.ready_functions.len();
        if len > 0 {
            let idx = index % len;
            let scene = self.ready_functions[idx].materialize(&self.context);
            self.current_index = idx;
            self.current_scene = Some(scene);
        }
    }

    /// Materializes the scene after the current one, wrapping around at the
    /// end of the list; used for interactive scene cycling.  On an empty
    /// registry this is a no-op and, in particular, never materializes a
    /// scene.
    pub fn advance(&mut self)
        requires
            old(self).wf(),
            old(self).ready_functions@.len() > 0 ==> old(self).context.is_configured(),
        ensures
            final(self).wf(),
            Self::selected(*old(self), *final(self), old(self).current_index + 1),
            old(self).ready_functions@.len() == 0 ==> *final(self) == *old(self),
    {
        let len = self.ready_functions.len();
        assert(len > 0 ==> self.current_index < len);
        let next = self.current_index + 1;
        self.initialize_scene(next);
    }

    /// Paints one frame of the current scene, forwarding the frame timing,
    /// under exclusive access to scene and context; without a current scene
    /// this is a no-op, not an error.  The factory list, the context and the
    /// current index are untouched.
    pub fn render_current_scene(&mut self, delta_micros: u64, time_micros: u64)
        requires
            old(self).wf(),
        ensures
            final(self).wf(),
            final(self).ready_functions@ == old(self).ready_functions@,
            final(self).context == old(self).context,
            final(self).current_index == old(self).current_index,
            old(self).current_scene is None ==> *final(self) == *old(self),
            old(self).current_scene matches Some(pre) ==> final(self).current_scene matches Some(
                post,
            ) && <F::Scene as Painter>::painted(
                pre,
                post,
                old(self).context,
                delta_micros,
                time_micros,
            ),
    {
        let scene_opt = self.current_scene.take();
        match scene_opt {
            Some(mut scene) => {
                scene.paint(&self.context, delta_micros, time_micros);
                self.current_scene = Some(scene);
            }
            None => {},
        }
    }
}

/// A chain of registry states linked by selection steps with consecutive
/// requested indices, the first step requesting `offset`.
pub open spec fn consecutive_selects<F: SceneFactory>(
    states: Seq<Studio<F>>,
    offset: int,
) -> bool {
    forall|t: int|
        0 <= t < states.len() - 1 ==> #[trigger] Studio::selected(
            states[t],
            states[t + 1],
            offset + t,
        )
}

/// Wraparound law: a selection of index `k` and a selection of `k % N` from
/// the same registry record the same current index, and both materialize
/// their scene from the factory entry at that index.
pub proof fn lemma_select_wraparound<F: SceneFactory>(
    pre: Studio<F>,
    post_direct: Studio<F>,
    post_reduced: Studio<F>,
    k: int,
)
    requires
        pre.ready_functions@.len() > 0,
        Studio::selected(pre, post_direct, k),
        Studio::selected(pre, post_reduced, k % pre.ready_functions@.len() as int),
    ensures
        post_direct.current_index == post_reduced.current_index,
        post_direct.current_scene matches Some(s)
            && pre.ready_functions@[post_direct.current_index as int].produces(pre.context, s),
        post_reduced.current_scene matches Some(s)
            && pre.ready_functions@[post_direct.current_index as int].produces(pre.context, s),
{
    lemma_mod_twice(k, pre.ready_functions@.len() as int);
}

/// Cycling law, on indices: starting at any offset, `n` consecutive
/// selections pick `n` pairwise distinct indices, and every index below `n`
/// is picked — at the step `(r - offset) % n` that names it.
pub proof fn lemma_cycle_visits_each_index_once(offset: int, n: int)
    requires
        n > 0,
    ensures
        forall|i: int, j: int|
            #![trigger (offset + i) % n, (offset + j) % n]
            0 <= i < n && 0 <= j < n && i != j ==> (offset + i) % n != (offset + j) % n,
        forall|r: int|
            0 <= r < n ==> 0 <= #[trigger] ((r - offset) % n) < n && (offset + (r - offset) % n)
                % n == r,
{
    assert forall|i: int, j: int|
        #![trigger (offset + i) % n, (offset + j) % n]
        0 <= i < n && 0 <= j < n && i != j implies (offset + i) % n != (offset + j) % n by {
        if (offset + i) % n == (offset + j) % n {
            if i > j {
                lemma_mod_equivalence(offset + i, offset + j, n);
                lemma_small_mod((i - j) as nat, n as nat);
            } else {
                lemma_mod_equivalence(offset + j, offset + i, n);
                lemma_small_mod((j - i) as nat, n as nat);
            }
        }
    };
    assert forall|r: int| 0 <= r < n implies 0 <= #[trigger] ((r - offset) % n) < n && (offset + (r
        - offset) % n) % n == r by {
        lemma_mod_bound(r - offset, n);
        lemma_add_mod_noop_right(offset, r - offset, n);
        lemma_small_mod(r as nat, n as nat);
    };
}

/// Along a chain of selection steps, the factory list and the context never
/// change: selection only replaces the current scene.
proof fn lemma_chain_keeps_list<F: SceneFactory>(states: Seq<Studio<F>>, offset: int, t: int)
    requires
        consecutive_selects(states, offset),
        0 <= t < states.len(),
    ensures
        states[t].ready_functions@ == states[0].ready_functions@,
        states[t].context == states[0].context,
    decreases t,
{
    if t > 0 {
        let prev = t - 1;
        lemma_chain_keeps_list(states, offset, prev);
        assert(Studio::selected(states[prev], states[prev + 1], offset + prev));
    }
}

/// Cycling law: over a registry with `n` factories, `n` selection steps with
/// consecutive requested indices — any starting offset — visit every
/// registered factory exactly once before repeating: step `t` lands on index
/// `(offset + t) % n`, no two steps land on the same index, and every index
/// `r` is landed on, at step `(r - offset) % n`.
pub proof fn lemma_cycle_visits_every_scene<F: SceneFactory>(
    states: Seq<Studio<F>>,
    offset: int,
    n: int,
)
    requires
        n > 0,
        states.len() == n + 1,
        states[0].ready_functions@.len() == n,
        consecutive_selects(states, offset),
    ensures
        forall|t: int| 0 <= t < n ==> #[trigger] states[t + 1].current_index == (offset + t) % n,
        forall|t1: int, t2: int|
            #![trigger states[t1 + 1].current_index, states[t2 + 1].current_index]
            0 <= t1 < n && 0 <= t2 < n && t1 != t2 ==> states[t1 + 1].current_index != states[t2
                + 1].current_index,
        forall|r: int|
            0 <= r < n ==> 0 <= (r - offset) % n < n && #[trigger] states[(r - offset) % n
                + 1].current_index == r,
{
    assert forall|t: int| 0 <= t < n implies #[trigger] states[t + 1].current_index == (offset + t)
        % n by {
        lemma_chain_keeps_list(states, offset, t);
        assert(Studio::selected(states[t], states[t + 1], offset + t));
    };
    lemma_cycle_visits_each_index_once(offset, n);
    assert forall|r: int| 0 <= r < n implies 0 <= (r - offset) % n < n && #[trigger] states[(r
        - offset) % n + 1].current_index == r by {
        let t = (r - offset) % n;
        assert(states[t + 1].current_index == (offset + t) % n);
    };
}

/// Empty-registry law: selecting on a well-formed registry with no
/// factories — and so advancing too, which is a selection — changes nothing
/// and materializes nothing.
pub proof fn lemma_empty_registry_select_noop<F: SceneFactory>(
    pre: Studio<F>,
    post: Studio<F>,
    index: int,
)
    requires
        pre.wf(),
        pre.ready_functions@.len() == 0,
        Studio::selected(pre, post, index),
    ensures
        post == pre,
        post.current_scene is None,
{
}

/// Single-current law: a selection step preserves well-formedness; since
/// the current-scene slot is a single option, after any sequence of
/// selections and advances a well-formed registry holds exactly zero or one
/// materialized scene, at an index within the factory list.
pub proof fn lemma_selected_preserves_wf<F: SceneFactory>(
    pre: Studio<F>,
    post: Studio<F>,
    index: int,
)
    requires
        pre.wf(),
        pre.ready_functions@.len() > 0 ==> pre.context.is_configured(),
        Studio::selected(pre, post, index),
    ensures
        post.wf(),
{
    if pre.ready_functions@.len() > 0 {
        lemma_mod_bound(index, pre.ready_functions@.len() as int);
    }
}

/// Re-registration law: a registry repopulated with an equal factory list
/// over an equal context — as after a resize — selects, for the same
/// requested index, the same current index as before, and both current
/// scenes are produced by that same factory entry: the same rendering
/// contract, fresh resources.
pub proof fn lemma_repopulation_equivalent<F: SceneFactory>(
    pre_before: Studio<F>,
    post_before: Studio<F>,
    pre_after: Studio<F>,
    post_after: Studio<F>,
    index: int,
)
    requires
        pre_before.ready_functions@ == pre_after.ready_functions@,
        pre_before.context == pre_after.context,
        pre_before.ready_functions@.len() > 0,
        Studio::selected(pre_before, post_before, index),
        Studio::selected(pre_after, post_after, index),
    ensures
        post_before.current_index == post_after.current_index,
        post_before.current_scene matches Some(s)
            && pre_before.ready_functions@[post_before.current_index as int].produces(
            pre_before.context,
            s,
        ),
        post_after.current_scene matches Some(s)
            && pre_before.ready_functions@[post_before.current_index as int].produces(
            pre_before.context,
            s,
        ),
{
}

/// Capture-mode law: one factory entry owns one captured parameter bundle,
/// in either capture mode, and every scene it materializes is readied from
/// that same bundle — repeated materializations across repeated selections
/// never see independent copies of a shared capture.
pub proof fn lemma_capture_stable<T: Sandy + Painter>(
    entry: SceneEntry<T>,
    ctx: GraphicsContext,
    first: T,
    second: T,
)
    requires
        entry.produces(ctx, first),
        entry.produces(ctx, second),
    ensures
        T::readied(ctx, entry.capture.value(), first),
        T::readied(ctx, entry.capture.value(), second),
{
}

} // verus!
