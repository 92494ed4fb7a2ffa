//! Registry behavior, observed through test doubles: wraparound selection,
//! empty-registry safety, the single-current-scene discipline with its drop
//! order, repopulation, shared parameter capture, and the end-to-end
//! select/advance/render scenario.

use std::cell::RefCell;
use std::rc::Rc;

use scene_studio::gfx::{GraphicsContext, TextureFormat};
use scene_studio::painter::{Painter, Sandy};
use scene_studio::studio::{Capture, SceneEntry, SceneFactory, Studio};

/// Shared observation log for the doubles: which factory tags were
/// materialized, which scenes were dropped, and which frames were painted.
#[derive(Default)]
struct Log {
    materialized: RefCell<Vec<u32>>,
    dropped: RefCell<Vec<u32>>,
    painted: RefCell<Vec<(u32, u64, u64)>>,
}

/// A scene double that records each paint and its own destruction.
struct TagScene {
    tag: u32,
    log: Rc<Log>,
}

impl Painter for TagScene {
    // contract hook; never consulted at runtime
    fn painted(_: TagScene, _: TagScene, _: GraphicsContext, _: u64, _: u64) -> bool {
        true
    }

    fn paint(&mut self, _context: &GraphicsContext, delta_micros: u64, time_micros: u64) {
        self.log.painted.borrow_mut().push((self.tag, delta_micros, time_micros));
    }
}

impl Drop for TagScene {
    fn drop(&mut self) {
        self.log.dropped.borrow_mut().push(self.tag);
    }
}

/// A factory double that records each materialization.
struct TagFactory {
    tag: u32,
    log: Rc<Log>,
}

impl SceneFactory for TagFactory {
    type Scene = TagScene;

    // contract hook; never consulted at runtime
    fn produces(&self, _: GraphicsContext, _: TagScene) -> bool {
        true
    }

    fn materialize(&self, _context: &GraphicsContext) -> TagScene {
        self.log.materialized.borrow_mut().push(self.tag);
        TagScene { tag: self.tag, log: self.log.clone() }
    }
}

fn configured_context() -> GraphicsContext {
    let mut ctx = GraphicsContext::new();
    ctx.reconfigure(256, 256, TextureFormat::Bgra8Unorm);
    ctx
}

fn tagged_studio(n: u32, log: &Rc<Log>) -> Studio<TagFactory> {
    let mut studio = Studio::new(configured_context());
    for tag in 0..n {
        studio.add_scene(TagFactory { tag, log: log.clone() });
    }
    studio
}

fn current_tag(studio: &Studio<TagFactory>) -> u32 {
    studio.current_scene.as_ref().expect("a current scene").tag
}

#[test]
fn end_to_end_cycle() {
    let log = Rc::new(Log::default());
    let mut studio = tagged_studio(3, &log);
    studio.initialize_scene(0);
    assert_eq!(current_tag(&studio), 0);
    assert_eq!(studio.current_index, 0);
    studio.advance();
    assert_eq!(current_tag(&studio), 1);
    studio.advance();
    assert_eq!(current_tag(&studio), 2);
    studio.advance();
    assert_eq!(current_tag(&studio), 0);
    studio.initialize_scene(5);
    assert_eq!(current_tag(&studio), 2);
    assert_eq!(studio.current_index, 2);
    studio.render_current_scene(16_000, 1_000_000);
    assert_eq!(*log.painted.borrow(), vec![(2, 16_000, 1_000_000)]);
}

#[test]
fn select_wraps_around() {
    let log = Rc::new(Log::default());
    let mut studio = tagged_studio(4, &log);
    studio.initialize_scene(7);
    let direct = current_tag(&studio);
    studio.initialize_scene(7 % 4);
    assert_eq!(current_tag(&studio), direct);
    assert_eq!(direct, 3);
    studio.initialize_scene(400);
    assert_eq!(current_tag(&studio), 0);
}

#[test]
fn consecutive_selects_visit_every_scene_once() {
    let log = Rc::new(Log::default());
    let mut studio = tagged_studio(4, &log);
    log.materialized.borrow_mut().clear();
    for k in 2..6 {
        studio.initialize_scene(k);
    }
    let mut seen = log.materialized.borrow().clone();
    assert_eq!(seen, vec![2, 3, 0, 1]);
    seen.sort();
    assert_eq!(seen, vec![0, 1, 2, 3]);
}

#[test]
fn empty_registry_is_safe() {
    let log = Rc::new(Log::default());
    let mut studio: Studio<TagFactory> = Studio::new(GraphicsContext::new());
    studio.initialize_scene(3);
    studio.advance();
    studio.render_current_scene(16_000, 32_000);
    assert!(studio.current_scene.is_none());
    assert_eq!(studio.current_index, 0);
    assert!(log.materialized.borrow().is_empty());
    assert!(log.painted.borrow().is_empty());
}

#[test]
fn previous_scene_released_when_replaced() {
    let log = Rc::new(Log::default());
    let mut studio = tagged_studio(3, &log);
    studio.initialize_scene(0);
    assert!(log.dropped.borrow().is_empty());
    studio.initialize_scene(1);
    // the replaced scene is released at the moment the new one becomes
    // current, never later
    assert_eq!(*log.dropped.borrow(), vec![0]);
    assert_eq!(*log.materialized.borrow(), vec![0, 1]);
    studio.advance();
    assert_eq!(*log.dropped.borrow(), vec![0, 1]);
    drop(studio);
    assert_eq!(*log.dropped.borrow(), vec![0, 1, 2]);
}

#[test]
fn at_most_one_scene_is_ever_live() {
    let log = Rc::new(Log::default());
    let mut studio = tagged_studio(3, &log);
    studio.initialize_scene(0);
    for k in [2usize, 2, 1, 0, 5, 4] {
        studio.initialize_scene(k);
        let made = log.materialized.borrow().len();
        let gone = log.dropped.borrow().len();
        // every materialization but the live one has been released
        assert_eq!(made - 1, gone);
        assert!(studio.current_scene.is_some());
    }
}

#[test]
fn repopulation_reaches_the_same_scene() {
    let log = Rc::new(Log::default());
    let mut studio = tagged_studio(3, &log);
    studio.initialize_scene(1);
    let before = current_tag(&studio);
    let made_before = log.materialized.borrow().len();
    // a resize discards the registry and repopulates the same factory list
    let mut studio = tagged_studio(3, &log);
    studio.initialize_scene(1);
    assert_eq!(current_tag(&studio), before);
    assert_eq!(studio.current_index, 1);
    // the scene is equivalent but fresh: it was materialized anew
    assert_eq!(log.materialized.borrow().len(), made_before + 1);
}

/// A scene double built from a shared host counter; painting bumps the
/// counter through the capture.
struct CounterScene {
    counter: Rc<RefCell<u32>>,
}

impl Sandy for CounterScene {
    type Extra = Rc<RefCell<u32>>;

    // contract hook; never consulted at runtime
    fn readied(_: GraphicsContext, _: Rc<RefCell<u32>>, _: CounterScene) -> bool {
        true
    }

    fn ready(_context: &GraphicsContext, extra: &Rc<RefCell<u32>>) -> CounterScene {
        CounterScene { counter: extra.clone() }
    }
}

impl Painter for CounterScene {
    // contract hook; never consulted at runtime
    fn painted(_: CounterScene, _: CounterScene, _: GraphicsContext, _: u64, _: u64) -> bool {
        true
    }

    fn paint(&mut self, _context: &GraphicsContext, _delta_micros: u64, _time_micros: u64) {
        *self.counter.borrow_mut() += 1;
    }
}

#[test]
fn shared_capture_is_one_instance() {
    let host_counter: Rc<RefCell<u32>> = Rc::new(RefCell::new(0));
    let other_counter: Rc<RefCell<u32>> = Rc::new(RefCell::new(0));
    let mut studio: Studio<SceneEntry<CounterScene>> = Studio::new(configured_context());
    studio.add_scene(SceneEntry { capture: Capture::Shared(Rc::new(host_counter.clone())) });
    studio.add_scene(SceneEntry { capture: Capture::ByValue(other_counter.clone()) });

    studio.initialize_scene(0);
    studio.render_current_scene(16_000, 16_000);
    assert_eq!(*host_counter.borrow(), 1);

    // switch away and back: the rematerialized scene still reaches the
    // host's own counter, not an independent copy of it
    studio.initialize_scene(1);
    studio.render_current_scene(16_000, 32_000);
    studio.initialize_scene(0);
    studio.render_current_scene(16_000, 48_000);
    assert_eq!(*host_counter.borrow(), 2);
    assert_eq!(*other_counter.borrow(), 1);

    let scene = studio.current_scene.as_ref().expect("a current scene");
    assert!(Rc::ptr_eq(&scene.counter, &host_counter));
}

#[test]
fn registration_order_is_selection_order() {
    let log = Rc::new(Log::default());
    let mut studio = tagged_studio(0, &log);
    for tag in [10u32, 20, 30] {
        studio.add_scene(TagFactory { tag, log: log.clone() });
    }
    studio.initialize_scene(0);
    assert_eq!(current_tag(&studio), 10);
    studio.initialize_scene(1);
    assert_eq!(current_tag(&studio), 20);
    studio.initialize_scene(2);
    assert_eq!(current_tag(&studio), 30);
}

#[test]
fn advance_before_any_selection_starts_from_index_zero() {
    let log = Rc::new(Log::default());
    let mut studio = tagged_studio(3, &log);
    // no scene has been selected yet, so the tracked index is zero and
    // advancing lands on index one
    studio.advance();
    assert_eq!(current_tag(&studio), 1);
    assert_eq!(studio.current_index, 1);
}

#[test]
fn registration_after_selection_is_permitted() {
    let log = Rc::new(Log::default());
    let mut studio = tagged_studio(2, &log);
    studio.initialize_scene(1);
    studio.add_scene(TagFactory { tag: 2, log: log.clone() });
    // the current scene is untouched by the registration
    assert_eq!(current_tag(&studio), 1);
    studio.initialize_scene(2);
    assert_eq!(current_tag(&studio), 2);
}

#[test]
fn render_without_current_scene_is_a_no_op() {
    let log = Rc::new(Log::default());
    let mut studio = tagged_studio(2, &log);
    studio.render_current_scene(16_000, 16_000);
    assert!(log.painted.borrow().is_empty());
    assert!(studio.current_scene.is_none());
}
