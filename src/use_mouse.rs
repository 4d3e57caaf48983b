use vstd::prelude::*;

use crate::use_event_listener::{
    register_actions, use_event_listener_with_options, EventListenerBinding, ListenerAction,
    ListenerOptions, TargetId,
};

verus! {

/// A point, in whole CSS pixels.
#[derive(Clone, Copy, Debug, PartialEq, Eq, Structural)]
pub struct Position {
    pub x: i32,
    pub y: i32,
}

/// The coordinates that a mouse (or drag) event carries.
#[derive(Clone, Copy, Debug, PartialEq, Eq, Structural)]
pub struct MouseEventData {
    pub page_x: i32,
    pub page_y: i32,
    pub client_x: i32,
    pub client_y: i32,
    pub screen_x: i32,
    pub screen_y: i32,
    pub movement_x: i32,
    pub movement_y: i32,
}

/// The coordinates of one touch point.
#[derive(Clone, Copy, Debug, PartialEq, Eq, Structural)]
pub struct TouchData {
    pub page_x: i32,
    pub page_y: i32,
    pub client_x: i32,
    pub client_y: i32,
    pub screen_x: i32,
    pub screen_y: i32,
}

/// The events the tracker can listen to.
#[derive(Clone, Copy, Debug, PartialEq, Eq, Structural)]
pub enum MouseEventKind {
    MouseMove,
    DragOver,
    TouchStart,
    TouchMove,
    TouchEnd,
}

/// An event delivered to the tracker, with what its handler reads.
#[derive(Clone, Debug)]
pub enum PointerEvent {
    MouseMove(MouseEventData),
    DragOver(MouseEventData),
    /// The touches currently on the surface, first one first.
    TouchStart(Vec<TouchData>),
    TouchMove(Vec<TouchData>),
    TouchEnd,
}

/// Identifies the source of the reported coordinates.
#[derive(Clone, Copy, Debug, PartialEq, Eq, Structural)]
pub enum UseMouseSourceType {
    /// Coordinates come from mouse movement.
    Mouse,
    /// Coordinates come from touch.
    Touch,
    /// No event has been recorded yet.
    Unset,
}

/// Maps events to coordinates. Implement it to read positions in a way of
/// your own and hand it to the tracker as `UseMouseCoordType::Custom`;
/// `None` means that the event carries no position to report.
pub trait UseMouseEventExtractor {
    /// What `extract_mouse_coords` returns for an event.
    spec fn mouse_coords(&self, event: MouseEventData) -> Option<(i32, i32)>;

    /// What `extract_touch_coords` returns for a touch.
    spec fn touch_coords(&self, touch: TouchData) -> Option<(i32, i32)>;

    /// The coordinates of a mouse event, if any.
    fn extract_mouse_coords(&self, event: &MouseEventData) -> (r: Option<(i32, i32)>)
        ensures
            r == self.mouse_coords(*event),
    ;

    /// The coordinates of a touch, if any.
    fn extract_touch_coords(&self, touch: &TouchData) -> (r: Option<(i32, i32)>)
        ensures
            r == self.touch_coords(*touch),
    ;
}

/// The extractor that reports nothing; the type parameter of the built-in
/// strategies when no custom one is given.
#[derive(Clone, Copy, Debug)]
pub struct UseMouseEventExtractorDefault;

impl UseMouseEventExtractor for UseMouseEventExtractorDefault {
    open spec fn mouse_coords(&self, event: MouseEventData) -> Option<(i32, i32)> {
        None
    }

    open spec fn touch_coords(&self, touch: TouchData) -> Option<(i32, i32)> {
        None
    }

    fn extract_mouse_coords(&self, event: &MouseEventData) -> (r: Option<(i32, i32)>) {
        None
    }

    fn extract_touch_coords(&self, touch: &TouchData) -> (r: Option<(i32, i32)>) {
        None
    }
}

/// Defines how to get the coordinates from the event.
#[derive(Clone, Copy, Debug)]
pub enum UseMouseCoordType<E> {
    /// Coordinates relative to the whole document.
    Page,
    /// Coordinates relative to the viewport.
    Client,
    /// Coordinates relative to the screen, both of them.
    Screen,
    /// Deltas since the last mouse event; touches have none.
    Movement,
    /// Coordinates read by an extractor of the caller's own.
    Custom(E),
}

impl UseMouseCoordType<UseMouseEventExtractorDefault> {
    /// Page coordinates, the default strategy.
    pub fn default() -> (r: Self)
        ensures
            r is Page,
    {
        UseMouseCoordType::Page
    }
}

impl<E: UseMouseEventExtractor> UseMouseEventExtractor for UseMouseCoordType<E> {
    open spec fn mouse_coords(&self, event: MouseEventData) -> Option<(i32, i32)> {
        match self {
            UseMouseCoordType::Page => Some((event.page_x, event.page_y)),
            UseMouseCoordType::Client => Some((event.client_x, event.client_y)),
            UseMouseCoordType::Screen => Some((event.screen_x, event.screen_y)),
            UseMouseCoordType::Movement => Some((event.movement_x, event.movement_y)),
            UseMouseCoordType::Custom(e) => e.mouse_coords(event),
        }
    }

    open spec fn touch_coords(&self, touch: TouchData) -> Option<(i32, i32)> {
        match self {
            UseMouseCoordType::Page => Some((touch.page_x, touch.page_y)),
            UseMouseCoordType::Client => Some((touch.client_x, touch.client_y)),
            UseMouseCoordType::Screen => Some((touch.screen_x, touch.screen_y)),
            UseMouseCoordType::Movement => None,
            UseMouseCoordType::Custom(e) => e.touch_coords(touch),
        }
    }

    fn extract_mouse_coords(&self, event: &MouseEventData) -> (r: Option<(i32, i32)>) {
        match self {
            UseMouseCoordType::Page => Some((event.page_x, event.page_y)),
            UseMouseCoordType::Client => Some((event.client_x, event.client_y)),
            UseMouseCoordType::Screen => Some((event.screen_x, event.screen_y)),
            UseMouseCoordType::Movement => Some((event.movement_x, event.movement_y)),
            UseMouseCoordType::Custom(e) => e.extract_mouse_coords(event),
        }
    }

    fn extract_touch_coords(&self, touch: &TouchData) -> (r: Option<(i32, i32)>) {
        match self {
            UseMouseCoordType::Page => Some((touch.page_x, touch.page_y)),
            UseMouseCoordType::Client => Some((touch.client_x, touch.client_y)),
            UseMouseCoordType::Screen => Some((touch.screen_x, touch.screen_y)),
            UseMouseCoordType::Movement => None,
            UseMouseCoordType::Custom(e) => e.extract_touch_coords(touch),
        }
    }
}

/// Options of the mouse tracker.
#[derive(Clone, Copy, Debug)]
pub struct UseMouseOptions<E> {
    /// How to extract the x, y coordinates from mouse events or touches.
    pub coord_type: UseMouseCoordType<E>,
    /// The target whose events are listened to.
    pub target: TargetId,
    /// Listen to touch events.
    pub touch: bool,
    /// Reset to the initial value when a touch ends.
    pub reset_on_touch_ends: bool,
    /// The coordinates reported before any event.
    pub initial_value: Position,
}

impl UseMouseOptions<UseMouseEventExtractorDefault> {
    /// Page coordinates on the window, touch on, no reset, starting at (0, 0).
    pub fn default() -> (r: Self)
        ensures
            r.coord_type is Page,
            r.target == TargetId(0),
            r.touch,
            !r.reset_on_touch_ends,
            r.initial_value == (Position { x: 0, y: 0 }),
    {
        UseMouseOptions {
            coord_type: UseMouseCoordType::default(),
            target: TargetId::window(),
            touch: true,
            reset_on_touch_ends: false,
            initial_value: Position { x: 0, y: 0 },
        }
    }
}

impl<E> UseMouseOptions<E> {
    /// Replaces the extraction strategy.
    pub fn coord_type<F>(self, coord_type: UseMouseCoordType<F>) -> (r: UseMouseOptions<F>)
        ensures
            r.coord_type == coord_type,
            r.target == self.target,
            r.touch == self.touch,
            r.reset_on_touch_ends == self.reset_on_touch_ends,
            r.initial_value == self.initial_value,
    {
        UseMouseOptions {
            coord_type,
            target: self.target,
            touch: self.touch,
            reset_on_touch_ends: self.reset_on_touch_ends,
            initial_value: self.initial_value,
        }
    }

    /// Replaces the target.
    pub fn target(self, target: TargetId) -> (r: Self)
        ensures
            r == (UseMouseOptions { target, ..self }),
    {
        UseMouseOptions { target, ..self }
    }

    /// Turns touch tracking on or off.
    pub fn touch(self, touch: bool) -> (r: Self)
        ensures
            r == (UseMouseOptions { touch, ..self }),
    {
        UseMouseOptions { touch, ..self }
    }

    /// Turns the reset at the end of a touch on or off.
    pub fn reset_on_touch_ends(self, reset_on_touch_ends: bool) -> (r: Self)
        ensures
            r == (UseMouseOptions { reset_on_touch_ends, ..self }),
    {
        UseMouseOptions { reset_on_touch_ends, ..self }
    }

    /// Replaces the initial value.
    pub fn initial_value(self, initial_value: Position) -> (r: Self)
        ensures
            r == (UseMouseOptions { initial_value, ..self }),
    {
        UseMouseOptions { initial_value, ..self }
    }
}

/// What the tracker reports: the latest coordinates and where they came from.
#[derive(Clone, Copy, Debug, PartialEq, Eq, Structural)]
pub struct UseMouseReturn {
    /// X coordinate of the mouse pointer / touch.
    pub x: i32,
    /// Y coordinate of the mouse pointer / touch.
    pub y: i32,
    /// Identifies the source of the reported coordinates.
    pub source_type: UseMouseSourceType,
}

/// Whether touch events are listened to at all: movement deltas mean nothing
/// for a touch point.
pub open spec fn listens_to_touch<E>(options: UseMouseOptions<E>) -> bool {
    options.touch && !(options.coord_type is Movement)
}

/// Whether the tracker with these options listens to events of this kind.
pub open spec fn listens<E>(options: UseMouseOptions<E>, kind: MouseEventKind) -> bool {
    match kind {
        MouseEventKind::MouseMove => true,
        MouseEventKind::DragOver => true,
        MouseEventKind::TouchStart => listens_to_touch(options),
        MouseEventKind::TouchMove => listens_to_touch(options),
        MouseEventKind::TouchEnd => listens_to_touch(options) && options.reset_on_touch_ends,
    }
}

/// The kinds listened to, in the order the listeners are registered.
pub open spec fn listened_kinds<E>(options: UseMouseOptions<E>) -> Seq<MouseEventKind> {
    seq![MouseEventKind::MouseMove, MouseEventKind::DragOver] + if listens_to_touch(options) {
        seq![MouseEventKind::TouchStart, MouseEventKind::TouchMove] + if options.reset_on_touch_ends {
            seq![MouseEventKind::TouchEnd]
        } else {
            Seq::empty()
        }
    } else {
        Seq::empty()
    }
}

/// The kind of an event.
pub open spec fn kind_of(event: PointerEvent) -> MouseEventKind {
    match event {
        PointerEvent::MouseMove(_) => MouseEventKind::MouseMove,
        PointerEvent::DragOver(_) => MouseEventKind::DragOver,
        PointerEvent::TouchStart(_) => MouseEventKind::TouchStart,
        PointerEvent::TouchMove(_) => MouseEventKind::TouchMove,
        PointerEvent::TouchEnd => MouseEventKind::TouchEnd,
    }
}

/// The state after coordinates `coords` were read from a source: unchanged
/// when there are none.
pub open spec fn with_coords(
    state: UseMouseReturn,
    coords: Option<(i32, i32)>,
    source_type: UseMouseSourceType,
) -> UseMouseReturn {
    match coords {
        Some((x, y)) => UseMouseReturn { x, y, source_type },
        None => state,
    }
}

/// The state after a mouse event.
pub open spec fn after_mouse<E: UseMouseEventExtractor>(
    options: UseMouseOptions<E>,
    state: UseMouseReturn,
    event: MouseEventData,
) -> UseMouseReturn {
    with_coords(state, options.coord_type.mouse_coords(event), UseMouseSourceType::Mouse)
}

/// The state after a touch event: the first touch is read, if there is one.
pub open spec fn after_touch<E: UseMouseEventExtractor>(
    options: UseMouseOptions<E>,
    state: UseMouseReturn,
    touches: Seq<TouchData>,
) -> UseMouseReturn {
    if touches.len() == 0 {
        state
    } else {
        with_coords(state, options.coord_type.touch_coords(touches[0]), UseMouseSourceType::Touch)
    }
}

/// The state after the tracker's target delivered `event`. Events of a kind
/// that is not listened to never reach a handler.
pub open spec fn next_state<E: UseMouseEventExtractor>(
    options: UseMouseOptions<E>,
    state: UseMouseReturn,
    event: PointerEvent,
) -> UseMouseReturn {
    if !listens(options, kind_of(event)) {
        state
    } else {
        match event {
            PointerEvent::MouseMove(e) => after_mouse(options, state, e),
            PointerEvent::DragOver(e) => after_mouse(options, state, e),
            PointerEvent::TouchStart(ts) => after_touch(options, state, ts@),
            PointerEvent::TouchMove(ts) => after_touch(options, state, ts@),
            PointerEvent::TouchEnd => UseMouseReturn {
                x: options.initial_value.x,
                y: options.initial_value.y,
                source_type: state.source_type,
            },
        }
    }
}

/// Reactive mouse position: the options and the state that the handlers of
/// the registered listeners update.
pub struct UseMouseTracker<E> {
    options: UseMouseOptions<E>,
    state: UseMouseReturn,
}

impl<E: UseMouseEventExtractor> UseMouseTracker<E> {
    pub closed spec fn spec_options(&self) -> UseMouseOptions<E> {
        self.options
    }

    pub closed spec fn spec_state(&self) -> UseMouseReturn {
        self.state
    }

    /// The options the tracker was made with.
    pub fn options(&self) -> (r: &UseMouseOptions<E>)
        ensures
            *r == self.spec_options(),
    {
        &self.options
    }

    /// The coordinates and source reported now.
    pub fn state(&self) -> (r: UseMouseReturn)
        ensures
            r == self.spec_state(),
    {
        self.state
    }

    /// Overrides x. This does not move the pointer.
    pub fn set_x(&mut self, x: i32)
        ensures
            final(self).spec_state() == (UseMouseReturn { x, ..old(self).spec_state() }),
            final(self).spec_options() == old(self).spec_options(),
    {
        self.state.x = x;
    }

    /// Overrides y. This does not move the pointer.
    pub fn set_y(&mut self, y: i32)
        ensures
            final(self).spec_state() == (UseMouseReturn { y, ..old(self).spec_state() }),
            final(self).spec_options() == old(self).spec_options(),
    {
        self.state.y = y;
    }

    /// Whether touch events are listened to.
    fn touch_listened(&self) -> (r: bool)
        ensures
            r == listens_to_touch(self.spec_options()),
    {
        self.options.touch && !matches!(self.options.coord_type, UseMouseCoordType::Movement)
    }

    /// The event kinds to register a listener for, in order.
    pub fn listened_events(&self) -> (r: Vec<MouseEventKind>)
        ensures
            r@ == listened_kinds(self.spec_options()),
            forall|k: MouseEventKind| r@.contains(k) <==> listens(self.spec_options(), k),
    {
        let mut v: Vec<MouseEventKind> = Vec::new();
        v.push(MouseEventKind::MouseMove);
        v.push(MouseEventKind::DragOver);
        if self.touch_listened() {
            v.push(MouseEventKind::TouchStart);
            v.push(MouseEventKind::TouchMove);
            if self.options.reset_on_touch_ends {
                v.push(MouseEventKind::TouchEnd);
            }
        }
        proof {
            assert(v@ =~= listened_kinds(self.spec_options()));
            assert forall|k: MouseEventKind| v@.contains(k) <==> listens(self.spec_options(), k) by {
                if listens(self.spec_options(), k) {
                    match k {
                        MouseEventKind::MouseMove => assert(v@[0] == k),
                        MouseEventKind::DragOver => assert(v@[1] == k),
                        MouseEventKind::TouchStart => assert(v@[2] == k),
                        MouseEventKind::TouchMove => assert(v@[3] == k),
                        MouseEventKind::TouchEnd => assert(v@[4] == k),
                    }
                }
            }
        }
        v
    }

    /// Subscribes a passive listener on the target for each kind listened
    /// to, in order: the binding of each and the registration to perform.
    pub fn bind_listeners(&self) -> (r: Vec<(MouseEventKind, EventListenerBinding, Vec<ListenerAction>)>)
        ensures
            r@.len() == listened_kinds(self.spec_options()).len(),
            forall|i: int|
                0 <= i < r@.len() ==> {
                    &&& r@[i].0 == listened_kinds(self.spec_options())[i]
                    &&& r@[i].1@ == Some(self.spec_options().target)
                    &&& r@[i].1.spec_options() == (ListenerOptions { passive: true, capture: false })
                    &&& r@[i].2@ == register_actions(
                        Some(self.spec_options().target),
                        ListenerOptions { passive: true, capture: false },
                    )
                },
    {
        let kinds = self.listened_events();
        let options = mouse_listener_options();
        let mut r: Vec<(MouseEventKind, EventListenerBinding, Vec<ListenerAction>)> = Vec::new();
        let mut i: usize = 0;
        while i < kinds.len()
            invariant
                i <= kinds@.len(),
                kinds@ == listened_kinds(self.spec_options()),
                options == (ListenerOptions { passive: true, capture: false }),
                r@.len() == i,
                forall|j: int|
                    0 <= j < i ==> {
                        &&& r@[j].0 == kinds@[j]
                        &&& r@[j].1@ == Some(self.spec_options().target)
                        &&& r@[j].1.spec_options() == options
                        &&& r@[j].2@ == register_actions(Some(self.spec_options().target), options)
                    },
            decreases kinds@.len() - i,
        {
            let (binding, actions) = use_event_listener_with_options(Some(self.options.target), options);
            r.push((kinds[i], binding, actions));
            i = i + 1;
        }
        r
    }

    /// The handler of a mouse or drag event.
    fn on_mouse(&mut self, event: &MouseEventData)
        ensures
            final(self).spec_state() == after_mouse(old(self).spec_options(), old(self).spec_state(), *event),
            final(self).spec_options() == old(self).spec_options(),
    {
        if let Some((x, y)) = self.options.coord_type.extract_mouse_coords(event) {
            self.state = UseMouseReturn { x, y, source_type: UseMouseSourceType::Mouse };
        }
    }

    /// The handler of a touch start or move.
    fn on_touch(&mut self, touches: &Vec<TouchData>)
        ensures
            final(self).spec_state() == after_touch(old(self).spec_options(), old(self).spec_state(), touches@),
            final(self).spec_options() == old(self).spec_options(),
    {
        if touches.len() > 0 {
            if let Some((x, y)) = self.options.coord_type.extract_touch_coords(&touches[0]) {
                self.state = UseMouseReturn { x, y, source_type: UseMouseSourceType::Touch };
            }
        }
    }

    /// Delivers an event from the target to the listener registered for its
    /// kind, if there is one.
    pub fn handle_event(&mut self, event: &PointerEvent)
        ensures
            final(self).spec_state() == next_state(old(self).spec_options(), old(self).spec_state(), *event),
            final(self).spec_options() == old(self).spec_options(),
    {
        match event {
            PointerEvent::MouseMove(e) => self.on_mouse(e),
            PointerEvent::DragOver(e) => self.on_mouse(e),
            PointerEvent::TouchStart(ts) => {
                if self.touch_listened() {
                    self.on_touch(ts);
                }
            },
            PointerEvent::TouchMove(ts) => {
                if self.touch_listened() {
                    self.on_touch(ts);
                }
            },
            PointerEvent::TouchEnd => {
                if self.touch_listened() && self.options.reset_on_touch_ends {
                    self.state.x = self.options.initial_value.x;
                    self.state.y = self.options.initial_value.y;
                }
            },
        }
    }
}

/// The listener options of every listener of the tracker: passive, so that a
/// handler never blocks the native event.
pub fn mouse_listener_options() -> (r: ListenerOptions)
    ensures
        r == (ListenerOptions { passive: true, capture: false }),
{
    ListenerOptions::new().passive(true)
}

/// Mouse tracker with the default options.
pub fn use_mouse() -> (r: UseMouseTracker<UseMouseEventExtractorDefault>)
    ensures
        r.spec_options().coord_type is Page,
        r.spec_options().target == TargetId(0),
        r.spec_options().touch,
        !r.spec_options().reset_on_touch_ends,
        r.spec_options().initial_value == (Position { x: 0, y: 0 }),
        r.spec_state() == (UseMouseReturn { x: 0, y: 0, source_type: UseMouseSourceType::Unset }),
{
    use_mouse_with_options(UseMouseOptions::default())
}

/// Mouse tracker with the given options: it reports the initial value, with
/// no source, until an event arrives.
pub fn use_mouse_with_options<E: UseMouseEventExtractor>(options: UseMouseOptions<E>) -> (r:
    UseMouseTracker<E>)
    ensures
        r.spec_options() == options,
        r.spec_state() == (UseMouseReturn {
            x: options.initial_value.x,
            y: options.initial_value.y,
            source_type: UseMouseSourceType::Unset,
        }),
{
    let state = UseMouseReturn {
        x: options.initial_value.x,
        y: options.initial_value.y,
        source_type: UseMouseSourceType::Unset,
    };
    UseMouseTracker { options, state }
}

/// With touch tracking off, a touch start changes nothing.
pub proof fn lemma_touch_off_ignores_touch_start<E: UseMouseEventExtractor>(
    options: UseMouseOptions<E>,
    state: UseMouseReturn,
    touches: Vec<TouchData>,
)
    requires
        !options.touch,
    ensures
        next_state(options, state, PointerEvent::TouchStart(touches)) == state,
{
}

/// With the reset at the end of a touch on (and touch events listened to),
/// the end of a touch brings the coordinates back to the initial value and
/// keeps the source.
pub proof fn lemma_touch_end_resets<E: UseMouseEventExtractor>(
    options: UseMouseOptions<E>,
    state: UseMouseReturn,
)
    requires
        options.reset_on_touch_ends,
        options.touch,
        !(options.coord_type is Movement),
    ensures
        next_state(options, state, PointerEvent::TouchEnd) == (UseMouseReturn {
            x: options.initial_value.x,
            y: options.initial_value.y,
            source_type: state.source_type,
        }),
{
}

/// With movement deltas as the strategy, no touch event changes the state.
pub proof fn lemma_movement_ignores_touch<E: UseMouseEventExtractor>(
    options: UseMouseOptions<E>,
    state: UseMouseReturn,
    event: PointerEvent,
)
    requires
        options.coord_type is Movement,
        event is TouchStart || event is TouchMove || event is TouchEnd,
    ensures
        next_state(options, state, event) == state,
{
}


/// Once an event has set the source, no later event brings it back to unset.
pub proof fn lemma_source_stays_set<E: UseMouseEventExtractor>(
    options: UseMouseOptions<E>,
    state: UseMouseReturn,
    event: PointerEvent,
)
    requires
        !(state.source_type is Unset),
    ensures
        !(next_state(options, state, event).source_type is Unset),
{
}

} // verus!
