use vstd::prelude::*;

verus! {

/// Identity of a concrete event target (a DOM node, the window, ...).
#[derive(Clone, Copy, Debug, PartialEq, Eq, Structural)]
pub struct TargetId(pub u64);

impl TargetId {
    /// The global window, the target used when no other is configured.
    pub fn window() -> (r: TargetId)
        ensures
            r == TargetId(0),
    {
        TargetId(0)
    }
}

/// Flags handed to the host when a listener is registered.
#[derive(Clone, Copy, Debug, PartialEq, Eq, Structural)]
pub struct ListenerOptions {
    /// The handler never cancels the native event.
    pub passive: bool,
    /// The listener runs in the capture phase.
    pub capture: bool,
}

impl ListenerOptions {
    /// The host's defaults: neither passive nor capturing.
    pub fn new() -> (r: ListenerOptions)
        ensures
            r == (ListenerOptions { passive: false, capture: false }),
    {
        ListenerOptions { passive: false, capture: false }
    }

    /// Sets the passive flag, keeping the others.
    pub fn passive(self, passive: bool) -> (r: ListenerOptions)
        ensures
            r == (ListenerOptions { passive, ..self }),
    {
        ListenerOptions { passive, ..self }
    }
}

/// What the host has to do on the native event system.
#[derive(Clone, Copy, Debug, PartialEq, Eq, Structural)]
pub enum ListenerAction {
    /// Add the handler to this target with these options.
    Register(TargetId, ListenerOptions),
    /// Remove the handler from this target.
    Unregister(TargetId),
}

/// The set of targets on which the handler is registered after `actions`
/// are carried out, in order, starting from `active`.
pub open spec fn apply_actions(active: Set<TargetId>, actions: Seq<ListenerAction>) -> Set<TargetId>
    decreases actions.len(),
{
    if actions.len() == 0 {
        active
    } else {
        let next = match actions[0] {
            ListenerAction::Register(t, _) => active.insert(t),
            ListenerAction::Unregister(t) => active.remove(t),
        };
        apply_actions(next, actions.drop_first())
    }
}

/// The registrations that a binding whose cleanup slot holds `slot` has live.
pub open spec fn registrations(slot: Option<TargetId>) -> Set<TargetId> {
    match slot {
        Some(t) => set![t],
        None => Set::empty(),
    }
}

/// Registering on the target that is resolved, if any.
pub open spec fn register_actions(target: Option<TargetId>, options: ListenerOptions) -> Seq<
    ListenerAction,
> {
    match target {
        Some(t) => seq![ListenerAction::Register(t, options)],
        None => Seq::empty(),
    }
}

/// Running the cleanup action stored in the slot.
pub open spec fn cleanup_actions(slot: Option<TargetId>) -> Seq<ListenerAction> {
    match slot {
        Some(t) => seq![ListenerAction::Unregister(t)],
        None => Seq::empty(),
    }
}

/// One logical subscription of a handler to an event on a target that may
/// change over time. The cleanup slot holds the target that the live
/// registration was made on, if any: running the cleanup unregisters there.
pub struct EventListenerBinding {
    slot: Option<TargetId>,
    options: ListenerOptions,
}

impl View for EventListenerBinding {
    type V = Option<TargetId>;

    closed spec fn view(&self) -> Option<TargetId> {
        self.slot
    }
}

impl EventListenerBinding {
    /// The listener options fixed when the subscription was made.
    pub closed spec fn spec_options(&self) -> ListenerOptions {
        self.options
    }

    pub fn options(&self) -> (r: ListenerOptions)
        ensures
            r == self.spec_options(),
    {
        self.options
    }

    /// The target whose registration is live, if any.
    pub fn current_target(&self) -> (r: Option<TargetId>)
        ensures
            r == self@,
    {
        self.slot
    }

    /// Builds the action list for an optional target.
    fn register_on(target: Option<TargetId>, options: ListenerOptions) -> (r: Vec<ListenerAction>)
        ensures
            r@ == register_actions(target, options),
    {
        let mut v: Vec<ListenerAction> = Vec::new();
        if let Some(t) = target {
            v.push(ListenerAction::Register(t, options));
        }
        proof {
            assert(v@ =~= register_actions(target, options));
        }
        v
    }

    /// Runs the stored cleanup and leaves a no-op cleanup in the slot.
    fn take_cleanup(&mut self) -> (r: Vec<ListenerAction>)
        ensures
            r@ == cleanup_actions(old(self)@),
            final(self)@ == None::<TargetId>,
            final(self).spec_options() == old(self).spec_options(),
    {
        let mut v: Vec<ListenerAction> = Vec::new();
        if let Some(t) = self.slot {
            v.push(ListenerAction::Unregister(t));
        }
        self.slot = None;
        proof {
            assert(v@ =~= cleanup_actions(old(self)@));
        }
        v
    }

    /// The target has been resolved anew (it changed identity): the stored
    /// cleanup runs first, then the handler is registered on the new target,
    /// if there is one, and the slot now captures that target.
    pub fn on_target_change(&mut self, target: Option<TargetId>) -> (r: Vec<ListenerAction>)
        ensures
            r@ == cleanup_actions(old(self)@) + register_actions(target, old(self).spec_options()),
            final(self)@ == target,
            final(self).spec_options() == old(self).spec_options(),
    {
        let mut actions = self.take_cleanup();
        let mut reg = Self::register_on(target, self.options);
        actions.append(&mut reg);
        self.slot = target;
        actions
    }

    /// The returned unsubscribe callable: removes the live registration.
    /// Calling it again has no further effect.
    pub fn unsubscribe(&mut self) -> (r: Vec<ListenerAction>)
        ensures
            r@ == cleanup_actions(old(self)@),
            final(self)@ == None::<TargetId>,
            final(self).spec_options() == old(self).spec_options(),
    {
        self.take_cleanup()
    }

    /// The owning scope is torn down: the stored cleanup runs once.
    pub fn dispose(self) -> (r: Vec<ListenerAction>)
        ensures
            r@ == cleanup_actions(self@),
    {
        let mut b = self;
        b.take_cleanup()
    }
}

/// Subscribes with the host's default listener options.
pub fn use_event_listener(target: Option<TargetId>) -> (r: (EventListenerBinding, Vec<ListenerAction>))
    ensures
        r.0@ == target,
        r.0.spec_options() == (ListenerOptions { passive: false, capture: false }),
        r.1@ == register_actions(target, (ListenerOptions { passive: false, capture: false })),
{
    use_event_listener_with_options(target, ListenerOptions::new())
}

/// Subscribes a handler on the target resolved now, if any, with the given
/// options. Returns the binding, whose slot captures that target, and the
/// registration to perform.
pub fn use_event_listener_with_options(target: Option<TargetId>, options: ListenerOptions) -> (r: (
    EventListenerBinding,
    Vec<ListenerAction>,
))
    ensures
        r.0@ == target,
        r.0.spec_options() == options,
        r.1@ == register_actions(target, options),
{
    let actions = EventListenerBinding::register_on(target, options);
    (EventListenerBinding { slot: target, options }, actions)
}

proof fn lemma_apply_one(active: Set<TargetId>, a: ListenerAction)
    ensures
        apply_actions(active, seq![a]) == match a {
            ListenerAction::Register(t, _) => active.insert(t),
            ListenerAction::Unregister(t) => active.remove(t),
        },
{
    let next = match a {
        ListenerAction::Register(t, _) => active.insert(t),
        ListenerAction::Unregister(t) => active.remove(t),
    };
    assert(seq![a].drop_first() =~= Seq::<ListenerAction>::empty());
    assert(apply_actions(next, Seq::<ListenerAction>::empty()) == next);
}

/// Running the cleanup of a binding removes every registration it had live:
/// tearing down the owning scope, or calling the unsubscribe callable, leaves
/// no native registration behind.
pub proof fn lemma_cleanup_leaves_no_registration(slot: Option<TargetId>)
    ensures
        apply_actions(registrations(slot), cleanup_actions(slot)) == Set::<TargetId>::empty(),
{
    match slot {
        Some(t) => {
            lemma_apply_one(set![t], ListenerAction::Unregister(t));
            assert(set![t].remove(t) =~= Set::<TargetId>::empty());
        },
        None => {},
    }
}

/// Subscribing and then unsubscribing at once leaves no native registration.
pub proof fn lemma_bind_then_unsubscribe(target: Option<TargetId>, options: ListenerOptions)
    ensures
        apply_actions(
            apply_actions(Set::empty(), register_actions(target, options)),
            cleanup_actions(target),
        ) == Set::<TargetId>::empty(),
{
    match target {
        Some(t) => {
            lemma_apply_one(Set::empty(), ListenerAction::Register(t, options));
            assert(Set::<TargetId>::empty().insert(t) =~= set![t]);
        },
        None => {},
    }
    lemma_cleanup_leaves_no_registration(target);
}

/// Whatever the slot held and whatever the new target is, a target change
/// leaves exactly the registrations of the new slot live: at most one.
pub proof fn lemma_target_change_keeps_one_registration(
    slot: Option<TargetId>,
    target: Option<TargetId>,
    options: ListenerOptions,
)
    ensures
        apply_actions(registrations(slot), cleanup_actions(slot) + register_actions(target, options))
            == registrations(target),
{
    let cleaned = apply_actions(registrations(slot), cleanup_actions(slot));
    lemma_cleanup_leaves_no_registration(slot);
    lemma_apply_concat(registrations(slot), cleanup_actions(slot), register_actions(target, options));
    match target {
        Some(t) => {
            lemma_apply_one(cleaned, ListenerAction::Register(t, options));
            assert(Set::<TargetId>::empty().insert(t) =~= set![t]);
        },
        None => {},
    }
}

proof fn lemma_apply_concat(active: Set<TargetId>, a: Seq<ListenerAction>, b: Seq<ListenerAction>)
    ensures
        apply_actions(active, a + b) == apply_actions(apply_actions(active, a), b),
    decreases a.len(),
{
    if a.len() == 0 {
        assert(a + b =~= b);
    } else {
        let next = match a[0] {
            ListenerAction::Register(t, _) => active.insert(t),
            ListenerAction::Unregister(t) => active.remove(t),
        };
        assert((a + b).drop_first() =~= a.drop_first() + b);
        lemma_apply_concat(next, a.drop_first(), b);
    }
}

/// Moving from one target to another is one unregistration of the old target
/// followed by one registration on the new one. The old registration is gone
/// before the new one is made, so the two are never live together, and
/// afterwards exactly the new one is.
pub proof fn lemma_target_change_swaps_registration(
    old_target: TargetId,
    new_target: TargetId,
    options: ListenerOptions,
)
    ensures
        cleanup_actions(Some(old_target)) + register_actions(Some(new_target), options) == seq![
            ListenerAction::Unregister(old_target),
            ListenerAction::Register(new_target, options),
        ],
        apply_actions(set![old_target], seq![ListenerAction::Unregister(old_target)])
            == Set::<TargetId>::empty(),
        apply_actions(
            set![old_target],
            seq![
                ListenerAction::Unregister(old_target),
                ListenerAction::Register(new_target, options),
            ],
        ) == set![new_target],
{
    let actions = seq![
        ListenerAction::Unregister(old_target),
        ListenerAction::Register(new_target, options),
    ];
    assert(cleanup_actions(Some(old_target)) + register_actions(Some(new_target), options) =~= actions);
    lemma_cleanup_leaves_no_registration(Some(old_target));
    lemma_target_change_keeps_one_registration(Some(old_target), Some(new_target), options);
}

} // verus!
