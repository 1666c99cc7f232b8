use vstd::prelude::*;

use crate::common::{ComponentId, Rect};
use crate::layout::{
    lemma_add_noop, lemma_remove_noop, lemma_set_noop, spec_add, spec_areas, spec_components,
    spec_draws, spec_get, spec_remove, spec_set, DrawCommand, Layout,
};
use crate::request::LayoutRequest;

verus! {

/// The wire label under which a component's allocated rectangle is
/// published.
pub open spec fn allocated_label_spec() -> Seq<char> {
    "!layout-allocated-rect"@
}

/// The wire label under which a component signals that it has finished
/// rendering into its most recently assigned rectangle.
pub open spec fn confirm_label_spec() -> Seq<char> {
    "!layout-render-confirm"@
}

/// The wire tag under which readiness is announced once at startup.
pub open spec fn ready_tag_spec() -> Seq<char> {
    "!layout-ready"@
}

pub fn allocated_label() -> (r: String)
    ensures
        r@ == allocated_label_spec(),
{
    "!layout-allocated-rect".to_owned()
}

pub fn confirm_label() -> (r: String)
    ensures
        r@ == confirm_label_spec(),
{
    "!layout-render-confirm".to_owned()
}

pub fn ready_tag() -> (r: String)
    ensures
        r@ == ready_tag_spec(),
{
    "!layout-ready".to_owned()
}

/// One event handed in from the canvas host, already reduced to the
/// values the protocol reads. `Focused` carries the terminal size
/// queried on regaining focus; `Other` stands for any event the
/// protocol neither interprets nor acknowledges.
pub enum HostEvent {
    Request { request: LayoutRequest },
    Focused { width: u32, height: u32 },
    Resize { width: u32, height: u32 },
    ValueUpdated { label: String, component: ComponentId },
    Other,
}

/// One host call the control loop must perform, in list order.
#[derive(Clone, Copy, Debug, PartialEq, Eq, Structural)]
pub enum Action {
    /// Register to receive render confirmations from `component`.
    Watch { component: ComponentId },
    /// Reset the draw buffer before redrawing borders.
    ClearAll,
    /// Draw one border cell.
    Draw { command: DrawCommand },
    /// Flush the draw buffer.
    RenderAll,
    /// Publish `rect` to `component` under the allocated-rect label.
    Publish { component: ComponentId, rect: Rect },
    /// Acknowledge the triggering event named by `token`: its pass has
    /// fully settled.
    Ack { token: u64 },
    /// Drop the event named by `token` without acknowledgment.
    Discard { token: u64 },
}

/// The component a confirmation event confirms, if the event is one.
pub open spec fn confirm_of(e: HostEvent) -> Option<ComponentId> {
    match e {
        HostEvent::ValueUpdated { label, component } => if label@ == confirm_label_spec() {
            Some(component)
        } else {
            None
        },
        _ => None,
    }
}

/// `s` with the first occurrence of `c` removed, if any.
pub open spec fn remove_first(s: Seq<ComponentId>, c: ComponentId) -> Seq<ComponentId>
    decreases s.len(),
{
    if s.len() == 0 {
        s
    } else if s[0] == c {
        s.skip(1)
    } else {
        seq![s[0]] + remove_first(s.skip(1), c)
    }
}

/// `s` with every repeated element dropped, keeping first occurrences
/// in order.
pub open spec fn spec_dedup(s: Seq<ComponentId>) -> Seq<ComponentId>
    decreases s.len(),
{
    if s.len() == 0 {
        Seq::empty()
    } else {
        let pre = spec_dedup(s.drop_last());
        if pre.contains(s.last()) {
            pre
        } else {
            pre.push(s.last())
        }
    }
}

/// The screen rectangle of a terminal of the given size.
pub open spec fn screen_rect(width: u32, height: u32) -> Rect {
    Rect { x: 0, y: 0, width, height }
}

/// The components that receive a rectangle when `t` is drawn into the
/// screen, in publication order, repeats included.
pub open spec fn area_components(t: Layout, width: u32, height: u32) -> Seq<ComponentId> {
    spec_areas(t, screen_rect(width, height)).map_values(|p: (Rect, ComponentId)| p.1)
}

pub open spec fn watch_actions(cs: Seq<ComponentId>) -> Seq<Action> {
    cs.map_values(|c: ComponentId| Action::Watch { component: c })
}

pub open spec fn draw_actions(cmds: Seq<DrawCommand>) -> Seq<Action> {
    cmds.map_values(|c: DrawCommand| Action::Draw { command: c })
}

pub open spec fn publish_actions(entries: Seq<(Rect, ComponentId)>) -> Seq<Action> {
    entries.map_values(|p: (Rect, ComponentId)| Action::Publish { component: p.1, rect: p.0 })
}

/// The host calls of one reconciliation pass over tree `t`: reset the
/// draw buffer, draw every border cell, flush, publish every rectangle;
/// when no component is owed a confirmation, acknowledge the triggering
/// event at once.
pub open spec fn recompute_actions(t: Layout, width: u32, height: u32, token: u64) -> Seq<
    Action,
> {
    let base = seq![Action::ClearAll] + draw_actions(spec_draws(t, screen_rect(width, height)))
        + seq![Action::RenderAll] + publish_actions(spec_areas(t, screen_rect(width, height)));
    if spec_dedup(area_components(t, width, height)).len() == 0 {
        base + seq![Action::Ack { token }]
    } else {
        base
    }
}

/// The ghost image of a `Reconciler`: the same fields with the vectors
/// abstracted to sequences.
#[verifier::ext_equal]
pub struct ReconcilerView {
    pub layout: Layout,
    pub width: u32,
    pub height: u32,
    pub deferred: Seq<(u64, HostEvent)>,
    pub unconfirmed: Seq<ComponentId>,
    pub waiting: Option<u64>,
}

/// The state after a reconciliation pass installed tree `t`: every
/// component that received a rectangle is owed a confirmation, and the
/// triggering event stays open until all have confirmed.
pub open spec fn post_recompute(v: ReconcilerView, t: Layout, token: u64) -> ReconcilerView {
    let un = spec_dedup(area_components(t, v.width, v.height));
    ReconcilerView {
        layout: t,
        width: v.width,
        height: v.height,
        deferred: v.deferred,
        unconfirmed: un,
        waiting: if un.len() == 0 {
            None
        } else {
            Some(token)
        },
    }
}

/// The transition taken while a confirmation wait is open: a matching
/// confirmation strikes its component off `unconfirmed` and, when the
/// last one arrives, acknowledges the event that opened the wait; any
/// confirmation is consumed; every other event is appended to the
/// deferral queue untouched.
pub open spec fn spec_step_waiting(v: ReconcilerView, ack: u64, token: u64, e: HostEvent) -> (
    ReconcilerView,
    Seq<Action>,
) {
    match confirm_of(e) {
        Some(c) => {
            let found = v.unconfirmed.contains(c);
            let un = remove_first(v.unconfirmed, c);
            if found && un.len() == 0 {
                (
                    ReconcilerView {
                        layout: v.layout,
                        width: v.width,
                        height: v.height,
                        deferred: v.deferred,
                        unconfirmed: un,
                        waiting: None,
                    },
                    seq![Action::Ack { token: ack }, Action::Discard { token }],
                )
            } else {
                (
                    ReconcilerView {
                        layout: v.layout,
                        width: v.width,
                        height: v.height,
                        deferred: v.deferred,
                        unconfirmed: un,
                        waiting: v.waiting,
                    },
                    seq![Action::Discard { token }],
                )
            }
        },
        None => (
            ReconcilerView {
                layout: v.layout,
                width: v.width,
                height: v.height,
                deferred: v.deferred.push((token, e)),
                unconfirmed: v.unconfirmed,
                waiting: v.waiting,
            },
            Seq::empty(),
        ),
    }
}

/// The outcome of one structural request: the tree mutated, and when
/// anything changed, a reconciliation pass (watch registrations first,
/// then the pass). A request whose path fails changes nothing and is
/// dropped unacknowledged. A removal registers watches for every
/// component of the doomed subtree before the tree changes.
pub open spec fn spec_apply_request(v: ReconcilerView, token: u64, request: LayoutRequest) -> (
    ReconcilerView,
    Seq<Action>,
) {
    match request {
        LayoutRequest::Add {
            at,
            split,
            constraint_1,
            constraint_2,
            component,
            border,
        } => {
            let r = spec_add(v.layout, at@, split, constraint_1, constraint_2, component, border);
            if r.1 {
                let watches = match component {
                    Some(c) => seq![Action::Watch { component: c }],
                    None => Seq::<Action>::empty(),
                };
                (
                    post_recompute(v, r.0, token),
                    watches + recompute_actions(r.0, v.width, v.height, token),
                )
            } else {
                (v, seq![Action::Discard { token }])
            }
        },
        LayoutRequest::Remove { at } => match spec_get(v.layout, at@) {
            Some(sub) => {
                let watches = watch_actions(spec_components(sub));
                let r = spec_remove(v.layout, at@);
                if r.1 {
                    (
                        post_recompute(v, r.0, token),
                        watches + recompute_actions(r.0, v.width, v.height, token),
                    )
                } else {
                    (v, watches + seq![Action::Discard { token }])
                }
            },
            None => (v, seq![Action::Discard { token }]),
        },
        LayoutRequest::SetLayout { at, layout } => {
            let r = spec_set(v.layout, at@, layout);
            if r.1 {
                let watches = watch_actions(spec_components(r.0));
                (
                    post_recompute(v, r.0, token),
                    watches + recompute_actions(r.0, v.width, v.height, token),
                )
            } else {
                (v, seq![Action::Discard { token }])
            }
        },
    }
}

/// The transition taken with no wait open: a structural request is
/// applied; a focus or resize event adopts the new terminal size and
/// runs a reconciliation pass; everything else is dropped
/// unacknowledged.
pub open spec fn spec_step_idle(v: ReconcilerView, token: u64, e: HostEvent) -> (
    ReconcilerView,
    Seq<Action>,
) {
    match e {
        HostEvent::Request { request } => spec_apply_request(v, token, request),
        HostEvent::Focused { width, height } => {
            let v2 = ReconcilerView {
                layout: v.layout,
                width,
                height,
                deferred: v.deferred,
                unconfirmed: v.unconfirmed,
                waiting: v.waiting,
            };
            (
                post_recompute(v2, v.layout, token),
                recompute_actions(v.layout, width, height, token),
            )
        },
        HostEvent::Resize { width, height } => {
            let v2 = ReconcilerView {
                layout: v.layout,
                width,
                height,
                deferred: v.deferred,
                unconfirmed: v.unconfirmed,
                waiting: v.waiting,
            };
            (
                post_recompute(v2, v.layout, token),
                recompute_actions(v.layout, width, height, token),
            )
        },
        _ => (v, seq![Action::Discard { token }]),
    }
}

/// One transition of the control loop on one incoming event.
pub open spec fn spec_step(v: ReconcilerView, token: u64, e: HostEvent) -> (
    ReconcilerView,
    Seq<Action>,
) {
    match v.waiting {
        Some(ack) => spec_step_waiting(v, ack, token, e),
        None => spec_step_idle(v, token, e),
    }
}

/// What consulting the deferral queue yields: nothing while a wait is
/// open or the queue is empty, else the oldest deferred event, removed
/// from the queue.
pub open spec fn spec_next_deferred(v: ReconcilerView) -> (
    ReconcilerView,
    Option<(u64, HostEvent)>,
) {
    if v.waiting is Some || v.deferred.len() == 0 {
        (v, None)
    } else {
        (
            ReconcilerView {
                layout: v.layout,
                width: v.width,
                height: v.height,
                deferred: v.deferred.skip(1),
                unconfirmed: v.unconfirmed,
                waiting: v.waiting,
            },
            Some(v.deferred[0]),
        )
    }
}

/// The control loop's state: the live tree, the last known terminal
/// size, the FIFO queue of events deferred during a confirmation wait,
/// the components still owed a confirmation, and the token of the event
/// whose pass is held open by that wait.
pub struct Reconciler {
    layout: Layout,
    width: u32,
    height: u32,
    deferred: Vec<(u64, HostEvent)>,
    unconfirmed: Vec<ComponentId>,
    waiting: Option<u64>,
}

impl View for Reconciler {
    type V = ReconcilerView;

    closed spec fn view(&self) -> ReconcilerView {
        ReconcilerView {
            layout: self.layout,
            width: self.width,
            height: self.height,
            deferred: self.deferred@,
            unconfirmed: self.unconfirmed@,
            waiting: self.waiting,
        }
    }
}

proof fn lemma_remove_first_at(s: Seq<ComponentId>, c: ComponentId, j: int)
    requires
        0 <= j < s.len(),
        s[j] == c,
        forall|k: int| 0 <= k < j ==> s[k] != c,
    ensures
        remove_first(s, c) == s.remove(j),
    decreases j,
{
    if j == 0 {
        assert(remove_first(s, c) == s.skip(1));
        assert(s.skip(1) =~= s.remove(0));
    } else {
        assert(s[0] != c);
        lemma_remove_first_at(s.skip(1), c, j - 1);
        assert(seq![s[0]] + s.skip(1).remove(j - 1) =~= s.remove(j));
    }
}

proof fn lemma_remove_first_absent(s: Seq<ComponentId>, c: ComponentId)
    requires
        !s.contains(c),
    ensures
        remove_first(s, c) == s,
    decreases s.len(),
{
    if s.len() > 0 {
        assert(s[0] != c);
        assert(!s.skip(1).contains(c)) by {
            if s.skip(1).contains(c) {
                let i = choose|i: int| 0 <= i < s.skip(1).len() && s.skip(1)[i] == c;
                assert(s[i + 1] == c);
            }
        }
        lemma_remove_first_absent(s.skip(1), c);
        assert(seq![s[0]] + s.skip(1) =~= s);
    }
}

fn contains_id(v: &Vec<ComponentId>, c: ComponentId) -> (r: bool)
    ensures
        r == v@.contains(c),
{
    let mut i: usize = 0;
    while i < v.len()
        invariant
            i <= v@.len(),
            forall|k: int| 0 <= k < i ==> v@[k] != c,
        decreases v@.len() - i,
    {
        if v[i] == c {
            return true;
        }
        i = i + 1;
    }
    false
}

fn remove_id(v: &mut Vec<ComponentId>, c: ComponentId) -> (found: bool)
    ensures
        final(v)@ == remove_first(old(v)@, c),
        found == old(v)@.contains(c),
{
    let mut i: usize = 0;
    while i < v.len()
        invariant
            i <= v@.len(),
            v@ == old(v)@,
            forall|k: int| 0 <= k < i ==> v@[k] != c,
        decreases v@.len() - i,
    {
        if v[i] == c {
            v.remove(i);
            proof {
                lemma_remove_first_at(old(v)@, c, i as int);
            }
            return true;
        }
        i = i + 1;
    }
    proof {
        lemma_remove_first_absent(old(v)@, c);
    }
    false
}

impl Reconciler {
    /// A fresh control-loop state: an empty tree, the given terminal
    /// size, nothing deferred, nothing owed.
    pub fn new(width: u32, height: u32) -> (r: Reconciler)
        ensures
            r@ == (ReconcilerView {
                layout: Layout::Empty,
                width,
                height,
                deferred: Seq::<(u64, HostEvent)>::empty(),
                unconfirmed: Seq::<ComponentId>::empty(),
                waiting: None,
            }),
    {
        let r = Reconciler {
            layout: Layout::Empty,
            width,
            height,
            deferred: Vec::new(),
            unconfirmed: Vec::new(),
            waiting: None,
        };
        proof {
            assert(r@.deferred =~= Seq::<(u64, HostEvent)>::empty());
            assert(r@.unconfirmed =~= Seq::<ComponentId>::empty());
        }
        r
    }

    /// The tree as the loop currently holds it.
    pub fn layout(&self) -> (r: &Layout)
        ensures
            *r == self@.layout,
    {
        &self.layout
    }

    /// Run one reconciliation pass over the current tree, appending its
    /// host calls to `actions` and recording who is owed a
    /// confirmation.
    fn recompute(&mut self, actions: &mut Vec<Action>, token: u64)
        ensures
            final(self)@ == post_recompute(
                old(self)@,
                old(self)@.layout,
                token,
            ),
            final(actions)@ == old(actions)@ + recompute_actions(
                old(self)@.layout,
                old(self)@.width,
                old(self)@.height,
                token,
            ),
    {
        actions.push(Action::ClearAll);
        let screen = Rect { x: 0, y: 0, width: self.width, height: self.height };
        let (entries, draws) = self.layout.areas(screen);
        let ghost with_clear = actions@;
        let mut i: usize = 0;
        while i < draws.len()
            invariant
                i <= draws@.len(),
                actions@ =~= with_clear + draw_actions(draws@.take(i as int)),
            decreases draws@.len() - i,
        {
            actions.push(Action::Draw { command: draws[i] });
            proof {
                assert(draws@.take(i as int + 1) =~= draws@.take(i as int).push(draws@[i as int]));
                assert(draw_actions(draws@.take(i as int + 1)) =~= draw_actions(
                    draws@.take(i as int),
                ).push(Action::Draw { command: draws@[i as int] }));
            }
            i = i + 1;
        }
        proof {
            assert(draws@.take(draws@.len() as int) =~= draws@);
        }
        actions.push(Action::RenderAll);
        let ghost with_render = actions@;
        let mut i: usize = 0;
        while i < entries.len()
            invariant
                i <= entries@.len(),
                actions@ =~= with_render + publish_actions(entries@.take(i as int)),
            decreases entries@.len() - i,
        {
            let entry = entries[i];
            actions.push(Action::Publish { component: entry.1, rect: entry.0 });
            proof {
                assert(entries@.take(i as int + 1) =~= entries@.take(i as int).push(
                    entries@[i as int],
                ));
                assert(publish_actions(entries@.take(i as int + 1)) =~= publish_actions(
                    entries@.take(i as int),
                ).push(Action::Publish { component: entries@[i as int].1, rect: entries@[i as int].0 }));
            }
            i = i + 1;
        }
        proof {
            assert(entries@.take(entries@.len() as int) =~= entries@);
        }
        let ghost all_components = area_components(self@.layout, self@.width, self@.height);
        let mut un: Vec<ComponentId> = Vec::new();
        let mut i: usize = 0;
        while i < entries.len()
            invariant
                i <= entries@.len(),
                entries@ == spec_areas(self@.layout, screen_rect(self@.width, self@.height)),
                all_components == area_components(self@.layout, self@.width, self@.height),
                un@ =~= spec_dedup(all_components.take(i as int)),
            decreases entries@.len() - i,
        {
            let entry = entries[i];
            proof {
                assert(all_components.take(i as int + 1) =~= all_components.take(i as int).push(
                    all_components[i as int],
                ));
                assert(all_components.take(i as int + 1).drop_last() =~= all_components.take(
                    i as int,
                ));
                assert(all_components[i as int] == entries@[i as int].1);
            }
            if !contains_id(&un, entry.1) {
                un.push(entry.1);
            }
            i = i + 1;
        }
        proof {
            assert(all_components.take(all_components.len() as int) =~= all_components);
        }
        if un.len() == 0 {
            self.waiting = None;
            actions.push(Action::Ack { token });
        } else {
            self.waiting = Some(token);
        }
        self.unconfirmed = un;
    }

    /// Apply one structural request to the tree and, when it changed
    /// anything, run a reconciliation pass over the result.
    fn apply_request(&mut self, token: u64, request: LayoutRequest) -> (actions: Vec<Action>)
        ensures
            final(self)@ == spec_apply_request(old(self)@, token, request).0,
            actions@ == spec_apply_request(old(self)@, token, request).1,
    {
        match request {
            LayoutRequest::Add { at, split, constraint_1, constraint_2, component, border } => {
                let changed = self.layout.add(
                    at.as_slice(),
                    &split,
                    constraint_1,
                    constraint_2,
                    component,
                    border,
                );
                let mut actions: Vec<Action> = Vec::new();
                if changed {
                    match component {
                        Some(c) => actions.push(Action::Watch { component: c }),
                        None => {},
                    }
                    self.recompute(&mut actions, token);
                } else {
                    actions.push(Action::Discard { token });
                    proof {
                        lemma_add_noop(
                            old(self)@.layout,
                            at@,
                            split,
                            constraint_1,
                            constraint_2,
                            component,
                            border,
                        );
                    }
                }
                proof {
                    assert(self@ =~= spec_apply_request(old(self)@, token, request).0);
                    assert(actions@ =~= spec_apply_request(old(self)@, token, request).1);
                }
                actions
            },
            LayoutRequest::Remove { at } => {
                let mut actions: Vec<Action> = Vec::new();
                let found = match self.layout.get(at.as_slice()) {
                    Some(node) => {
                        let comps = node.components();
                        let mut i: usize = 0;
                        while i < comps.len()
                            invariant
                                i <= comps@.len(),
                                actions@ =~= watch_actions(comps@.take(i as int)),
                            decreases comps@.len() - i,
                        {
                            actions.push(Action::Watch { component: comps[i] });
                            proof {
                                assert(comps@.take(i as int + 1) =~= comps@.take(i as int).push(
                                    comps@[i as int],
                                ));
                                assert(watch_actions(comps@.take(i as int + 1)) =~= watch_actions(
                                    comps@.take(i as int),
                                ).push(Action::Watch { component: comps@[i as int] }));
                            }
                            i = i + 1;
                        }
                        proof {
                            assert(comps@.take(comps@.len() as int) =~= comps@);
                        }
                        true
                    },
                    None => false,
                };
                if found {
                    let changed = self.layout.remove(at.as_slice());
                    if changed {
                        self.recompute(&mut actions, token);
                    } else {
                        actions.push(Action::Discard { token });
                        proof {
                            lemma_remove_noop(old(self)@.layout, at@);
                        }
                    }
                } else {
                    actions.push(Action::Discard { token });
                }
                proof {
                    assert(self@ =~= spec_apply_request(old(self)@, token, request).0);
                    assert(actions@ =~= spec_apply_request(old(self)@, token, request).1);
                }
                actions
            },
            LayoutRequest::SetLayout { at, layout } => {
                let changed = self.layout.set(at.as_slice(), layout);
                let mut actions: Vec<Action> = Vec::new();
                if changed {
                    let comps = self.layout.components();
                    let mut i: usize = 0;
                    while i < comps.len()
                        invariant
                            i <= comps@.len(),
                            actions@ =~= watch_actions(comps@.take(i as int)),
                        decreases comps@.len() - i,
                    {
                        actions.push(Action::Watch { component: comps[i] });
                        proof {
                            assert(comps@.take(i as int + 1) =~= comps@.take(i as int).push(
                                comps@[i as int],
                            ));
                            assert(watch_actions(comps@.take(i as int + 1)) =~= watch_actions(
                                comps@.take(i as int),
                            ).push(Action::Watch { component: comps@[i as int] }));
                        }
                        i = i + 1;
                    }
                    proof {
                        assert(comps@.take(comps@.len() as int) =~= comps@);
                    }
                    self.recompute(&mut actions, token);
                } else {
                    actions.push(Action::Discard { token });
                    proof {
                        lemma_set_noop(old(self)@.layout, at@, layout);
                    }
                }
                proof {
                    assert(self@ =~= spec_apply_request(old(self)@, token, request).0);
                    assert(actions@ =~= spec_apply_request(old(self)@, token, request).1);
                }
                actions
            },
        }
    }

    /// Feed one event through the control loop. `token` names the raw
    /// host event so a later `Ack` or `Discard` action can refer back to
    /// it. Returns the host calls to perform, in order.
    pub fn step(&mut self, token: u64, event: HostEvent) -> (actions: Vec<Action>)
        ensures
            final(self)@ == spec_step(old(self)@, token, event).0,
            actions@ == spec_step(old(self)@, token, event).1,
    {
        let waiting = self.waiting;
        match waiting {
            Some(ack) => {
                let mut actions: Vec<Action> = Vec::new();
                match event {
                    HostEvent::ValueUpdated { label, component } => {
                        let confirm = confirm_label();
                        if label == confirm {
                            let found = remove_id(&mut self.unconfirmed, component);
                            if found && self.unconfirmed.len() == 0 {
                                self.waiting = None;
                                actions.push(Action::Ack { token: ack });
                                actions.push(Action::Discard { token });
                            } else {
                                actions.push(Action::Discard { token });
                            }
                        } else {
                            self.deferred.push(
                                (token, HostEvent::ValueUpdated { label, component }),
                            );
                        }
                    },
                    other => {
                        self.deferred.push((token, other));
                    },
                }
                proof {
                    assert(actions@ =~= spec_step(old(self)@, token, event).1);
                    assert(self@ =~= spec_step(old(self)@, token, event).0);
                }
                actions
            },
            None => {
                match event {
                    HostEvent::Request { request } => {
                        let actions = self.apply_request(token, request);
                        proof {
                            assert(self@ =~= spec_step(old(self)@, token, event).0);
                            assert(actions@ =~= spec_step(old(self)@, token, event).1);
                        }
                        actions
                    },
                    HostEvent::Focused { width, height } => {
                        self.width = width;
                        self.height = height;
                        let mut actions: Vec<Action> = Vec::new();
                        self.recompute(&mut actions, token);
                        proof {
                            assert(self@ =~= spec_step(old(self)@, token, event).0);
                            assert(actions@ =~= spec_step(old(self)@, token, event).1);
                        }
                        actions
                    },
                    HostEvent::Resize { width, height } => {
                        self.width = width;
                        self.height = height;
                        let mut actions: Vec<Action> = Vec::new();
                        self.recompute(&mut actions, token);
                        proof {
                            assert(self@ =~= spec_step(old(self)@, token, event).0);
                            assert(actions@ =~= spec_step(old(self)@, token, event).1);
                        }
                        actions
                    },
                    _ => {
                        let mut actions: Vec<Action> = Vec::new();
                        actions.push(Action::Discard { token });
                        proof {
                            assert(self@ =~= spec_step(old(self)@, token, event).0);
                            assert(actions@ =~= spec_step(old(self)@, token, event).1);
                        }
                        actions
                    },
                }
            },
        }
    }

    /// The next event the loop must process, when one was deferred
    /// during a wait: the queue is replayed in arrival order, ahead of
    /// newly arriving host events, and is never consulted while a wait
    /// is open.
    pub fn next_deferred(&mut self) -> (r: Option<(u64, HostEvent)>)
        ensures
            final(self)@ == spec_next_deferred(old(self)@).0,
            r == spec_next_deferred(old(self)@).1,
    {
        let waiting = self.waiting;
        match waiting {
            Some(_) => None,
            None => {
                if self.deferred.len() == 0 {
                    None
                } else {
                    let entry = self.deferred.remove(0);
                    proof {
                        assert(old(self)@.deferred.remove(0) =~= old(self)@.deferred.skip(1));
                    }
                    Some(entry)
                }
            },
        }
    }
}

/// An event that arrives during a confirmation wait is not lost and not
/// reordered: a non-confirmation event is appended to the deferral
/// queue unchanged, the matching confirmation closes the wait and
/// acknowledges the event that opened it, and the deferred event is
/// then replayed ahead of any newly arriving host event.
pub proof fn lemma_wait_defers_and_replays_in_order(
    v: ReconcilerView,
    ack: u64,
    t1: u64,
    e1: HostEvent,
    t2: u64,
    e2: HostEvent,
    x: ComponentId,
)
    requires
        v.waiting == Some(ack),
        v.unconfirmed == seq![x],
        v.deferred.len() == 0,
        confirm_of(e1) is None,
        confirm_of(e2) == Some(x),
    ensures
        ({
            let (v1, a1) = spec_step(v, t1, e1);
            let (v2, a2) = spec_step(v1, t2, e2);
            let (v3, replay) = spec_next_deferred(v2);
            a1 == Seq::<Action>::empty() && v1.deferred == seq![(t1, e1)] && v1.unconfirmed
                == seq![x] && v2.waiting is None && a2 == seq![
                Action::Ack { token: ack },
                Action::Discard { token: t2 },
            ] && replay == Some((t1, e1)) && v3.deferred.len() == 0
        }),
{
    let (v1, a1) = spec_step(v, t1, e1);
    assert(v1.deferred =~= seq![(t1, e1)]);
    let (v2, a2) = spec_step(v1, t2, e2);
    assert(v.unconfirmed[0] == x);
    assert(v.unconfirmed.contains(x));
    assert(remove_first(v1.unconfirmed, x) =~= Seq::<ComponentId>::empty());
    let (v3, replay) = spec_next_deferred(v2);
    assert(v3.deferred =~= Seq::<(u64, HostEvent)>::empty());
}

} // verus!
