use ccanvas_layout::protocol::{allocated_label, confirm_label, ready_tag};
use ccanvas_layout::{
    Action, ComponentId, Constraint, ConstraintVariant, Direction, HostEvent, LayoutRequest,
    Reconciler, Rect,
};

fn len(v: u32) -> Constraint {
    Constraint::new(ConstraintVariant::length(v), None, None)
}

fn add_request(token: u64) -> HostEvent {
    HostEvent::Request {
        request: LayoutRequest::Add {
            at: vec![],
            split: Direction::Right,
            constraint_1: len(5),
            constraint_2: len(5),
            component: Some(ComponentId::new(token)),
            border: None,
        },
    }
}

fn confirm_for(token: u64) -> HostEvent {
    HostEvent::ValueUpdated { label: confirm_label(), component: ComponentId::new(token) }
}

#[test]
fn wire_labels_are_fixed() {
    assert_eq!(allocated_label(), "!layout-allocated-rect");
    assert_eq!(confirm_label(), "!layout-render-confirm");
    assert_eq!(ready_tag(), "!layout-ready");
}

#[test]
fn add_publishes_rect_and_waits_for_confirmation() {
    let mut r = Reconciler::new(10, 5);
    let actions = r.step(1, add_request(7));
    assert_eq!(
        actions,
        vec![
            Action::Watch { component: ComponentId::new(7) },
            Action::ClearAll,
            Action::RenderAll,
            Action::Publish { component: ComponentId::new(7), rect: Rect::new(5, 0, 5, 5) },
        ]
    );
    // The pass is not acknowledged until the component confirms.
    let actions = r.step(2, confirm_for(7));
    assert_eq!(actions, vec![Action::Ack { token: 1 }, Action::Discard { token: 2 }]);
}

#[test]
fn resize_on_empty_tree_is_acknowledged_at_once() {
    let mut r = Reconciler::new(10, 5);
    let actions = r.step(3, HostEvent::Resize { width: 20, height: 9 });
    assert_eq!(actions, vec![Action::ClearAll, Action::RenderAll, Action::Ack { token: 3 }]);
}

#[test]
fn focused_adopts_queried_size() {
    let mut r = Reconciler::new(10, 5);
    let _ = r.step(1, add_request(7));
    let _ = r.step(2, confirm_for(7));
    let actions = r.step(3, HostEvent::Focused { width: 6, height: 4 });
    assert!(actions.contains(&Action::Publish {
        component: ComponentId::new(7),
        rect: Rect::new(5, 0, 1, 4),
    }));
}

#[test]
fn unrelated_event_while_idle_is_dropped() {
    let mut r = Reconciler::new(10, 5);
    let actions = r.step(4, HostEvent::Other);
    assert_eq!(actions, vec![Action::Discard { token: 4 }]);
}

#[test]
fn failed_request_is_dropped_without_side_effects() {
    let mut r = Reconciler::new(10, 5);
    let actions = r.step(
        1,
        HostEvent::Request {
            request: LayoutRequest::Remove { at: vec![Direction::Left] },
        },
    );
    assert_eq!(actions, vec![Action::Discard { token: 1 }]);
}

#[test]
fn events_during_wait_are_deferred_and_replayed_in_order() {
    let mut r = Reconciler::new(10, 5);
    let _ = r.step(1, add_request(7));
    // While waiting on component 7, an unrelated event arrives: it is
    // deferred, producing no action.
    let actions = r.step(2, HostEvent::Other);
    assert!(actions.is_empty());
    assert!(r.next_deferred().is_none(), "the queue is not consulted during a wait");
    let actions = r.step(3, HostEvent::Resize { width: 9, height: 9 });
    assert!(actions.is_empty());
    // The matching confirmation closes the wait.
    let actions = r.step(4, confirm_for(7));
    assert_eq!(actions, vec![Action::Ack { token: 1 }, Action::Discard { token: 4 }]);
    // The deferred events replay in arrival order, ahead of new events.
    assert!(matches!(r.next_deferred(), Some((2, HostEvent::Other))));
    assert!(matches!(r.next_deferred(), Some((3, HostEvent::Resize { width: 9, height: 9 }))));
    assert!(r.next_deferred().is_none());
}

#[test]
fn confirmation_for_unknown_component_is_consumed_silently() {
    let mut r = Reconciler::new(10, 5);
    let _ = r.step(1, add_request(7));
    let actions = r.step(2, confirm_for(99));
    assert_eq!(actions, vec![Action::Discard { token: 2 }]);
    // Still waiting: the real confirmation is owed.
    let actions = r.step(3, confirm_for(7));
    assert_eq!(actions, vec![Action::Ack { token: 1 }, Action::Discard { token: 3 }]);
}

#[test]
fn value_update_with_other_label_is_deferred() {
    let mut r = Reconciler::new(10, 5);
    let _ = r.step(1, add_request(7));
    let actions = r.step(
        2,
        HostEvent::ValueUpdated { label: "something-else".to_owned(), component: ComponentId::new(7) },
    );
    assert!(actions.is_empty());
    let _ = r.step(3, confirm_for(7));
    assert!(matches!(
        r.next_deferred(),
        Some((2, HostEvent::ValueUpdated { .. }))
    ));
}

#[test]
fn remove_watches_doomed_components_before_removal() {
    let mut r = Reconciler::new(10, 5);
    let _ = r.step(1, add_request(7));
    let _ = r.step(2, confirm_for(7));
    let actions = r.step(
        3,
        HostEvent::Request { request: LayoutRequest::Remove { at: vec![Direction::Right] } },
    );
    // The doomed leaf holds component 7: watch it first, then redraw.
    // The collapsed tree is empty, so the pass settles at once.
    assert_eq!(
        actions,
        vec![
            Action::Watch { component: ComponentId::new(7) },
            Action::ClearAll,
            Action::RenderAll,
            Action::Ack { token: 3 },
        ]
    );
}

#[test]
fn set_layout_watches_every_component_of_the_new_tree() {
    let mut r = Reconciler::new(8, 8);
    let layout = ccanvas_layout::Layout::horizontal(
        ccanvas_layout::Layout::single(Some(ComponentId::new(1)), None),
        ccanvas_layout::Layout::single(Some(ComponentId::new(2)), None),
        len(4),
        len(4),
    );
    let actions = r.step(
        1,
        HostEvent::Request { request: LayoutRequest::SetLayout { at: vec![], layout } },
    );
    assert_eq!(actions[0], Action::Watch { component: ComponentId::new(1) });
    assert_eq!(actions[1], Action::Watch { component: ComponentId::new(2) });
    assert_eq!(actions[2], Action::ClearAll);
    assert_eq!(actions[3], Action::RenderAll);
    assert_eq!(
        actions[4],
        Action::Publish { component: ComponentId::new(1), rect: Rect::new(0, 0, 4, 8) }
    );
    assert_eq!(
        actions[5],
        Action::Publish { component: ComponentId::new(2), rect: Rect::new(4, 0, 4, 8) }
    );
    // Two components owed: both must confirm before the ack.
    let actions = r.step(2, confirm_for(1));
    assert_eq!(actions, vec![Action::Discard { token: 2 }]);
    let actions = r.step(3, confirm_for(2));
    assert_eq!(actions, vec![Action::Ack { token: 1 }, Action::Discard { token: 3 }]);
}

#[test]
fn duplicate_components_are_confirmed_once() {
    let mut r = Reconciler::new(8, 8);
    let layout = ccanvas_layout::Layout::horizontal(
        ccanvas_layout::Layout::single(Some(ComponentId::new(5)), None),
        ccanvas_layout::Layout::single(Some(ComponentId::new(5)), None),
        len(4),
        len(4),
    );
    let _ = r.step(
        1,
        HostEvent::Request { request: LayoutRequest::SetLayout { at: vec![], layout } },
    );
    // The same component holds both slots: one confirmation settles it.
    let actions = r.step(2, confirm_for(5));
    assert_eq!(actions, vec![Action::Ack { token: 1 }, Action::Discard { token: 2 }]);
}

#[test]
fn reconciler_exposes_the_live_tree() {
    let mut r = Reconciler::new(10, 5);
    let _ = r.step(1, add_request(7));
    let held = r.layout();
    assert_eq!(held.components(), vec![ComponentId::new(7)]);
}

#[test]
fn bordered_layout_draws_between_clear_and_render() {
    let mut r = Reconciler::new(4, 4);
    let layout = ccanvas_layout::Layout::single(
        Some(ComponentId::new(3)),
        Some(ccanvas_layout::Border {
            colour: ccanvas_layout::Colour::Red,
            kind: ccanvas_layout::BorderType::Normal,
        }),
    );
    let actions = r.step(
        1,
        HostEvent::Request { request: LayoutRequest::SetLayout { at: vec![], layout } },
    );
    assert_eq!(actions[0], Action::Watch { component: ComponentId::new(3) });
    assert_eq!(actions[1], Action::ClearAll);
    // A 4-by-4 border: 4 corners and 2 cells per edge.
    let draws: Vec<&Action> =
        actions.iter().filter(|a| matches!(a, Action::Draw { .. })).collect();
    assert_eq!(draws.len(), 12);
    assert_eq!(actions[2..14].iter().filter(|a| matches!(a, Action::Draw { .. })).count(), 12);
    assert_eq!(actions[14], Action::RenderAll);
    assert_eq!(
        actions[15],
        Action::Publish { component: ComponentId::new(3), rect: Rect::new(1, 1, 2, 2) }
    );
}
