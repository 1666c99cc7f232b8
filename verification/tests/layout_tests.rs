use ccanvas_layout::{
    ComponentId, Constraint, ConstraintVariant, Direction, Layout, Rect,
};

fn len(v: u32) -> Constraint {
    Constraint::new(ConstraintVariant::length(v), None, None)
}

fn leaf(token: u64) -> Layout {
    Layout::single(Some(ComponentId::new(token)), None)
}

fn tokens(tree: &Layout) -> Vec<u64> {
    tree.components().iter().map(|c| c.token).collect()
}

fn two_leaf_horizontal() -> Layout {
    let mut tree = Layout::default();
    let replaced = tree.set(&[], Layout::horizontal(leaf(1), leaf(2), len(5), len(5)));
    assert!(replaced);
    tree
}

#[test]
fn add_then_remove_at_root_restores_empty() {
    let mut tree = Layout::default();
    let added = tree.add(
        &[],
        &Direction::Right,
        len(5),
        len(5),
        Some(ComponentId::new(1)),
        None,
    );
    assert!(added);
    assert!(tree.remove(&[]));
    assert!(matches!(tree, Layout::Empty));
}

#[test]
fn add_on_empty_wraps_whole_tree() {
    let mut tree = Layout::default();
    assert!(tree.add(
        &[],
        &Direction::Right,
        len(5),
        len(5),
        Some(ComponentId::new(1)),
        None,
    ));
    // Right places the fresh leaf on the second slot; the old tree
    // (Empty) becomes the first.
    match &tree {
        Layout::SplitHorizontal { left, right, .. } => {
            assert!(matches!(**left, Layout::Empty));
            assert!(matches!(
                **right,
                Layout::Single { component: Some(ComponentId { token: 1 }), .. }
            ));
        }
        _ => panic!("expected a horizontal split"),
    }
}

#[test]
fn add_up_places_fresh_leaf_first() {
    let mut tree = Layout::default();
    assert!(tree.add(
        &[],
        &Direction::Up,
        len(3),
        len(4),
        Some(ComponentId::new(9)),
        None,
    ));
    match &tree {
        Layout::SplitVertical { top, bottom, .. } => {
            assert!(matches!(
                **top,
                Layout::Single { component: Some(ComponentId { token: 9 }), .. }
            ));
            assert!(matches!(**bottom, Layout::Empty));
        }
        _ => panic!("expected a vertical split"),
    }
}

#[test]
fn remove_collapses_split_into_sibling() {
    let mut tree = two_leaf_horizontal();
    assert!(tree.remove(&[Direction::Left]));
    // The split wrapper is gone: the whole tree is now the right leaf.
    assert!(matches!(
        tree,
        Layout::Single { component: Some(ComponentId { token: 2 }), .. }
    ));
}

#[test]
fn remove_right_keeps_left_sibling() {
    let mut tree = two_leaf_horizontal();
    assert!(tree.remove(&[Direction::Right]));
    assert!(matches!(
        tree,
        Layout::Single { component: Some(ComponentId { token: 1 }), .. }
    ));
}

#[test]
fn deep_remove_collapses_inner_split() {
    let mut tree = Layout::default();
    let inner = Layout::horizontal(leaf(2), leaf(3), len(2), len(2));
    assert!(tree.set(&[], Layout::horizontal(leaf(1), inner, len(5), len(5))));
    assert!(tree.remove(&[Direction::Right, Direction::Left]));
    assert_eq!(tokens(&tree), vec![1, 3]);
}

#[test]
fn axis_mismatch_is_a_noop() {
    let mut tree = two_leaf_horizontal();
    assert!(!tree.add(
        &[Direction::Up],
        &Direction::Right,
        len(1),
        len(1),
        Some(ComponentId::new(7)),
        None,
    ));
    assert!(!tree.remove(&[Direction::Up]));
    assert!(!tree.set(&[Direction::Down], Layout::default()));
    assert!(tree.get(&[Direction::Up]).is_none());
    // The tree is untouched: both leaves still in place.
    assert_eq!(tokens(&tree), vec![1, 2]);
    assert!(matches!(
        tree.get(&[Direction::Left]),
        Some(Layout::Single { component: Some(ComponentId { token: 1 }), .. })
    ));
    assert!(matches!(
        tree.get(&[Direction::Right]),
        Some(Layout::Single { component: Some(ComponentId { token: 2 }), .. })
    ));
}

#[test]
fn path_past_a_leaf_fails() {
    let mut tree = two_leaf_horizontal();
    assert!(tree.get(&[Direction::Left, Direction::Left]).is_none());
    assert!(!tree.remove(&[Direction::Left, Direction::Up]));
    assert_eq!(tokens(&tree), vec![1, 2]);
}

#[test]
fn get_at_root_returns_whole_tree() {
    let tree = two_leaf_horizontal();
    assert!(matches!(tree.get(&[]), Some(Layout::SplitHorizontal { .. })));
}

#[test]
fn components_collects_in_first_slot_order() {
    let mut tree = Layout::default();
    let upper = Layout::horizontal(leaf(1), leaf(2), len(1), len(1));
    let lower = Layout::horizontal(leaf(3), Layout::single(None, None), len(1), len(1));
    assert!(tree.set(&[], Layout::vertical(upper, lower, len(2), len(2))));
    assert_eq!(tokens(&tree), vec![1, 2, 3]);
}

#[test]
fn split_partitions_width_exactly() {
    let tree = two_leaf_horizontal();
    let (areas, draws) = tree.areas(Rect::new(0, 0, 10, 4));
    assert!(draws.is_empty());
    assert_eq!(areas.len(), 2);
    assert_eq!(areas[0].0, Rect::new(0, 0, 5, 4));
    assert_eq!(areas[0].1, ComponentId::new(1));
    assert_eq!(areas[1].0, Rect::new(5, 0, 5, 4));
    assert_eq!(areas[1].1, ComponentId::new(2));
}

#[test]
fn second_slot_is_clamped_to_remainder() {
    let mut tree = Layout::default();
    assert!(tree.set(&[], Layout::horizontal(leaf(1), leaf(2), len(7), len(7))));
    let (areas, _) = tree.areas(Rect::new(0, 0, 10, 4));
    assert_eq!(areas[0].0, Rect::new(0, 0, 7, 4));
    // Only 3 cells remain for the second slot.
    assert_eq!(areas[1].0, Rect::new(7, 0, 3, 4));
}

#[test]
fn overlong_first_slot_is_clamped_to_container() {
    let mut tree = Layout::default();
    let oversized = Constraint::new(ConstraintVariant::percentage(150), None, None);
    assert!(tree.set(&[], Layout::horizontal(leaf(1), leaf(2), oversized, len(5))));
    let (areas, _) = tree.areas(Rect::new(0, 0, 10, 4));
    assert_eq!(areas[0].0, Rect::new(0, 0, 10, 4));
    assert_eq!(areas[1].0, Rect::new(10, 0, 0, 4));
}

#[test]
fn vertical_split_partitions_height() {
    let mut tree = Layout::default();
    assert!(tree.set(&[], Layout::vertical(leaf(1), leaf(2), len(3), len(9))));
    let (areas, _) = tree.areas(Rect::new(0, 0, 8, 10));
    assert_eq!(areas[0].0, Rect::new(0, 0, 8, 3));
    assert_eq!(areas[1].0, Rect::new(0, 3, 8, 7));
}

#[test]
fn empty_tree_has_no_areas() {
    let tree = Layout::default();
    let (areas, draws) = tree.areas(Rect::new(0, 0, 10, 10));
    assert!(areas.is_empty());
    assert!(draws.is_empty());
}

#[test]
fn leaf_without_component_emits_nothing() {
    let tree = Layout::single(None, None);
    let (areas, draws) = tree.areas(Rect::new(0, 0, 10, 10));
    assert!(areas.is_empty());
    assert!(draws.is_empty());
}

#[test]
fn plain_leaf_receives_whole_rect() {
    let tree = leaf(4);
    let (areas, _) = tree.areas(Rect::new(2, 3, 7, 5));
    assert_eq!(areas, vec![(Rect::new(2, 3, 7, 5), ComponentId::new(4))]);
}
