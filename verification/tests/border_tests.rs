use ccanvas_layout::{
    Border, BorderSet, BorderType, Colour, ComponentId, DrawCommand, Layout, Rect,
};

#[test]
fn builtin_styles_resolve_to_box_drawing_glyphs() {
    assert_eq!(BorderType::Normal.topleft(), '┌');
    assert_eq!(BorderType::Normal.topright(), '┐');
    assert_eq!(BorderType::Normal.bottomright(), '┘');
    assert_eq!(BorderType::Normal.bottomleft(), '└');
    assert_eq!(BorderType::Normal.top(), '─');
    assert_eq!(BorderType::Normal.left(), '│');
    assert_eq!(BorderType::Rounded.topleft(), '╭');
    assert_eq!(BorderType::Rounded.top(), '─');
    assert_eq!(BorderType::Thick.left(), '┃');
    assert_eq!(BorderType::Thick.bottomleft(), '┗');
    assert_eq!(BorderType::Double.right(), '║');
    assert_eq!(BorderType::Double.bottom(), '═');
}

#[test]
fn custom_style_passes_its_glyphs_through() {
    let custom = BorderType::Custom {
        left: 'a',
        topleft: 'b',
        top: 'c',
        topright: 'd',
        right: 'e',
        bottomright: 'f',
        bottom: 'g',
        bottomleft: 'h',
    };
    let set = BorderSet::from(&custom);
    assert_eq!(set.left, 'a');
    assert_eq!(set.topleft, 'b');
    assert_eq!(set.top, 'c');
    assert_eq!(set.topright, 'd');
    assert_eq!(set.right, 'e');
    assert_eq!(set.bottomright, 'f');
    assert_eq!(set.bottom, 'g');
    assert_eq!(set.bottomleft, 'h');
}

#[test]
fn border_set_matches_the_getters() {
    let set = BorderSet::from(&BorderType::Thick);
    assert_eq!(set.topleft, '┏');
    assert_eq!(set.topright, '┓');
    assert_eq!(set.bottomright, '┛');
    assert_eq!(set.bottomleft, '┗');
    assert_eq!(set.top, '━');
    assert_eq!(set.bottom, '━');
    assert_eq!(set.left, '┃');
    assert_eq!(set.right, '┃');
}

fn bordered_leaf(token: u64) -> Layout {
    Layout::single(
        Some(ComponentId::new(token)),
        Some(Border { colour: Colour::Red, kind: BorderType::Normal }),
    )
}

#[test]
fn bordered_leaf_is_inset_one_cell_on_every_side() {
    let tree = bordered_leaf(1);
    let (areas, draws) = tree.areas(Rect::new(0, 0, 5, 5));
    assert_eq!(areas, vec![(Rect::new(1, 1, 3, 3), ComponentId::new(1))]);
    // 4 corners, 3 cells each of top, bottom, left and right edges.
    assert_eq!(draws.len(), 16);
}

#[test]
fn bordered_leaf_too_small_to_inset_gets_zero_rect() {
    let tree = bordered_leaf(1);
    let (areas, draws) = tree.areas(Rect::new(0, 0, 2, 2));
    assert_eq!(areas, vec![(Rect::new(0, 0, 0, 0), ComponentId::new(1))]);
    // A 2-by-2 region still draws its four corners; the edges are empty.
    assert_eq!(draws.len(), 4);
}

#[test]
fn region_too_small_for_a_border_draws_nothing() {
    let tree = bordered_leaf(1);
    let (areas, draws) = tree.areas(Rect::new(0, 0, 1, 5));
    assert_eq!(areas, vec![(Rect::new(0, 0, 0, 0), ComponentId::new(1))]);
    assert!(draws.is_empty());
}

#[test]
fn border_cells_carry_colour_and_positions() {
    let tree = Layout::single(
        Some(ComponentId::new(1)),
        Some(Border { colour: Colour::Blue, kind: BorderType::Normal }),
    );
    let (_, draws) = tree.areas(Rect::new(2, 3, 3, 3));
    let expect = |x: u32, y: u32, glyph: char| DrawCommand {
        x,
        y,
        glyph,
        fg: Colour::Blue,
        bg: Colour::Reset,
    };
    // Corners first, then top, bottom, left, right edge cells.
    assert_eq!(
        draws,
        vec![
            expect(2, 3, '┌'),
            expect(4, 3, '┐'),
            expect(4, 5, '┘'),
            expect(2, 5, '└'),
            expect(3, 3, '─'),
            expect(3, 5, '─'),
            expect(2, 4, '│'),
            expect(4, 4, '│'),
        ]
    );
}

#[test]
fn bordered_leaf_without_component_still_draws() {
    let tree = Layout::single(
        None,
        Some(Border { colour: Colour::Green, kind: BorderType::Double }),
    );
    let (areas, draws) = tree.areas(Rect::new(0, 0, 4, 4));
    assert!(areas.is_empty());
    assert_eq!(draws.len(), 12);
}
