use grid_value::GridError;
use grid_value::GridGeometry;
use grid_value::GridValueModel;
use grid_value::PointerState;

// A 445-pixel window floors to a 100-pixel pitch: a 90-pixel square after a
// 10-pixel gap, the geometry used throughout these tests.
fn model_100() -> GridValueModel {
    GridValueModel::new(445, 500).unwrap()
}

#[test]
fn geometry_from_window() {
    let g = model_100().geometry();
    assert_eq!(g.cell_distance, 100);
    assert_eq!(g.cell_size, 90);
    assert_eq!(g.gap_size, 10);
}

#[test]
fn geometry_uses_smaller_dimension() {
    let g = GridGeometry::from_window(2000, 445).unwrap();
    assert_eq!(g.cell_distance, 100);
}

#[test]
fn degenerate_window_is_rejected() {
    assert_eq!(GridValueModel::new(0, 500).unwrap_err(), GridError::Configuration);
    assert_eq!(GridValueModel::new(500, 0).unwrap_err(), GridError::Configuration);
    assert_eq!(GridValueModel::new(4, 1000).unwrap_err(), GridError::Configuration);
    assert!(GridValueModel::new(5, 1000).is_ok());
}

#[test]
fn toggle_twice_restores_each_cell() {
    let mut m = model_100();
    for i in 0..16 {
        let before = m.is_active(i);
        m.toggle(i).unwrap();
        assert_eq!(m.is_active(i), !before);
        m.toggle(i).unwrap();
        assert_eq!(m.is_active(i), before);
    }
    assert_eq!(m.encoded_value(), 0);
}

#[test]
fn toggle_out_of_range_is_rejected() {
    let mut m = model_100();
    assert_eq!(m.toggle(16).unwrap_err(), GridError::IndexOutOfRange);
    assert_eq!(m.encoded_value(), 0);
}

#[test]
fn encoded_value_of_single_and_full_patterns() {
    let mut m = model_100();
    assert_eq!(m.encoded_value(), 0);

    m.toggle(0).unwrap();
    assert_eq!(m.encoded_value(), 32768);
    m.toggle(0).unwrap();

    m.toggle(15).unwrap();
    assert_eq!(m.encoded_value(), 1);
    m.toggle(15).unwrap();

    for i in 0..16 {
        m.toggle(i).unwrap();
    }
    assert_eq!(m.encoded_value(), 65535);
}

#[test]
fn hit_test_inside_gap_and_beyond_grid() {
    let m = model_100();
    let g = m.geometry();
    assert_eq!(g.hit_test(50, 50), Some(0));
    assert_eq!(g.hit_test(5, 5), None);
    assert_eq!(g.hit_test(450, 50), None);
    assert_eq!(g.hit_test(50, 450), None);
    assert_eq!(g.hit_test(150, 250), Some(9));
    assert_eq!(g.hit_test(350, 350), Some(15));
}

#[test]
fn hit_test_is_edge_inclusive() {
    let g = model_100().geometry();
    // Both ends of the drawn span, 10..=100, land in cell 0.
    assert_eq!(g.hit_test(10, 10), Some(0));
    assert_eq!(g.hit_test(99, 99), Some(0));
    assert_eq!(g.hit_test(9, 50), None);
}

#[test]
fn hit_test_agrees_with_render_rectangles() {
    let m = model_100();
    let g = m.geometry();
    let desc = m.render_description();
    assert_eq!(desc.cells.len(), 16);
    for (i, cell) in desc.cells.iter().enumerate() {
        let cx = cell.rect.x + cell.rect.width / 2;
        let cy = cell.rect.y + cell.rect.height / 2;
        assert_eq!(g.hit_test(cx, cy), Some(i));
    }
}

#[test]
fn render_rectangles_are_laid_out_row_major() {
    let desc = model_100().render_description();
    for i in 0..16 {
        let cell = &desc.cells[i];
        assert_eq!(cell.rect.x, 10 + 100 * (i as u32 % 4));
        assert_eq!(cell.rect.y, 10 + 100 * (i as u32 / 4));
        assert_eq!(cell.rect.width, 90);
        assert_eq!(cell.rect.height, 90);
        assert!(!cell.is_active);
    }
}

#[test]
fn render_marks_toggled_cells() {
    let mut m = model_100();
    m.toggle(3).unwrap();
    m.toggle(12).unwrap();
    let desc = m.render_description();
    for i in 0..16 {
        assert_eq!(desc.cells[i].is_active, i == 3 || i == 12);
    }
}

#[test]
fn display_string_for_all_zero_state() {
    let desc = model_100().render_description();
    assert_eq!(desc.text, "0000 0000 0000 0000  = 0");
}

#[test]
fn display_string_groups_bits_and_appends_value() {
    let mut m = model_100();
    m.toggle(0).unwrap();
    m.toggle(15).unwrap();
    let desc = m.render_description();
    assert_eq!(desc.text, "1000 0000 0000 0001  = 32769");
}

#[test]
fn render_twice_without_mutation_is_byte_identical() {
    let mut m = model_100();
    m.toggle(5).unwrap();
    let a = m.render_description();
    let b = m.render_description();
    assert_eq!(a.text.as_bytes(), b.text.as_bytes());
    assert_eq!(a.cells, b.cells);
}

#[test]
fn apply_click_toggles_the_hit_cell_only() {
    let mut m = model_100();
    assert_eq!(m.apply_click(150, 50), Some(1));
    assert!(m.is_active(1));
    assert_eq!(m.encoded_value(), 1 << 14);

    // A click in the gap changes nothing.
    assert_eq!(m.apply_click(5, 5), None);
    assert_eq!(m.encoded_value(), 1 << 14);

    assert_eq!(m.apply_click(150, 50), Some(1));
    assert_eq!(m.encoded_value(), 0);
}

#[test]
fn decimal_string_renders_exact_values() {
    assert_eq!(grid_value::numeric::decimal_string(0), "0");
    assert_eq!(grid_value::numeric::decimal_string(7), "7");
    assert_eq!(grid_value::numeric::decimal_string(40), "40");
    assert_eq!(grid_value::numeric::decimal_string(32768), "32768");
    assert_eq!(grid_value::numeric::decimal_string(65535), "65535");
}

#[test]
fn pointer_fires_once_per_rising_edge() {
    let s = PointerState::Released;
    let (s, fired) = s.step(true);
    assert!(fired);
    let (s, fired) = s.step(true);
    assert!(!fired);
    let (s, fired) = s.step(false);
    assert!(!fired);
    assert_eq!(s, PointerState::Released);
    let (_, fired) = s.step(true);
    assert!(fired);
}
