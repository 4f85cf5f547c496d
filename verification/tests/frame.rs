use git_nav::frame::{Cell, CellWrite, Color, FrameGrid};
use git_nav::ui::render_frame_diff;
use git_nav::ui_state::FrameState;

fn cell(symbol: &str) -> Cell {
    Cell {
        symbol: symbol.to_string(),
        fg: Color::Reset,
        bg: Color::Reset,
        underline_color: Color::Reset,
        modifier: 0,
        skip: false,
    }
}

fn grid(width: u16, height: u16, symbols: &str) -> FrameGrid {
    let cells: Vec<Cell> = symbols.chars().map(|c| cell(&c.to_string())).collect();
    FrameGrid::from_cells(width, height, cells).unwrap()
}

fn write(x: u16, y: u16, symbol: &str) -> CellWrite {
    CellWrite { x, y, cell: cell(symbol) }
}

#[test]
fn first_frame_paints_every_cell() {
    let mut state = FrameState::new();
    assert!(!state.initialized);
    let frame = grid(3, 2, "abcdef");
    let writes = render_frame_diff(&mut state, &frame);
    assert_eq!(
        writes,
        vec![
            write(0, 0, "a"),
            write(1, 0, "b"),
            write(2, 0, "c"),
            write(0, 1, "d"),
            write(1, 1, "e"),
            write(2, 1, "f"),
        ]
    );
    assert_eq!(writes.len(), 3 * 2);
    assert!(state.initialized);
    assert_eq!(state.buffer, frame);
}

#[test]
fn same_frame_twice_paints_nothing() {
    let mut state = FrameState::new();
    let frame = grid(3, 2, "abcdef");
    assert_eq!(render_frame_diff(&mut state, &frame).len(), 6);
    assert_eq!(render_frame_diff(&mut state, &frame), vec![]);
    assert_eq!(render_frame_diff(&mut state, &grid(3, 2, "abcdef")), vec![]);
    assert!(state.initialized);
    assert_eq!(state.buffer, frame);
}

#[test]
fn only_changed_cells_are_painted() {
    let mut state = FrameState::new();
    render_frame_diff(&mut state, &grid(3, 2, "abcdef"));
    let next = grid(3, 2, "abXdeY");
    assert_eq!(render_frame_diff(&mut state, &next), vec![write(2, 0, "X"), write(2, 1, "Y")]);
    assert_eq!(state.buffer, next);
    let back = grid(3, 2, "abcdeY");
    assert_eq!(render_frame_diff(&mut state, &back), vec![write(2, 0, "c")]);
}

#[test]
fn full_change_paints_every_cell() {
    let mut state = FrameState::new();
    render_frame_diff(&mut state, &grid(2, 2, "abcd"));
    assert_eq!(
        render_frame_diff(&mut state, &grid(2, 2, "wxyz")),
        vec![write(0, 0, "w"), write(1, 0, "x"), write(0, 1, "y"), write(1, 1, "z")]
    );
}

#[test]
fn change_of_style_is_a_change() {
    let mut state = FrameState::new();
    render_frame_diff(&mut state, &grid(2, 1, "ab"));
    let mut styled = cell("b");
    styled.fg = Color::Rgb(1, 2, 3);
    let next = FrameGrid::from_cells(2, 1, vec![cell("a"), styled.clone()]).unwrap();
    assert_eq!(
        render_frame_diff(&mut state, &next),
        vec![CellWrite { x: 1, y: 0, cell: styled.clone() }]
    );
    let mut bold = styled.clone();
    bold.modifier = 1;
    let next = FrameGrid::from_cells(2, 1, vec![cell("a"), bold.clone()]).unwrap();
    assert_eq!(render_frame_diff(&mut state, &next), vec![CellWrite { x: 1, y: 0, cell: bold }]);
}

#[test]
fn resize_forces_a_full_paint() {
    let mut state = FrameState::new();
    render_frame_diff(&mut state, &grid(3, 2, "abcdef"));
    let resized = grid(2, 3, "abcdef");
    assert_eq!(
        render_frame_diff(&mut state, &resized),
        vec![
            write(0, 0, "a"),
            write(1, 0, "b"),
            write(0, 1, "c"),
            write(1, 1, "d"),
            write(0, 2, "e"),
            write(1, 2, "f"),
        ]
    );
    assert_eq!(state.buffer, resized);
    assert_eq!(render_frame_diff(&mut state, &grid(2, 2, "abcd")).len(), 4);
}

#[test]
fn reset_forces_a_full_paint() {
    let mut state = FrameState::new();
    let frame = grid(2, 1, "ab");
    render_frame_diff(&mut state, &frame);
    state.reset();
    assert!(!state.initialized);
    assert_eq!(render_frame_diff(&mut state, &frame), vec![write(0, 0, "a"), write(1, 0, "b")]);
}

#[test]
fn empty_grid_paints_nothing() {
    let mut state = FrameState::new();
    assert_eq!(render_frame_diff(&mut state, &FrameGrid::empty()), vec![]);
    assert!(state.initialized);
    assert_eq!(render_frame_diff(&mut state, &grid(0, 5, "")), vec![]);
    assert_eq!(render_frame_diff(&mut state, &grid(1, 1, "a")), vec![write(0, 0, "a")]);
}

#[test]
fn grid_needs_one_cell_per_position() {
    assert!(FrameGrid::from_cells(2, 2, vec![cell("a")]).is_none());
    assert!(FrameGrid::from_cells(0, 0, vec![cell("a")]).is_none());
    assert!(FrameGrid::from_cells(2, 2, vec![]).is_none());
    let built = FrameGrid::from_cells(2, 1, vec![cell("a"), cell("b")]).unwrap();
    assert_eq!(built.width(), 2);
    assert_eq!(built.height(), 1);
    assert_eq!(built.len(), 2);
    assert_eq!(FrameGrid::empty().len(), 0);
    assert_eq!(FrameGrid::empty().width(), 0);
    assert_eq!(FrameGrid::empty().height(), 0);
}

#[test]
fn grid_get_reads_by_column_and_row() {
    let frame = grid(3, 2, "abcdef");
    assert_eq!(frame.get(0, 0), Some(&cell("a")));
    assert_eq!(frame.get(2, 0), Some(&cell("c")));
    assert_eq!(frame.get(0, 1), Some(&cell("d")));
    assert_eq!(frame.get(2, 1), Some(&cell("f")));
    assert_eq!(frame.get(3, 0), None);
    assert_eq!(frame.get(0, 2), None);
    assert_eq!(frame.clone(), frame);
}

#[test]
fn cells_compare_by_symbol_and_attributes() {
    let blank = Cell::blank();
    assert_eq!(blank, cell(" "));
    assert!(blank.same_as(&cell(" ")));
    assert!(!blank.same_as(&cell("x")));
    let mut other = cell(" ");
    other.bg = Color::Blue;
    assert!(!blank.same_as(&other));
    let mut other = cell(" ");
    other.underline_color = Color::Indexed(3);
    assert!(!blank.same_as(&other));
    let mut other = cell(" ");
    other.skip = true;
    assert!(!blank.same_as(&other));
    assert!(other.same_as(&other.clone()));
}
