use tictactoe::area::FieldArea;
use tictactoe::field::Mark;
use tictactoe::playstate::{ClickOutcome, MouseButton, PlayState, WinState};

/// A pixel inside the cell at (row, col) of the standard board area.
fn pixel_in_cell(row: i64, col: i64) -> (i64, i64) {
    (100 + col * 200 + 10, row * 200 + 10)
}

fn left_click(state: &mut PlayState, row: i64, col: i64) -> ClickOutcome {
    let (x, y) = pixel_in_cell(row, col);
    state.on_mouse_down(MouseButton::Left, x, y)
}

fn cell(state: &PlayState, row: usize, col: usize) -> Option<Mark> {
    state.field().get_cell_xy(col, row).unwrap()
}

#[test]
fn new_controller_starts_fresh() {
    let state = PlayState::new();
    assert_eq!(state.turn(), Mark::X);
    assert_eq!(state.winner(), WinState::Neither);
    assert_eq!(state.area(), FieldArea { x: 100, y: 0, w: 600, h: 600 });
    assert_eq!(state.field().occupied_count(), 0);
}

#[test]
fn click_places_mark_and_passes_turn() {
    let mut state = PlayState::new();
    assert_eq!(state.on_mouse_down(MouseButton::Left, 150, 50), ClickOutcome::Placed);
    assert_eq!(cell(&state, 0, 0), Some(Mark::X));
    assert_eq!(state.turn(), Mark::O);
    assert_eq!(state.winner(), WinState::Neither);
}

#[test]
fn click_outside_area_changes_nothing() {
    let mut state = PlayState::new();
    assert_eq!(state.on_mouse_down(MouseButton::Left, 50, 50), ClickOutcome::OutOfBounds);
    assert_eq!(state.turn(), Mark::X);
    assert_eq!(state.field().occupied_count(), 0);
}

#[test]
fn click_on_occupied_cell_keeps_turn() {
    let mut state = PlayState::new();
    assert_eq!(left_click(&mut state, 1, 1), ClickOutcome::Placed);
    assert_eq!(left_click(&mut state, 1, 1), ClickOutcome::SpaceOccupied);
    assert_eq!(cell(&state, 1, 1), Some(Mark::X));
    assert_eq!(state.turn(), Mark::O);
    assert_eq!(state.field().occupied_count(), 1);
}

#[test]
fn non_left_button_places_nothing() {
    let mut state = PlayState::new();
    for button in [
        MouseButton::Unknown,
        MouseButton::Middle,
        MouseButton::Right,
        MouseButton::X1,
        MouseButton::X2,
    ] {
        assert_eq!(state.on_mouse_down(button, 150, 50), ClickOutcome::Ignored);
    }
    assert_eq!(state.field().occupied_count(), 0);
    assert_eq!(state.turn(), Mark::X);
}

#[test]
fn row_win_and_reset() {
    let mut state = PlayState::new();
    // X at (0,0), O at (1,1), X at (0,1), O at (1,2), X at (0,2):
    // row 0 becomes all X.
    assert_eq!(left_click(&mut state, 0, 0), ClickOutcome::Placed);
    assert_eq!(state.winner(), WinState::Neither);
    assert_eq!(left_click(&mut state, 1, 1), ClickOutcome::Placed);
    assert_eq!(state.winner(), WinState::Neither);
    assert_eq!(left_click(&mut state, 0, 1), ClickOutcome::Placed);
    assert_eq!(state.winner(), WinState::Neither);
    assert_eq!(left_click(&mut state, 1, 2), ClickOutcome::Placed);
    assert_eq!(state.winner(), WinState::Neither);
    assert_eq!(left_click(&mut state, 0, 2), ClickOutcome::Placed);
    assert_eq!(state.winner(), WinState::Win(Mark::X));
    // The next valid click resets the board and the turn before it is
    // processed: X opens the new game on the clicked cell.
    assert_eq!(left_click(&mut state, 2, 1), ClickOutcome::Placed);
    assert_eq!(state.winner(), WinState::Neither);
    assert_eq!(state.field().occupied_count(), 1);
    assert_eq!(cell(&state, 2, 1), Some(Mark::X));
    assert_eq!(state.turn(), Mark::O);
}

#[test]
fn reset_without_placement_on_other_button() {
    let mut state = PlayState::new();
    assert_eq!(left_click(&mut state, 0, 0), ClickOutcome::Placed);
    assert_eq!(left_click(&mut state, 1, 0), ClickOutcome::Placed);
    assert_eq!(left_click(&mut state, 0, 1), ClickOutcome::Placed);
    assert_eq!(left_click(&mut state, 1, 1), ClickOutcome::Placed);
    assert_eq!(left_click(&mut state, 0, 2), ClickOutcome::Placed);
    assert_eq!(state.winner(), WinState::Win(Mark::X));
    // A right click after a finished game still resets, but places no
    // mark.
    assert_eq!(state.on_mouse_down(MouseButton::Right, 150, 50), ClickOutcome::Ignored);
    assert_eq!(state.winner(), WinState::Neither);
    assert_eq!(state.field().occupied_count(), 0);
    assert_eq!(state.turn(), Mark::X);
}

#[test]
fn alternating_game_without_line_is_a_draw() {
    let mut state = PlayState::new();
    // Final board (X moved first):
    //   X O X
    //   X O O
    //   O X X
    // Placement order, alternating and never completing a line.
    let moves: [(i64, i64); 9] = [
        (0, 0), // X
        (0, 1), // O
        (0, 2), // X
        (1, 1), // O
        (1, 0), // X
        (1, 2), // O
        (2, 1), // X
        (2, 0), // O
        (2, 2), // X
    ];
    for (n, (row, col)) in moves.iter().enumerate() {
        assert_eq!(state.field().occupied_count(), n as i64);
        assert_eq!(left_click(&mut state, *row, *col), ClickOutcome::Placed);
        if n < 8 {
            // The outcome is a draw exactly when the ninth cell fills
            // with no winning line: never earlier.
            assert_eq!(state.winner(), WinState::Neither);
        }
    }
    assert_eq!(state.field().occupied_count(), 9);
    assert_eq!(state.winner(), WinState::Draw);
    // The draw resets like a win does.
    assert_eq!(left_click(&mut state, 1, 1), ClickOutcome::Placed);
    assert_eq!(state.winner(), WinState::Neither);
    assert_eq!(state.field().occupied_count(), 1);
    assert_eq!(cell(&state, 1, 1), Some(Mark::X));
}

#[test]
fn diagonal_wins_are_detected() {
    let mut state = PlayState::new();
    assert_eq!(left_click(&mut state, 0, 0), ClickOutcome::Placed); // X
    assert_eq!(left_click(&mut state, 0, 1), ClickOutcome::Placed); // O
    assert_eq!(left_click(&mut state, 1, 1), ClickOutcome::Placed); // X
    assert_eq!(left_click(&mut state, 0, 2), ClickOutcome::Placed); // O
    assert_eq!(left_click(&mut state, 2, 2), ClickOutcome::Placed); // X
    assert_eq!(state.winner(), WinState::Win(Mark::X));

    let mut state2 = PlayState::new();
    assert_eq!(left_click(&mut state2, 1, 0), ClickOutcome::Placed); // X
    assert_eq!(left_click(&mut state2, 0, 2), ClickOutcome::Placed); // O
    assert_eq!(left_click(&mut state2, 2, 2), ClickOutcome::Placed); // X
    assert_eq!(left_click(&mut state2, 1, 1), ClickOutcome::Placed); // O
    assert_eq!(left_click(&mut state2, 0, 1), ClickOutcome::Placed); // X
    assert_eq!(left_click(&mut state2, 2, 0), ClickOutcome::Placed); // O: cells 2, 4, 6
    assert_eq!(state2.winner(), WinState::Win(Mark::O));
}

#[test]
fn column_win_is_detected() {
    let mut state = PlayState::new();
    assert_eq!(left_click(&mut state, 0, 2), ClickOutcome::Placed); // X
    assert_eq!(left_click(&mut state, 0, 0), ClickOutcome::Placed); // O
    assert_eq!(left_click(&mut state, 1, 2), ClickOutcome::Placed); // X
    assert_eq!(left_click(&mut state, 1, 0), ClickOutcome::Placed); // O
    assert_eq!(left_click(&mut state, 2, 2), ClickOutcome::Placed); // X
    assert_eq!(state.winner(), WinState::Win(Mark::X));
}
