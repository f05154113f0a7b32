use tictactoe::area::FieldArea;

fn standard_area() -> FieldArea {
    FieldArea { x: 100, y: 0, w: 600, h: 600 }
}

#[test]
fn from_rect_copies_components() {
    let area = FieldArea::from_rect(100, 0, 600, 600);
    assert_eq!(area, standard_area());
    let shifted = FieldArea::from_rect(-20, 7, 90, 33);
    assert_eq!(shifted, FieldArea { x: -20, y: 7, w: 90, h: 33 });
}

#[test]
fn cell_dimensions_divide_by_three() {
    let area = standard_area();
    assert_eq!(area.cell_width(), 200);
    assert_eq!(area.cell_height(), 200);
    // Truncating division: remainders vanish.
    let odd = FieldArea { x: 0, y: 0, w: 7, h: 100 };
    assert_eq!(odd.cell_width(), 2);
    assert_eq!(odd.cell_height(), 33);
}

#[test]
fn unproject_rejects_left_of_area() {
    let area = standard_area();
    assert_eq!(area.unproject(50, 50), None);
}

#[test]
fn unproject_maps_first_cell() {
    let area = standard_area();
    assert_eq!(area.unproject(150, 50), Some((0, 0)));
}

#[test]
fn unproject_row_boundaries() {
    let area = standard_area();
    assert_eq!(area.unproject_row(-1), None);
    assert_eq!(area.unproject_row(0), Some(0));
    assert_eq!(area.unproject_row(199), Some(0));
    assert_eq!(area.unproject_row(200), Some(1));
    assert_eq!(area.unproject_row(599), Some(2));
    assert_eq!(area.unproject_row(600), None);
}

#[test]
fn unproject_col_boundaries() {
    let area = standard_area();
    assert_eq!(area.unproject_col(99), None);
    assert_eq!(area.unproject_col(100), Some(0));
    assert_eq!(area.unproject_col(299), Some(0));
    assert_eq!(area.unproject_col(300), Some(1));
    assert_eq!(area.unproject_col(699), Some(2));
    assert_eq!(area.unproject_col(700), None);
}

#[test]
fn unproject_needs_both_axes() {
    let area = standard_area();
    // Valid row, column out of the area, and the other way round.
    assert_eq!(area.unproject(50, 300), None);
    assert_eq!(area.unproject(300, 650), None);
    assert_eq!(area.unproject(300, 300), Some((1, 1)));
}

#[test]
fn project_gives_cell_corners() {
    let area = standard_area();
    assert_eq!(area.project(0, 0), (100, 0));
    assert_eq!(area.project(1, 2), (500, 200));
    assert_eq!(area.project(2, 1), (300, 400));
}

#[test]
fn corner_round_trip() {
    let area = standard_area();
    for row in 0..3i64 {
        for col in 0..3i64 {
            let (px, py) = area.project(row, col);
            assert_eq!(area.unproject(px, py), Some((row, col)));
        }
    }
    // The same holds in an area whose size does not divide evenly.
    let odd = FieldArea { x: -9, y: 4, w: 31, h: 17 };
    for row in 0..3i64 {
        for col in 0..3i64 {
            let (px, py) = odd.project(row, col);
            assert_eq!(odd.unproject(px, py), Some((row, col)));
        }
    }
}
