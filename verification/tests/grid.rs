use tile_render::grid::Neighbors;
use tile_render::grid::GridError;
use tile_render::grid::GridView;

fn grid_of(width: usize, height: usize, cells: &[(u8, u8)]) -> GridView {
    let mut data = Vec::new();
    for &(base, connectivity) in cells {
        data.push(base);
        data.push(connectivity);
        data.push(0);
    }
    GridView::new(width, height, 3, data).unwrap()
}

#[test]
fn a_grid_needs_two_channels() {
    assert_eq!(GridView::new(1, 1, 1, vec![0]).err(), Some(GridError::TooFewChannels));
    assert_eq!(GridView::new(0, 0, 0, vec![]).err(), Some(GridError::TooFewChannels));
    assert!(GridView::new(1, 1, 2, vec![0, 0]).is_ok());
}

#[test]
fn a_grid_needs_a_buffer_of_its_size() {
    assert_eq!(GridView::new(2, 2, 3, vec![0; 11]).err(), Some(GridError::SizeMismatch));
    assert_eq!(GridView::new(2, 2, 3, vec![0; 13]).err(), Some(GridError::SizeMismatch));
    assert!(GridView::new(2, 2, 3, vec![0; 12]).is_ok());
    assert!(GridView::new(0, 5, 4, vec![]).is_ok());
}

#[test]
fn dimensions_that_overflow_are_a_size_mismatch() {
    assert_eq!(
        GridView::new(usize::MAX, usize::MAX, 2, vec![0; 4]).err(),
        Some(GridError::SizeMismatch)
    );
    assert_eq!(GridView::new(usize::MAX, 1, 2, vec![]).err(), Some(GridError::SizeMismatch));
}

#[test]
fn accessors_give_back_the_dimensions() {
    let g = GridView::new(3, 2, 4, vec![0; 24]).unwrap();
    assert_eq!(g.width(), 3);
    assert_eq!(g.height(), 2);
    assert_eq!(g.channels(), 4);
}

#[test]
fn sample_reads_the_first_two_channels() {
    let g = GridView::new(2, 2, 4, vec![0, 10, 99, 98, 1, 11, 97, 96, 2, 12, 95, 94, 3, 13, 93, 92])
        .unwrap();
    assert_eq!(g.sample(0, 0), (0, 10));
    assert_eq!(g.sample(1, 0), (1, 11));
    assert_eq!(g.sample(0, 1), (2, 12));
    assert_eq!(g.sample(1, 1), (3, 13));
    assert_eq!(g.get(1, 1), (3, 13));
}

#[test]
fn sample_outside_the_grid_is_empty() {
    let g = grid_of(2, 1, &[(5, 65), (6, 66)]);
    assert_eq!(g.sample(-1, 0), (1, 0));
    assert_eq!(g.sample(0, -1), (1, 0));
    assert_eq!(g.sample(2, 0), (1, 0));
    assert_eq!(g.sample(0, 1), (1, 0));
    assert_eq!(g.sample(isize::MIN, isize::MIN), (1, 0));
    assert_eq!(g.sample(isize::MAX, isize::MAX), (1, 0));
    assert_eq!(g.get(usize::MAX, 0), (1, 0));
    assert_eq!(g.get(0, usize::MAX), (1, 0));
}

#[test]
fn an_empty_grid_has_no_cell() {
    let g = GridView::new(0, 0, 3, vec![]).unwrap();
    assert_eq!(g.sample(0, 0), (1, 0));
    assert_eq!(g.find_malformed(), None);
}

#[test]
fn neighbors_are_read_in_the_four_directions() {
    let g = grid_of(
        3,
        3,
        &[(0, 1), (0, 2), (0, 3), (0, 4), (0, 5), (0, 6), (0, 7), (0, 8), (0, 9)],
    );
    assert_eq!(g.neighbors(1, 1), Neighbors { up: 2, right: 6, down: 8, left: 4 });
}

#[test]
fn neighbors_beyond_the_edge_have_no_connectivity() {
    let g = grid_of(2, 2, &[(0, 1), (0, 2), (0, 3), (0, 4)]);
    assert_eq!(g.neighbors(0, 0), Neighbors { up: 0, right: 2, down: 3, left: 0 });
    assert_eq!(g.neighbors(1, 1), Neighbors { up: 2, right: 0, down: 0, left: 3 });
    assert_eq!(g.neighbors(usize::MAX, usize::MAX), Neighbors { up: 0, right: 0, down: 0, left: 0 });
}

#[test]
fn find_malformed_accepts_codes_up_to_seven() {
    let g = grid_of(4, 2, &[(0, 0), (1, 0), (2, 0), (3, 0), (4, 0), (5, 0), (6, 0), (7, 255)]);
    assert_eq!(g.find_malformed(), None);
}

#[test]
fn find_malformed_reports_the_first_in_reading_order() {
    let g = grid_of(3, 2, &[(0, 0), (1, 0), (8, 0), (200, 0), (2, 0), (9, 0)]);
    assert_eq!(g.find_malformed(), Some((2, 0)));
    let g = grid_of(3, 2, &[(0, 0), (1, 0), (7, 0), (2, 0), (255, 64), (9, 0)]);
    assert_eq!(g.find_malformed(), Some((1, 1)));
}
