use konane::{Occupancy, Papamu, Position};

#[test]
fn position_create_bounds() {
    assert!(Position::new(0, 0).is_some());
    assert!(Position::new(9, 9).is_some());
    assert!(Position::new(3, 7).is_some());
    assert!(Position::new(10, 0).is_none());
    assert!(Position::new(0, 10).is_none());
    assert!(Position::new(255, 255).is_none());
    let p = Position::new(4, 6).unwrap();
    assert_eq!(p.x(), 4);
    assert_eq!(p.y(), 6);
}

#[test]
fn position_set_coordinates() {
    let mut p = Position::new(4, 6).unwrap();
    assert_eq!(p.set_x(2), Some(4));
    assert_eq!(p.x(), 2);
    assert_eq!(p.y(), 6);
    assert_eq!(p.set_x(10), None);
    assert_eq!(p.x(), 2);
    assert_eq!(p.set_y(9), Some(6));
    assert_eq!(p.y(), 9);
    assert_eq!(p.set_y(200), None);
    assert_eq!(p.y(), 9);
}

#[test]
fn midpoint_two_apart_vertical() {
    let a = Position::new(2, 2).unwrap();
    let b = Position::new(2, 4).unwrap();
    let m = a.biadjacency(b).unwrap();
    assert_eq!((m.x(), m.y()), (2, 3));
    let m = b.biadjacency(a).unwrap();
    assert_eq!((m.x(), m.y()), (2, 3));
}

#[test]
fn midpoint_two_apart_horizontal() {
    let a = Position::new(2, 2).unwrap();
    let b = Position::new(4, 2).unwrap();
    let m = a.biadjacency(b).unwrap();
    assert_eq!((m.x(), m.y()), (3, 2));
    let m = b.biadjacency(a).unwrap();
    assert_eq!((m.x(), m.y()), (3, 2));
}

#[test]
fn midpoint_absent_when_not_a_jump() {
    let a = Position::new(2, 2).unwrap();
    assert!(a.biadjacency(Position::new(3, 5).unwrap()).is_none());
    assert!(a.biadjacency(Position::new(2, 3).unwrap()).is_none());
    assert!(a.biadjacency(Position::new(2, 5).unwrap()).is_none());
    assert!(a.biadjacency(Position::new(4, 4).unwrap()).is_none());
    assert!(a.biadjacency(a).is_none());
}

#[test]
fn occupancy_predicates() {
    assert!(Occupancy::Empty.is_empty());
    assert!(!Occupancy::Empty.is_occupied());
    assert!(Occupancy::White.is_occupied());
    assert!(Occupancy::White.is_white());
    assert!(!Occupancy::White.is_nonwhite());
    assert!(Occupancy::White.is_nonblack());
    assert!(Occupancy::Black.is_black());
    assert!(!Occupancy::Black.is_nonblack());
    assert!(Occupancy::Black.is_nonwhite());
}

#[test]
fn board_reads_and_writes() {
    let mut board = Papamu::default();
    let p = Position::new(5, 5).unwrap();
    assert_eq!(board.get(p), Occupancy::Black);
    board.set(p, Occupancy::Empty);
    assert_eq!(board.get(p), Occupancy::Empty);
    board.set(p, Occupancy::White);
    assert_eq!(board.get(p), Occupancy::White);
    // the neighbouring cells are untouched
    assert_eq!(board.get(Position::new(5, 4).unwrap()), Occupancy::White);
    assert_eq!(board.get(Position::new(5, 6).unwrap()), Occupancy::White);
}

#[test]
fn default_layout_checkerboard() {
    let board = Papamu::default();
    for x in 0..10u8 {
        for y in 0..10u8 {
            let p = Position::new(x, y).unwrap();
            let expected = if (x + y) % 2 == 0 {
                Occupancy::Black
            } else {
                Occupancy::White
            };
            assert_eq!(board.get(p), expected);
        }
    }
    assert_eq!(board.get(Position::new(0, 0).unwrap()), Occupancy::Black);
    assert_eq!(board.get(Position::new(1, 0).unwrap()), Occupancy::White);
    assert_eq!(board.get(Position::new(1, 1).unwrap()), Occupancy::Black);
}
