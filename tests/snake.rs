use snake_game::snake::{Block, Direction, Snake};

fn cells(s: &Snake) -> Vec<(i32, i32)> {
    s.body.iter().map(|b| (b.x, b.y)).collect()
}

#[test]
fn opposite_is_an_involution() {
    let all = [Direction::Up, Direction::Down, Direction::Left, Direction::Right];
    assert_eq!(Direction::Up.opposite(), Direction::Down);
    assert_eq!(Direction::Down.opposite(), Direction::Up);
    assert_eq!(Direction::Left.opposite(), Direction::Right);
    assert_eq!(Direction::Right.opposite(), Direction::Left);
    for d in all {
        assert_eq!(d.opposite().opposite(), d);
        assert_ne!(d.opposite(), d);
    }
}

#[test]
fn new_snake_has_three_segments_heading_right() {
    let s = Snake::new(2, 2);
    assert_eq!(cells(&s), vec![(4, 2), (3, 2), (2, 2)]);
    assert_eq!(s.head_position(), (4, 2));
    assert_eq!(s.head_direction(), Direction::Right);
    assert!(s.tail.is_none());
}

#[test]
fn next_head_looks_ahead_without_moving() {
    let s = Snake::new(2, 2);
    assert_eq!(s.next_head(None), (5, 2));
    assert_eq!(s.next_head(Some(Direction::Up)), (4, 1));
    assert_eq!(s.next_head(Some(Direction::Down)), (4, 3));
    assert_eq!(s.next_head(Some(Direction::Left)), (3, 2));
    assert_eq!(cells(&s), vec![(4, 2), (3, 2), (2, 2)]);
    assert_eq!(s.head_direction(), Direction::Right);
}

#[test]
fn move_forward_shifts_body_and_keeps_removed_tail() {
    let mut s = Snake::new(2, 2);
    s.move_foward(None);
    assert_eq!(cells(&s), vec![(5, 2), (4, 2), (3, 2)]);
    assert_eq!(s.tail, Some(Block { x: 2, y: 2 }));
    s.move_foward(Some(Direction::Down));
    assert_eq!(s.head_direction(), Direction::Down);
    assert_eq!(cells(&s), vec![(5, 3), (5, 2), (4, 2)]);
    assert_eq!(s.tail, Some(Block { x: 3, y: 2 }));
}

#[test]
fn restore_tail_grows_by_the_removed_segment() {
    let mut s = Snake::new(2, 2);
    s.move_foward(None);
    s.restore_tail();
    assert_eq!(cells(&s), vec![(5, 2), (4, 2), (3, 2), (2, 2)]);
}

#[test]
fn overlap_tails_skips_the_last_segment() {
    let s = Snake::new(2, 2);
    assert!(s.overlap_tails(4, 2));
    assert!(s.overlap_tails(3, 2));
    assert!(!s.overlap_tails(2, 2));
    assert!(!s.overlap_tails(5, 2));
    assert!(!s.overlap_tails(4, 3));
}

#[test]
fn overlap_tails_on_a_longer_snake() {
    let mut s = Snake::new(2, 2);
    s.move_foward(None);
    s.restore_tail();
    assert!(s.overlap_tails(3, 2));
    assert!(!s.overlap_tails(2, 2));
}
