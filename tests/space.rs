use movement1::Space;

#[test]
fn all_valid_spaces() {
    for i in 0..40 {
        let _space = Space::new_at(i);
    }
}

#[test]
fn forward_move_by() {
    let mut space = Space::new();
    space.move_by(5);
    assert_eq!(space, Space(5));
}

#[test]
fn backward_move_by() {
    let mut space = Space::new_at(10);
    space.move_by(-5);
    assert_eq!(space, Space(5));
}

#[test]
fn forward_move_by_past_go() {
    let mut space = Space::new_at(35);
    space.move_by(10);
    assert_eq!(space, Space(5))
}

#[test]
fn backward_move_by_past_go() {
    let mut space = Space::new_at(2);
    space.move_by(-3);
    assert_eq!(space, Space(39));
}

#[test]
fn all_valid_move_to() {
    let mut space = Space::new();
    for i in 0..40 {
        space.move_to(i);
        assert_eq!(space, Space(i));
    }
}

#[test]
fn move_by_wraps_for_every_position_and_delta() {
    for p in 0..40i8 {
        for d in -12..=12i8 {
            let mut space = Space::new_at(p);
            space.move_by(d);
            let expected = ((p as i32 + d as i32).rem_euclid(40)) as i8;
            assert_eq!(space.value(), expected);
            assert!(space.value() >= 0 && space.value() <= 39);
        }
    }
}

#[test]
fn move_by_largest_roll_and_back() {
    let mut space = Space::new_at(39);
    space.move_by(12);
    assert_eq!(space.value(), 11);
    space.move_by(-12);
    assert_eq!(space.value(), 39);
}

#[test]
fn move_to_reads_back() {
    let mut space = Space::new_at(20);
    space.move_to(0);
    assert_eq!(space.value(), 0);
    space.move_to(39);
    assert_eq!(space.value(), 39);
}
