use sprite_motion::{Bounds, Buttons, Direction, Sprite};

fn screen() -> Bounds {
    Bounds::new(240, 160, 16, 16).expect("a 16 by 16 sprite fits on a 240 by 160 screen")
}

fn only(dir: Direction) -> Buttons {
    let mut b = Buttons::none();
    match dir {
        Direction::UP => b.up = true,
        Direction::DOWN => b.down = true,
        Direction::LEFT => b.left = true,
        Direction::RIGHT => b.right = true,
    }
    b
}

#[test]
fn update_pos_moves_one_axis_by_the_velocity() {
    let mut s = Sprite::new(50, 60, 3);
    s.update_pos(Direction::LEFT);
    assert_eq!((s.x(), s.y(), s.velocity()), (47, 60, 3));
    s.update_pos(Direction::RIGHT);
    assert_eq!((s.x(), s.y()), (50, 60));
    s.update_pos(Direction::UP);
    assert_eq!((s.x(), s.y()), (50, 57));
    s.update_pos(Direction::DOWN);
    s.update_pos(Direction::DOWN);
    assert_eq!((s.x(), s.y(), s.velocity()), (50, 63, 3));
}

#[test]
fn update_pos_does_not_look_at_the_boundary() {
    let mut s = Sprite::new(0, 0, 1);
    s.update_pos(Direction::LEFT);
    s.update_pos(Direction::UP);
    assert_eq!((s.x(), s.y()), (-1, -1));
}

#[test]
fn guard_is_false_at_each_limit_only() {
    let b = screen();
    let origin = Sprite::new(0, 0, 1);
    assert!(!origin.can_move(Direction::UP, &b));
    assert!(!origin.can_move(Direction::LEFT, &b));
    assert!(origin.can_move(Direction::DOWN, &b));
    assert!(origin.can_move(Direction::RIGHT, &b));
    let corner = Sprite::new(224, 144, 1);
    assert!(corner.can_move(Direction::UP, &b));
    assert!(corner.can_move(Direction::LEFT, &b));
    assert!(!corner.can_move(Direction::DOWN, &b));
    assert!(!corner.can_move(Direction::RIGHT, &b));
    let inside = Sprite::new(223, 143, 1);
    assert!(inside.can_move(Direction::DOWN, &b));
    assert!(inside.can_move(Direction::RIGHT, &b));
}

#[test]
fn try_move_reports_whether_it_moved() {
    let b = screen();
    let mut s = Sprite::new(223, 1, 1);
    assert!(s.try_move(Direction::RIGHT, &b));
    assert_eq!((s.x(), s.y()), (224, 1));
    assert!(!s.try_move(Direction::RIGHT, &b));
    assert_eq!((s.x(), s.y()), (224, 1));
    assert!(s.try_move(Direction::UP, &b));
    assert_eq!((s.x(), s.y()), (224, 0));
    assert!(!s.try_move(Direction::UP, &b));
    assert_eq!((s.x(), s.y()), (224, 0));
}

#[test]
fn right_presses_stop_at_width_less_extent() {
    let b = screen();
    let mut s = Sprite::new(50, 50, 1);
    for frame in 1..=189 {
        s.apply(only(Direction::RIGHT), &b);
        let expected = if frame < 174 { 50 + frame } else { 224 };
        assert_eq!(s.x(), expected);
        assert_eq!(s.y(), 50);
    }
    assert_eq!(s.x(), 224);
    for _ in 0..10 {
        s.apply(only(Direction::RIGHT), &b);
        assert_eq!((s.x(), s.y()), (224, 50));
    }
}

#[test]
fn down_presses_stop_at_height_less_extent() {
    let b = screen();
    let mut s = Sprite::new(50, 50, 1);
    for frame in 1..=109 {
        s.apply(only(Direction::DOWN), &b);
        let expected = if frame < 94 { 50 + frame } else { 144 };
        assert_eq!(s.y(), expected);
        assert_eq!(s.x(), 50);
    }
    assert_eq!(s.y(), 144);
    for _ in 0..10 {
        s.apply(only(Direction::DOWN), &b);
        assert_eq!((s.x(), s.y()), (50, 144));
    }
}

#[test]
fn left_and_up_are_blocked_at_the_origin() {
    let b = screen();
    let mut s = Sprite::new(0, 0, 1);
    s.apply(only(Direction::LEFT), &b);
    assert_eq!((s.x(), s.y()), (0, 0));
    s.apply(only(Direction::UP), &b);
    assert_eq!((s.x(), s.y()), (0, 0));
    s.apply(Buttons { up: true, down: false, left: true, right: false }, &b);
    assert_eq!((s.x(), s.y()), (0, 0));
}

#[test]
fn idle_frames_leave_the_position() {
    let b = screen();
    let mut s = Sprite::new(112, 72, 1);
    for _ in 0..500 {
        s.apply(Buttons::none(), &b);
        assert_eq!((s.x(), s.y(), s.velocity()), (112, 72, 1));
    }
}

#[test]
fn diagonal_input_moves_both_axes_once() {
    let b = screen();
    let mut s = Sprite::new(100, 100, 2);
    s.apply(Buttons { up: true, down: false, left: false, right: true }, &b);
    assert_eq!((s.x(), s.y()), (102, 98));
    s.apply(Buttons { up: false, down: true, left: true, right: false }, &b);
    assert_eq!((s.x(), s.y()), (100, 100));
}

#[test]
fn opposite_buttons_cancel_inside_the_screen() {
    let b = screen();
    let mut s = Sprite::new(100, 100, 4);
    s.apply(Buttons { up: true, down: true, left: true, right: true }, &b);
    assert_eq!((s.x(), s.y()), (100, 100));
}

#[test]
fn opposite_buttons_at_a_limit_move_away_from_it() {
    let b = screen();
    let mut low = Sprite::new(0, 0, 1);
    low.apply(Buttons { up: true, down: true, left: true, right: true }, &b);
    assert_eq!((low.x(), low.y()), (1, 1));
    let mut high = Sprite::new(224, 144, 1);
    high.apply(Buttons { up: true, down: true, left: true, right: true }, &b);
    assert_eq!((high.x(), high.y()), (224, 144));
}

#[test]
fn every_frame_of_a_walk_round_the_screen_is_on_screen() {
    let b = screen();
    let mut s = Sprite::new(112, 72, 8);
    assert!(s.is_steady(&b));
    let legs = [
        (Direction::RIGHT, 40),
        (Direction::DOWN, 40),
        (Direction::LEFT, 60),
        (Direction::UP, 60),
    ];
    for (dir, frames) in legs {
        for _ in 0..frames {
            let before = (s.x(), s.y());
            s.apply(only(dir), &b);
            assert!(0 <= s.x() && s.x() <= 240 - 16);
            assert!(0 <= s.y() && s.y() <= 160 - 16);
            assert!(s.is_steady(&b));
            let dx = s.x() - before.0;
            let dy = s.y() - before.1;
            assert!(dx == -8 || dx == 0 || dx == 8);
            assert!(dy == -8 || dy == 0 || dy == 8);
        }
    }
    assert_eq!((s.x(), s.y()), (0, 0));
}

#[test]
fn steadiness_asks_for_the_grid_of_the_velocity() {
    let b = screen();
    assert!(Sprite::new(112, 72, 1).is_steady(&b));
    assert!(Sprite::new(112, 72, 8).is_steady(&b));
    assert!(Sprite::new(224, 144, 16).is_steady(&b));
    assert!(Sprite::new(7, 9, 0).is_steady(&b));
    assert!(!Sprite::new(1, 0, 2).is_steady(&b));
    assert!(!Sprite::new(0, 1, 2).is_steady(&b));
    assert!(!Sprite::new(0, 0, 5).is_steady(&b));
    assert!(!Sprite::new(0, 0, -1).is_steady(&b));
    assert!(!Sprite::new(-1, 0, 1).is_steady(&b));
    assert!(!Sprite::new(225, 0, 1).is_steady(&b));
    assert!(!Sprite::new(0, 145, 1).is_steady(&b));
    let no_room = Bounds::new(16, 16, 16, 16).unwrap();
    assert!(Sprite::new(0, 0, -3).is_steady(&no_room));
    assert!(Sprite::new(0, 0, 5).is_steady(&no_room));
    assert!(!Sprite::new(1, 0, 1).is_steady(&no_room));
    let one_axis = Bounds::new(16, 20, 16, 16).unwrap();
    assert!(Sprite::new(0, 4, 2).is_steady(&one_axis));
    assert!(!Sprite::new(0, 4, 3).is_steady(&one_axis));
    assert!(!Sprite::new(0, 0, -1).is_steady(&one_axis));
}

#[test]
fn an_unsteady_sprite_can_be_driven_off_the_screen() {
    let b = screen();
    let mut off_grid = Sprite::new(3, 0, 2);
    off_grid.apply(only(Direction::LEFT), &b);
    assert_eq!(off_grid.x(), 1);
    off_grid.apply(only(Direction::LEFT), &b);
    assert_eq!(off_grid.x(), -1);
    let mut limit_off_grid = Sprite::new(220, 0, 5);
    limit_off_grid.apply(only(Direction::RIGHT), &b);
    assert_eq!(limit_off_grid.x(), 225);
    let mut backwards = Sprite::new(0, 143, -1);
    backwards.apply(only(Direction::UP), &b);
    assert_eq!(backwards.y(), 144);
    backwards.apply(only(Direction::UP), &b);
    assert_eq!(backwards.y(), 145);
    backwards.apply(only(Direction::RIGHT), &b);
    assert_eq!(backwards.x(), -1);
}

#[test]
fn a_sprite_off_the_grid_overshoots_the_limit() {
    let b = screen();
    let mut s = Sprite::new(1, 0, 2);
    s.apply(only(Direction::LEFT), &b);
    assert_eq!(s.x(), -1);
}

#[test]
fn bounds_are_refused_where_the_sprite_does_not_fit() {
    assert!(Bounds::new(240, 160, 16, 16).is_some());
    assert!(Bounds::new(16, 16, 16, 16).is_some());
    assert!(Bounds::new(0, 0, 0, 0).is_some());
    assert!(Bounds::new(240, 160, 241, 16).is_none());
    assert!(Bounds::new(240, 160, 16, 161).is_none());
    assert!(Bounds::new(240, 160, -1, 16).is_none());
    assert!(Bounds::new(240, 160, 16, -1).is_none());
    assert!(Bounds::new(-240, 160, 0, 0).is_none());
}

#[test]
fn bounds_give_the_limits() {
    let b = screen();
    assert_eq!((b.width(), b.height()), (240, 160));
    assert_eq!((b.sprite_width(), b.sprite_height()), (16, 16));
    assert_eq!((b.max_x(), b.max_y()), (224, 144));
    let tight = Bounds::new(16, 20, 16, 16).unwrap();
    assert_eq!((tight.max_x(), tight.max_y()), (0, 4));
}
