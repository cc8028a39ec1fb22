use mief::player::{FieldSide, Movement, Player};
use mief::player::{PLAYER_HEIGHT, PLAYER_MARGIN, PLAYER_WIDTH, SPEED};
use mief::units::{SECOND, UNIT};

#[test]
fn get_x_position_left() {
    let side = FieldSide::Left;
    let x: i64 = side.get_x_position(20 * UNIT, 50);
    assert_eq!(x, PLAYER_MARGIN);
}

#[test]
fn get_x_position_right() {
    let side = FieldSide::Right;
    let x: i64 = side.get_x_position(20 * UNIT, 50);
    assert_eq!(x, 30 * UNIT - PLAYER_MARGIN);
}

#[test]
fn get_x_position_saturates() {
    assert_eq!(FieldSide::Right.get_x_position(i64::MIN, u32::MAX), i64::MAX);
    assert_eq!(FieldSide::Right.get_x_position(i64::MAX, 0), i64::MIN);
    assert_eq!(FieldSide::Left.get_x_position(i64::MAX, 0), 10 * UNIT);
    assert_eq!(FieldSide::Right.get_x_position(0, 0), -10 * UNIT);
}

#[test]
fn player_new() {
    let player = Player::new(FieldSide::Left, 42);
    assert_eq!(player.movement(), Movement::Still);
    assert_eq!(player.position(), (PLAYER_MARGIN, 0));
    assert_eq!(player.get_score(), 0);
    assert_eq!(player.size(), (10 * UNIT, 60 * UNIT));
    assert_eq!(player.speed(), 150 * UNIT);
}

#[test]
fn player_new_on_the_right() {
    let player = Player::new(FieldSide::Right, 800);
    assert_eq!(player.side(), FieldSide::Right);
    assert_eq!(player.movement(), Movement::Still);
    assert_eq!(player.position(), (780 * UNIT, 0));
    assert_eq!(player.get_score(), 0);
    assert_eq!(player.size(), (PLAYER_WIDTH, PLAYER_HEIGHT));
    assert_eq!(player.speed(), SPEED);
    assert_eq!(Player::new(FieldSide::Left, 800).side(), FieldSide::Left);
}

#[test]
fn change_speed() {
    let mut player = Player::new(FieldSide::Left, 42);
    player.set_speed(42 * UNIT);
    player.change_speed(10 * UNIT);
    assert_eq!(player.speed(), 52 * UNIT);
}

#[test]
fn change_speed_saturates() {
    let mut player = Player::new(FieldSide::Left, 42);
    player.set_speed(i64::MAX - 5);
    player.change_speed(10 * UNIT);
    assert_eq!(player.speed(), i64::MAX);
    player.set_speed(i64::MIN + 5);
    player.change_speed(-10 * UNIT);
    assert_eq!(player.speed(), i64::MIN);
    player.set_speed(150 * UNIT);
    player.change_speed(-160 * UNIT);
    assert_eq!(player.speed(), -10 * UNIT);
}

#[test]
fn get_bounding_box() {
    let player = Player::new(FieldSide::Left, 42);
    let bounding_box = player.get_bounding_box();
    assert_eq!(bounding_box[0], PLAYER_MARGIN);
    assert_eq!(bounding_box[1], 0);
    assert_eq!(bounding_box[2], PLAYER_MARGIN + 10 * UNIT);
    assert_eq!(bounding_box[3], 60 * UNIT);
}

#[test]
fn get_bounding_box_saturates() {
    let mut player = Player::new(FieldSide::Left, 42);
    player.set_position((i64::MAX - 3, i64::MAX));
    assert_eq!(player.get_bounding_box(), [i64::MAX - 3, i64::MAX, i64::MAX, i64::MAX]);
    player.set_position((i64::MIN, -60 * UNIT));
    assert_eq!(player.get_bounding_box(), [i64::MIN, -60 * UNIT, i64::MIN + 10 * UNIT, 0]);
}

#[test]
fn get_score() {
    let mut player = Player::new(FieldSide::Left, 42);
    let score: isize = 42;
    player.set_score(score);
    assert_eq!(player.get_score(), score);
}

#[test]
fn set_movement_takes_every_direction() {
    for movement in [Movement::Down, Movement::Up, Movement::Still] {
        let mut player = Player::new(FieldSide::Left, 42);
        player.set_movement(movement);
        assert_eq!(player.movement(), movement);
        assert_eq!(player.position(), (PLAYER_MARGIN, 0));
        assert_eq!(player.speed(), SPEED);
        assert_eq!(player.get_score(), 0);
        assert_eq!(player.side(), FieldSide::Left);
    }
}

#[test]
fn update_moves_down_by_speed_times_time() {
    let mut player = Player::new(FieldSide::Left, 800);
    player.set_movement(Movement::Down);
    player.update(SECOND / 10, 480);
    assert_eq!(player.position(), (10 * UNIT, 15 * UNIT));
    player.update(SECOND / 120, 480);
    // 150 units per second for 8333 microseconds: 1.24995 units, rounded
    // towards zero to the thousandth.
    assert_eq!(player.position(), (10 * UNIT, 15 * UNIT + 1_249));
}

#[test]
fn update_moves_up_by_speed_times_time() {
    let mut player = Player::new(FieldSide::Right, 800);
    player.set_position((780 * UNIT, 100 * UNIT));
    player.set_movement(Movement::Up);
    player.update(SECOND / 10, 480);
    assert_eq!(player.position(), (780 * UNIT, 85 * UNIT));
    player.update(SECOND / 120, 480);
    assert_eq!(player.position(), (780 * UNIT, 85 * UNIT - 1_249));
}

#[test]
fn update_stops_at_the_lower_edge() {
    let mut player = Player::new(FieldSide::Left, 800);
    player.set_position((10 * UNIT, 410 * UNIT));
    player.set_movement(Movement::Down);
    player.update(SECOND / 10, 480);
    assert_eq!(player.position(), (10 * UNIT, 420 * UNIT));
    player.update(SECOND, 480);
    assert_eq!(player.position(), (10 * UNIT, 420 * UNIT));
    player.update(u64::MAX, 480);
    assert_eq!(player.position(), (10 * UNIT, 420 * UNIT));
}

#[test]
fn update_stops_at_the_upper_edge() {
    let mut player = Player::new(FieldSide::Left, 800);
    player.set_position((10 * UNIT, 10 * UNIT));
    player.set_movement(Movement::Up);
    player.update(SECOND / 10, 480);
    assert_eq!(player.position(), (10 * UNIT, 0));
    player.update(u64::MAX, 480);
    assert_eq!(player.position(), (10 * UNIT, 0));
}

#[test]
fn update_without_movement_changes_nothing() {
    let mut player = Player::new(FieldSide::Left, 800);
    player.set_position((3, 1000 * UNIT));
    player.update(SECOND, 480);
    assert_eq!(player.position(), (3, 1000 * UNIT));
    assert_eq!(player.movement(), Movement::Still);
}

#[test]
fn update_keeps_the_handle_inside_the_field() {
    let height: u32 = 480;
    let lowest: i64 = (height as i64) * UNIT - PLAYER_HEIGHT;
    for start in [0, 1, 209_999, 210_000, lowest - 1, lowest] {
        for dt in [0, 1, 8_333, SECOND / 10, SECOND, 3600 * SECOND, u64::MAX] {
            for speed in [0, 1, SPEED, 100 * SPEED, i64::MAX] {
                let mut player = Player::new(FieldSide::Left, 800);
                player.set_position((10 * UNIT, start));
                player.set_speed(speed);

                let mut up = player;
                up.set_movement(Movement::Up);
                up.update(dt, height);
                assert_eq!(up.position().0, 10 * UNIT);
                assert!(0 <= up.position().1 && up.position().1 <= start);

                let mut down = player;
                down.set_movement(Movement::Down);
                down.update(dt, height);
                assert_eq!(down.position().0, 10 * UNIT);
                assert!(start <= down.position().1 && down.position().1 <= lowest);

                let mut still = player;
                still.update(dt, height);
                assert_eq!(still.position(), (10 * UNIT, start));
            }
        }
    }
}

#[test]
fn update_with_a_negative_speed_moves_the_other_way() {
    let mut player = Player::new(FieldSide::Left, 800);
    player.set_position((10 * UNIT, 100 * UNIT));
    player.set_speed(-150 * UNIT);
    player.set_movement(Movement::Down);
    player.update(SECOND, 480);
    // Moving down stops at the lower edge only.
    assert_eq!(player.position(), (10 * UNIT, -50 * UNIT));
    player.set_movement(Movement::Up);
    player.update(SECOND, 480);
    assert_eq!(player.position(), (10 * UNIT, 100 * UNIT));
    player.set_speed(i64::MIN);
    player.update(u64::MAX, 480);
    assert_eq!(player.position(), (10 * UNIT, i64::MAX));
    player.set_position((10 * UNIT, 0));
    player.set_movement(Movement::Down);
    player.update(u64::MAX, 480);
    assert_eq!(player.position(), (10 * UNIT, i64::MIN));
}

#[test]
fn update_score_adds_points_and_resets_the_speed() {
    let cases: [(isize, isize, isize); 8] = [
        (0, 0, 0),
        (0, 1, 1),
        (41, 1, 42),
        (42, -42, 0),
        (-7, -8, -15),
        (isize::MAX - 1, 1, isize::MAX),
        (isize::MIN + 1, -1, isize::MIN),
        (isize::MIN, isize::MAX, -1),
    ];
    for (old_score, additional_points, expected) in cases {
        for speed in [0, SPEED, 170 * UNIT, -5, i64::MAX] {
            let mut player = Player::new(FieldSide::Left, 42);
            player.set_speed(speed);
            player.set_score(old_score);
            player.update_score(additional_points);
            assert_eq!(player.get_score(), expected);
            assert_eq!(player.speed(), 150 * UNIT);
            assert_eq!(player.position(), (PLAYER_MARGIN, 0));
        }
    }
}

#[test]
fn update_score_upper_overflow() {
    let mut player = Player::new(FieldSide::Left, 42);
    player.set_score(isize::MAX);
    player.update_score(1);
    assert_eq!(player.get_score(), isize::MAX);
}

#[test]
fn update_score_lower_overflow() {
    let mut player = Player::new(FieldSide::Left, 42);
    player.set_score(isize::MIN);
    player.update_score(-1);
    assert_eq!(player.get_score(), isize::MIN);
}

#[test]
fn update_score_saturates_far_beyond_the_bounds() {
    let mut player = Player::new(FieldSide::Left, 42);
    player.set_score(isize::MAX - 3);
    player.update_score(isize::MAX);
    assert_eq!(player.get_score(), isize::MAX);
    player.set_score(isize::MIN + 3);
    player.update_score(isize::MIN);
    assert_eq!(player.get_score(), isize::MIN);
}

#[test]
fn update_position() {
    let mut player = Player::new(FieldSide::Right, 42);
    player.update_position(60);
    assert_eq!(player.position(), (50 * UNIT - PLAYER_MARGIN, 0));
}

#[test]
fn update_position_keeps_the_left_player_at_the_margin() {
    let mut player = Player::new(FieldSide::Left, 42);
    player.set_position((PLAYER_MARGIN, 77 * UNIT));
    player.update_position(6000);
    assert_eq!(player.position(), (PLAYER_MARGIN, 77 * UNIT));
}
