//! The player: a handle on one side of the field that moves up and down, and
//! the score of the one who moves it.

use crate::ball::{Rect, rect_of};
use crate::units::{length, progress, saturate};
use crate::units::{lemma_progress_sign, saturated, spec_length, spec_progress};
use vstd::prelude::*;

verus! {

/// The margin between a player's handle and its edge of the field.
pub const PLAYER_MARGIN: i64 = 10_000;

/// The width of every player's handle.
pub const PLAYER_WIDTH: i64 = 10_000;

/// The height of every player's handle.
pub const PLAYER_HEIGHT: i64 = 60_000;

/// The speed of a player at the start, and again after each point won.
pub const SPEED: i64 = 150_000;

/// The direction of a player's movement.
#[derive(Clone, Copy, Debug, PartialEq, Eq, Structural)]
pub enum Movement {
    /// Move the handle down.
    Down,
    /// Do not move.
    Still,
    /// Move the handle up.
    Up,
}

/// The side of the field that a player plays on.
#[derive(Clone, Copy, Debug, PartialEq, Eq, Structural)]
pub enum FieldSide {
    /// The player plays on the left side of the field.
    Left,
    /// The player plays on the right side of the field.
    Right,
}

impl FieldSide {
    /// Where the left edge of a handle of the given width lies on this side
    /// of a field of the given width.
    pub open spec fn x_position(self, player_width: int, field_width: int) -> int {
        match self {
            FieldSide::Left => PLAYER_MARGIN as int,
            FieldSide::Right => saturated(spec_length(field_width) - player_width - PLAYER_MARGIN),
        }
    }

    /// The x position of a handle on this side, which depends on the width of
    /// the handle and of the field.
    pub fn get_x_position(&self, player_width: i64, field_width: u32) -> (x: i64)
        ensures
            x == self.x_position(player_width as int, field_width as int),
    {
        match *self {
            FieldSide::Left => PLAYER_MARGIN,
            FieldSide::Right => saturate(
                (length(field_width) as i128) - (player_width as i128) - (PLAYER_MARGIN as i128),
            ),
        }
    }
}

/// The state of a player.
pub struct PlayerView {
    /// The side of the field that the player plays on.
    pub side: FieldSide,
    /// The current direction of movement.
    pub movement: Movement,
    /// The upper left corner of the handle: `(x, y)`.
    pub position: (int, int),
    /// The points won so far.
    pub score: int,
    /// The current speed along the y axis.
    pub speed: int,
}

impl PlayerView {
    /// The player at the start of a game in a field of the given width.
    pub open spec fn initial(side: FieldSide, field_width: int) -> PlayerView {
        PlayerView {
            side,
            movement: Movement::Still,
            position: (side.x_position(PLAYER_WIDTH as int, field_width), 0),
            score: 0,
            speed: SPEED as int,
        }
    }

    /// The four edges of the handle.
    pub open spec fn bounding_box(self) -> Rect {
        Rect {
            left: self.position.0,
            top: self.position.1,
            right: saturated(self.position.0 + PLAYER_WIDTH),
            bottom: saturated(self.position.1 + PLAYER_HEIGHT),
        }
    }

    /// The handle lies between the upper and the lower edge of a field of the
    /// given height.
    pub open spec fn is_inside(self, height: int) -> bool {
        0 <= self.position.1 && self.position.1 + PLAYER_HEIGHT <= spec_length(height)
    }

    /// The y position after `dt` of movement in a field of the given height.
    /// Moving down stops where the handle touches the lower edge, moving up
    /// where it touches the upper edge.
    pub open spec fn moved_y(self, dt: int, height: int) -> int {
        match self.movement {
            Movement::Down => {
                let y = self.position.1 + spec_progress(self.speed, dt);
                if y + PLAYER_HEIGHT > spec_length(height) {
                    spec_length(height) - PLAYER_HEIGHT
                } else {
                    saturated(y)
                }
            },
            Movement::Up => {
                let y = self.position.1 - spec_progress(self.speed, dt);
                if y < 0 {
                    0
                } else {
                    saturated(y)
                }
            },
            Movement::Still => self.position.1,
        }
    }

    /// The player after `dt` of movement in a field of the given height.
    pub open spec fn moved(self, dt: int, height: int) -> PlayerView {
        PlayerView { position: (self.position.0, self.moved_y(dt, height)), ..self }
    }

    /// `score` and `points` together, kept within the range of `isize`.
    pub open spec fn sum_of_points(score: int, points: int) -> int {
        if score + points > isize::MAX {
            isize::MAX as int
        } else if score + points < isize::MIN {
            isize::MIN as int
        } else {
            score + points
        }
    }

    /// The player after `points` were added to the score: the speed is back
    /// at its start.
    pub open spec fn scored(self, points: int) -> PlayerView {
        PlayerView {
            score: Self::sum_of_points(self.score, points),
            speed: SPEED as int,
            ..self
        }
    }

    /// The player with the speed changed by `amount`.
    pub open spec fn sped_up(self, amount: int) -> PlayerView {
        PlayerView { speed: saturated(self.speed + amount), ..self }
    }

    /// The player in a field of a new width.
    pub open spec fn repositioned(self, field_width: int) -> PlayerView {
        PlayerView {
            position: (self.side.x_position(PLAYER_WIDTH as int, field_width), self.position.1),
            ..self
        }
    }
}

/// The player.
#[derive(Clone, Copy, Debug)]
pub struct Player {
    /// The side of the field that the player plays on.
    field_side: FieldSide,
    /// The current direction of movement.
    movement: Movement,
    /// The upper left corner of the handle: `(x, y)`.
    position: (i64, i64),
    /// The points that the player has won so far.
    score: isize,
    /// The current speed; a player moves along the y axis only.
    speed: i64,
}

impl View for Player {
    type V = PlayerView;

    closed spec fn view(&self) -> PlayerView {
        PlayerView {
            side: self.field_side,
            movement: self.movement,
            position: (self.position.0 as int, self.position.1 as int),
            score: self.score as int,
            speed: self.speed as int,
        }
    }
}

impl Player {
    /// A new player on the given side of a field of the given width, at the
    /// upper edge, at rest and without a point.
    pub fn new(side: FieldSide, field_width: u32) -> (player: Player)
        ensures
            player@ == PlayerView::initial(side, field_width as int),
    {
        let x: i64 = side.get_x_position(PLAYER_WIDTH, field_width);
        Player { field_side: side, movement: Movement::Still, position: (x, 0), score: 0, speed: SPEED }
    }

    /// Changes the player's speed by `amount`.
    pub fn change_speed(&mut self, amount: i64)
        ensures
            final(self)@ == old(self)@.sped_up(amount as int),
    {
        self.speed = saturate((self.speed as i128) + (amount as i128));
    }

    /// The bounding box of the handle: `[left, top, right, bottom]`.
    pub fn get_bounding_box(&self) -> (bounding_box: [i64; 4])
        ensures
            rect_of(bounding_box) == self@.bounding_box(),
    {
        [
            self.position.0,
            self.position.1,
            saturate((self.position.0 as i128) + (PLAYER_WIDTH as i128)),
            saturate((self.position.1 as i128) + (PLAYER_HEIGHT as i128)),
        ]
    }

    /// The player's score.
    pub fn get_score(&self) -> (score: isize)
        ensures
            score == self@.score,
    {
        self.score
    }

    /// The side of the field that the player plays on.
    pub fn side(&self) -> (side: FieldSide)
        ensures
            side == self@.side,
    {
        self.field_side
    }

    /// The current direction of movement.
    pub fn movement(&self) -> (movement: Movement)
        ensures
            movement == self@.movement,
    {
        self.movement
    }

    /// The upper left corner of the handle.
    pub fn position(&self) -> (p: (i64, i64))
        ensures
            self@.position == (p.0 as int, p.1 as int),
    {
        self.position
    }

    /// The size of the handle: `(width, height)`.
    pub fn size(&self) -> (s: (i64, i64))
        ensures
            s == (PLAYER_WIDTH, PLAYER_HEIGHT),
    {
        (PLAYER_WIDTH, PLAYER_HEIGHT)
    }

    /// The current speed.
    pub fn speed(&self) -> (speed: i64)
        ensures
            speed == self@.speed,
    {
        self.speed
    }

    /// Sets the direction of movement.
    pub fn set_movement(&mut self, movement: Movement)
        ensures
            final(self)@ == (PlayerView { movement, ..old(self)@ }),
    {
        self.movement = movement;
    }

    /// Puts the handle at `position`.
    pub fn set_position(&mut self, position: (i64, i64))
        ensures
            final(self)@ == (PlayerView {
                position: (position.0 as int, position.1 as int),
                ..old(self)@
            }),
    {
        self.position = position;
    }

    /// Sets the speed.
    pub fn set_speed(&mut self, speed: i64)
        ensures
            final(self)@ == (PlayerView { speed: speed as int, ..old(self)@ }),
    {
        self.speed = speed;
    }

    /// Sets the score.
    pub fn set_score(&mut self, score: isize)
        ensures
            final(self)@ == (PlayerView { score: score as int, ..old(self)@ }),
    {
        self.score = score;
    }

    /// Moves the handle for the time step `dt` in a field of the given
    /// height.
    pub fn update(&mut self, dt: u64, height: u32)
        ensures
            final(self)@ == old(self)@.moved(dt as int, height as int),
    {
        let y: i128 = self.position.1 as i128;
        let floor: i128 = length(height) as i128;
        let size: i128 = PLAYER_HEIGHT as i128;
        match self.movement {
            Movement::Down => {
                let moved: i128 = y + progress(self.speed, dt);
                self.position.1 = if moved + size > floor {
                    (floor - size) as i64
                } else {
                    saturate(moved)
                };
            },
            Movement::Up => {
                let moved: i128 = y - progress(self.speed, dt);
                self.position.1 = if moved < 0 {
                    0
                } else {
                    saturate(moved)
                };
            },
            Movement::Still => {},
        }
    }

    /// Adds `additional_points` to the score. A score that would leave the
    /// range of `isize` stays at the bound it would cross. The speed goes back
    /// to its start.
    pub fn update_score(&mut self, additional_points: isize)
        ensures
            final(self)@ == old(self)@.scored(additional_points as int),
    {
        match self.score.checked_add(additional_points) {
            Some(new_score) => {
                self.score = new_score;
            },
            None => {
                if additional_points >= 0 {
                    self.score = isize::MAX;
                } else {
                    self.score = isize::MIN;
                }
            },
        }
        self.speed = SPEED;
    }

    /// Puts the handle where its side is in a field of the width
    /// `new_field_width`.
    pub fn update_position(&mut self, new_field_width: u32)
        ensures
            final(self)@ == old(self)@.repositioned(new_field_width as int),
    {
        self.position.0 = self.field_side.get_x_position(PLAYER_WIDTH, new_field_width);
    }
}

/// A player whose speed is not negative moves within the field. For every
/// time step and every handle whose lower end is inside the field: moving
/// down ends at or below where the handle was, with its lower end still
/// inside the field; moving up from inside the field ends between the upper
/// edge and where the handle was; and a player that does not move stays where
/// it is. Nothing but the y position changes, and a handle that was between
/// the upper and the lower edge of the field is there afterwards.
pub proof fn lemma_moved_stays_inside(player: PlayerView, dt: int, height: int)
    requires
        dt >= 0,
        i64::MIN <= player.position.1 <= i64::MAX,
        player.speed >= 0,
        player.position.1 + PLAYER_HEIGHT <= spec_length(height),
        player.movement == Movement::Up ==> player.position.1 >= 0,
    ensures
        player.moved(dt, height) == (PlayerView {
            position: (player.position.0, player.moved(dt, height).position.1),
            ..player
        }),
        player.movement == Movement::Up ==> 0 <= player.moved(dt, height).position.1
            <= player.position.1,
        player.movement == Movement::Down ==> player.position.1 <= player.moved(
            dt,
            height,
        ).position.1 && player.moved(dt, height).position.1 + PLAYER_HEIGHT <= spec_length(height),
        player.movement == Movement::Still ==> player.moved(dt, height) == player,
        player.is_inside(height) ==> player.moved(dt, height).is_inside(height),
{
    lemma_progress_sign(player.speed, dt);
}

/// The score never leaves the range of `isize`, and points move it the way
/// they point: points above zero never lower the score and raise it unless it
/// is at the upper bound, points below zero never raise it and lower it
/// unless it is at the lower bound, and no points leave it as it is. Whatever
/// the points, the speed is back at its start.
pub proof fn lemma_scored_saturates(player: PlayerView, points: int)
    requires
        isize::MIN <= player.score <= isize::MAX,
        isize::MIN <= points <= isize::MAX,
    ensures
        isize::MIN <= player.scored(points).score <= isize::MAX,
        points > 0 ==> player.scored(points).score >= player.score,
        points > 0 && player.score < isize::MAX ==> player.scored(points).score > player.score,
        points < 0 ==> player.scored(points).score <= player.score,
        points < 0 && player.score > isize::MIN ==> player.scored(points).score < player.score,
        points == 0 ==> player.scored(points).score == player.score,
        player.scored(points).speed == SPEED,
{
}

} // verus!
