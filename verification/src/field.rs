//! The playing field: it owns the ball and the two players, moves them once
//! per time step, and keeps the score.

use crate::ball::{lemma_updated_keeps_magnitude, lemma_updated_stays_inside};
use crate::ball::{BALL_DIAMETER, Ball, BallStatus, BallView, Rect, rects_of};
use crate::player::lemma_moved_stays_inside;
use crate::player::{FieldSide, Movement, Player, PlayerView};
use crate::units::{magnitude, spec_length};
use vstd::prelude::*;

verus! {

/// The time after which the ball and the players get faster.
pub const SPEED_CHANGE_INTERVAL: u64 = 10_000_000;

/// The amount by which the ball and the players get faster.
pub const SPEED_CHANGE: i64 = 10_000;

/// What a key means to the game.
#[derive(Clone, Copy, Debug, PartialEq, Eq, Structural)]
pub enum Control {
    /// The key that moves the left player up.
    LeftUp,
    /// The key that moves the left player down.
    LeftDown,
    /// The key that moves the right player up.
    RightUp,
    /// The key that moves the right player down.
    RightDown,
    /// Any other key or button.
    Other,
}

/// The state of a field.
pub struct FieldView {
    /// The ball in play.
    pub ball: BallView,
    /// The time since the speeds were last changed.
    pub last_speed_change: int,
    /// The first player.
    pub left: PlayerView,
    /// The second player.
    pub right: PlayerView,
    /// The height of the field, in whole units.
    pub height: int,
    /// The width of the field, in whole units.
    pub width: int,
}

impl FieldView {
    /// The left player plays on the left side and the right player on the
    /// right side.
    pub open spec fn sides_in_place(self) -> bool {
        &&& self.left.side == FieldSide::Left
        &&& self.right.side == FieldSide::Right
    }

    /// A field of the given size at the start of a game, with `ball` in it.
    pub open spec fn initial(width: int, height: int, ball: BallView) -> FieldView {
        FieldView {
            ball,
            last_speed_change: 0,
            left: PlayerView::initial(FieldSide::Left, width),
            right: PlayerView::initial(FieldSide::Right, width),
            height,
            width,
        }
    }

    /// The field after the key for `control` went down: the player it belongs
    /// to starts to move in its direction.
    pub open spec fn pressed(self, control: Control) -> FieldView {
        match control {
            Control::LeftUp => FieldView {
                left: PlayerView { movement: Movement::Up, ..self.left },
                ..self
            },
            Control::LeftDown => FieldView {
                left: PlayerView { movement: Movement::Down, ..self.left },
                ..self
            },
            Control::RightUp => FieldView {
                right: PlayerView { movement: Movement::Up, ..self.right },
                ..self
            },
            Control::RightDown => FieldView {
                right: PlayerView { movement: Movement::Down, ..self.right },
                ..self
            },
            Control::Other => self,
        }
    }

    /// The field after the key for `control` went up: the player it belongs
    /// to stops, whichever of its two keys it was.
    pub open spec fn released(self, control: Control) -> FieldView {
        match control {
            Control::LeftUp | Control::LeftDown => FieldView {
                left: PlayerView { movement: Movement::Still, ..self.left },
                ..self
            },
            Control::RightUp | Control::RightDown => FieldView {
                right: PlayerView { movement: Movement::Still, ..self.right },
                ..self
            },
            Control::Other => self,
        }
    }

    /// The field with a new size: each player is put where its side now is.
    pub open spec fn resized(self, width: int, height: int) -> FieldView {
        FieldView {
            left: self.left.repositioned(width),
            right: self.right.repositioned(width),
            width,
            height,
            ..self
        }
    }

    /// A time step of `dt` brings the time since the last change of speed up
    /// to the interval.
    pub open spec fn speed_change_due(self, dt: int) -> bool {
        self.last_speed_change + dt >= SPEED_CHANGE_INTERVAL
    }

    /// The field after the clock went on by `dt`: where the interval is
    /// reached the clock starts anew, and the ball and both players get
    /// faster.
    pub open spec fn ramped(self, dt: int) -> FieldView {
        if self.speed_change_due(dt) {
            FieldView {
                ball: self.ball.sped_up(SPEED_CHANGE as int),
                last_speed_change: 0,
                left: self.left.sped_up(SPEED_CHANGE as int),
                right: self.right.sped_up(SPEED_CHANGE as int),
                ..self
            }
        } else {
            FieldView { last_speed_change: self.last_speed_change + dt, ..self }
        }
    }

    /// The field after everything in it moved for `dt`: the clock first, then
    /// the two players, then the ball with the players' handles in its way.
    pub open spec fn advanced(self, dt: int) -> FieldView {
        let ramped = self.ramped(dt);
        let left = ramped.left.moved(dt, self.height);
        let right = ramped.right.moved(dt, self.height);
        FieldView {
            ball: ramped.ball.updated(
                dt,
                self.width,
                self.height,
                seq![left.bounding_box(), right.bounding_box()],
            ),
            left,
            right,
            ..ramped
        }
    }

    /// Whether the ball is still in the field after `dt`, and where it left
    /// if it is not.
    pub open spec fn status_after(self, dt: int) -> BallStatus {
        self.ramped(dt).ball.status_after(dt, self.width)
    }

    /// The field after the score was brought up to date: a ball that left on
    /// the left side is a point for the right player, one that left on the
    /// right side a point for the left player, and in both cases `spare` is
    /// the new ball. A ball within the game changes nothing.
    pub open spec fn settled(self, status: BallStatus, spare: BallView) -> FieldView {
        match status {
            BallStatus::WithinGame => self,
            BallStatus::LeftOnLeftSide => FieldView {
                ball: spare,
                right: self.right.scored(1),
                ..self
            },
            BallStatus::LeftOnRightSide => FieldView {
                ball: spare,
                left: self.left.scored(1),
                ..self
            },
        }
    }
}

/// The field where the game takes place.
pub struct Field {
    /// The ball used for playing.
    ball: Ball,
    /// The time since the speeds were last changed.
    last_speed_change: u64,
    /// The player on the left side.
    left: Player,
    /// The player on the right side.
    right: Player,
    /// The height of the field.
    height: u32,
    /// The width of the field.
    width: u32,
}

impl View for Field {
    type V = FieldView;

    closed spec fn view(&self) -> FieldView {
        FieldView {
            ball: self.ball@,
            last_speed_change: self.last_speed_change as int,
            left: self.left@,
            right: self.right@,
            height: self.height as int,
            width: self.width as int,
        }
    }
}

impl Field {
    /// Every field keeps its players on their sides.
    #[verifier::type_invariant]
    pub closed spec fn sides_kept(&self) -> bool {
        self@.sides_in_place()
    }

    /// A new playing field of the size `[width, height]`, with a ball that
    /// enters the game.
    pub fn new(size: [u32; 2]) -> (field: Field)
        ensures
            field@.ball.is_fresh(size[0] as int, size[1] as int),
            field@ == FieldView::initial(size[0] as int, size[1] as int, field@.ball),
    {
        Field::with_ball(size, Ball::new(size))
    }

    /// A new playing field of the size `[width, height]` with the given ball
    /// in it.
    pub fn with_ball(size: [u32; 2], ball: Ball) -> (field: Field)
        ensures
            field@ == FieldView::initial(size[0] as int, size[1] as int, ball@),
    {
        Field {
            ball,
            last_speed_change: 0,
            left: Player::new(FieldSide::Left, size[0]),
            right: Player::new(FieldSide::Right, size[0]),
            height: size[1],
            width: size[0],
        }
    }

    /// The ball.
    pub fn ball(&self) -> (ball: &Ball)
        ensures
            ball@ == self@.ball,
    {
        &self.ball
    }

    /// The player on the left side.
    pub fn left(&self) -> (player: &Player)
        ensures
            player@ == self@.left,
            player@.side == FieldSide::Left,
    {
        proof {
            use_type_invariant(self);
        }
        &self.left
    }

    /// The player on the right side.
    pub fn right(&self) -> (player: &Player)
        ensures
            player@ == self@.right,
            player@.side == FieldSide::Right,
    {
        proof {
            use_type_invariant(self);
        }
        &self.right
    }

    /// The width of the field.
    pub fn width(&self) -> (width: u32)
        ensures
            width == self@.width,
    {
        self.width
    }

    /// The height of the field.
    pub fn height(&self) -> (height: u32)
        ensures
            height == self@.height,
    {
        self.height
    }

    /// The time since the speeds were last changed.
    pub fn last_speed_change(&self) -> (elapsed: u64)
        ensures
            elapsed == self@.last_speed_change,
    {
        self.last_speed_change
    }

    /// The scores of the left and of the right player.
    pub fn get_player_scores(&self) -> (scores: [isize; 2])
        ensures
            scores[0] == self@.left.score,
            scores[1] == self@.right.score,
    {
        [self.left.get_score(), self.right.get_score()]
    }

    /// Replaces the ball.
    pub fn set_ball(&mut self, ball: Ball)
        ensures
            final(self)@ == (FieldView { ball: ball@, ..old(self)@ }),
    {
        proof {
            use_type_invariant(&*self);
        }
        self.ball = ball;
    }

    /// Handles the press of a key.
    pub fn on_button_pressed(&mut self, control: Control)
        ensures
            final(self)@ == old(self)@.pressed(control),
    {
        proof {
            use_type_invariant(&*self);
        }
        let mut left: Player = self.left;
        let mut right: Player = self.right;
        match control {
            Control::LeftUp => left.set_movement(Movement::Up),
            Control::LeftDown => left.set_movement(Movement::Down),
            Control::RightUp => right.set_movement(Movement::Up),
            Control::RightDown => right.set_movement(Movement::Down),
            Control::Other => {},
        }
        self.left = left;
        self.right = right;
    }

    /// Handles the release of a key.
    pub fn on_button_released(&mut self, control: Control)
        ensures
            final(self)@ == old(self)@.released(control),
    {
        proof {
            use_type_invariant(&*self);
        }
        let mut left: Player = self.left;
        let mut right: Player = self.right;
        match control {
            Control::LeftUp | Control::LeftDown => left.set_movement(Movement::Still),
            Control::RightUp | Control::RightDown => right.set_movement(Movement::Still),
            Control::Other => {},
        }
        self.left = left;
        self.right = right;
    }

    /// Resizes the field.
    pub fn on_resize(&mut self, new_width: u32, new_height: u32)
        ensures
            final(self)@ == old(self)@.resized(new_width as int, new_height as int),
    {
        proof {
            use_type_invariant(&*self);
        }
        let mut left: Player = self.left;
        let mut right: Player = self.right;
        left.update_position(new_width);
        right.update_position(new_width);
        self.width = new_width;
        self.height = new_height;
        self.left = left;
        self.right = right;
    }

    /// Adds `points` to the score of the player on the given side.
    pub fn award(&mut self, side: FieldSide, points: isize)
        ensures
            final(self)@ == (match side {
                FieldSide::Left => FieldView {
                    left: old(self)@.left.scored(points as int),
                    ..old(self)@
                },
                FieldSide::Right => FieldView {
                    right: old(self)@.right.scored(points as int),
                    ..old(self)@
                },
            }),
    {
        proof {
            use_type_invariant(&*self);
        }
        match side {
            FieldSide::Left => {
                let mut left: Player = self.left;
                left.update_score(points);
                self.left = left;
            },
            FieldSide::Right => {
                let mut right: Player = self.right;
                right.update_score(points);
                self.right = right;
            },
        }
    }

    /// Moves everything in the field for the time step `dt`, and says whether
    /// the ball is still in the field. The score is not touched: a ball that
    /// left stays where it was until the score is brought up to date.
    pub fn advance(&mut self, dt: u64) -> (status: BallStatus)
        ensures
            status == old(self)@.status_after(dt as int),
            final(self)@ == old(self)@.advanced(dt as int),
    {
        proof {
            use_type_invariant(&*self);
        }
        let mut ball: Ball = self.ball;
        let mut left: Player = self.left;
        let mut right: Player = self.right;

        let elapsed: u128 = (self.last_speed_change as u128) + (dt as u128);
        if elapsed >= SPEED_CHANGE_INTERVAL as u128 {
            self.last_speed_change = 0;
            ball.change_speed(SPEED_CHANGE);
            left.change_speed(SPEED_CHANGE);
            right.change_speed(SPEED_CHANGE);
        } else {
            self.last_speed_change = elapsed as u64;
        }

        left.update(dt, self.height);
        right.update(dt, self.height);
        let player_handles: [[i64; 4]; 2] = [left.get_bounding_box(), right.get_bounding_box()];
        proof {
            assert(rects_of(player_handles@) == seq![left@.bounding_box(), right@.bounding_box()]);
        }
        let status: BallStatus = ball.update(
            dt,
            self.width,
            self.height,
            player_handles.as_slice(),
        );
        self.ball = ball;
        self.left = left;
        self.right = right;
        status
    }

    /// Brings the score up to date for a ball with the given status, with
    /// `spare` as the new ball where the old one left the field.
    pub fn settle(&mut self, status: BallStatus, spare: Ball)
        ensures
            final(self)@ == old(self)@.settled(status, spare@),
    {
        proof {
            use_type_invariant(&*self);
        }
        match status {
            BallStatus::WithinGame => {},
            BallStatus::LeftOnLeftSide => {
                let mut right: Player = self.right;
                right.update_score(1);
                self.right = right;
                self.ball = spare;
            },
            BallStatus::LeftOnRightSide => {
                let mut left: Player = self.left;
                left.update_score(1);
                self.left = left;
                self.ball = spare;
            },
        }
    }

    /// Brings the score up to date for a ball with the given status. Where
    /// the ball left the field, the other side's player gets a point and a new
    /// ball enters the game, with a speed chosen by chance.
    pub fn update_scores(&mut self, status: BallStatus)
        ensures
            final(self)@ == old(self)@.settled(status, final(self)@.ball),
            status != BallStatus::WithinGame ==> final(self)@.ball.is_fresh(
                old(self)@.width,
                old(self)@.height,
            ),
    {
        match status {
            BallStatus::WithinGame => {},
            _ => {
                let spare: Ball = Ball::new([self.width, self.height]);
                self.settle(status, spare);
            },
        }
    }

    /// Moves the game on by the time step `dt`: everything in the field
    /// moves, and where the ball left the field the score is brought up to
    /// date and a new ball enters the game.
    pub fn on_update(&mut self, dt: u64)
        ensures
            final(self)@ == old(self)@.advanced(dt as int).settled(
                old(self)@.status_after(dt as int),
                final(self)@.ball,
            ),
            old(self)@.status_after(dt as int) != BallStatus::WithinGame
                ==> final(self)@.ball.is_fresh(old(self)@.width, old(self)@.height),
    {
        let status: BallStatus = self.advance(dt);
        self.update_scores(status);
    }
}

/// The left player is always on the left side and the right player on the
/// right side: no key, no new size, no time step and no point won changes the
/// side of a player.
pub proof fn lemma_sides_stay_in_place(
    field: FieldView,
    control: Control,
    width: int,
    height: int,
    dt: int,
    status: BallStatus,
    spare: BallView,
)
    requires
        field.sides_in_place(),
    ensures
        field.pressed(control).sides_in_place(),
        field.released(control).sides_in_place(),
        field.resized(width, height).sides_in_place(),
        field.advanced(dt).sides_in_place(),
        field.settled(status, spare).sides_in_place(),
{
}

/// What is inside the field stays inside it. After any time step, a player
/// whose speed is not negative and whose handle lay between the upper and the
/// lower edge of the field still has its handle there; and in a field at least
/// as high as the ball, a ball that is still in the game lies between the
/// upper and the lower edge.
pub proof fn lemma_advanced_stays_inside(field: FieldView, dt: int)
    requires
        dt >= 0,
        0 <= field.height <= u32::MAX,
    ensures
        field.left.speed >= 0 && field.left.is_inside(field.height) ==> field.advanced(
            dt,
        ).left.is_inside(field.height),
        field.right.speed >= 0 && field.right.is_inside(field.height) ==> field.advanced(
            dt,
        ).right.is_inside(field.height),
        spec_length(field.height) >= BALL_DIAMETER && field.status_after(dt)
            == BallStatus::WithinGame ==> field.advanced(dt).ball.is_inside(field.height),
{
    let ramped = field.ramped(dt);
    let left = ramped.left.moved(dt, field.height);
    let right = ramped.right.moved(dt, field.height);
    let handles: Seq<Rect> = seq![left.bounding_box(), right.bounding_box()];
    if field.left.speed >= 0 && field.left.is_inside(field.height) {
        lemma_moved_stays_inside(ramped.left, dt, field.height);
    }
    if field.right.speed >= 0 && field.right.is_inside(field.height) {
        lemma_moved_stays_inside(ramped.right, dt, field.height);
    }
    if spec_length(field.height) >= BALL_DIAMETER && field.status_after(dt)
        == BallStatus::WithinGame {
        lemma_updated_stays_inside(ramped.ball, dt, field.width, field.height, handles);
    }
}

/// Once the time since the last change of speed reaches the interval, the
/// clock starts anew, and both players and the ball are faster by exactly the
/// fixed amount, the ball along each axis. This holds of every speed that the
/// amount does not carry beyond the largest speed there is.
pub proof fn lemma_speeds_rise_at_interval(field: FieldView, dt: int)
    requires
        field.speed_change_due(dt),
        i64::MIN <= field.left.speed <= i64::MAX - SPEED_CHANGE,
        i64::MIN <= field.right.speed <= i64::MAX - SPEED_CHANGE,
        magnitude(field.ball.speed.0) <= i64::MAX - SPEED_CHANGE,
        magnitude(field.ball.speed.1) <= i64::MAX - SPEED_CHANGE,
    ensures
        field.advanced(dt).last_speed_change == 0,
        field.advanced(dt).left.speed == field.left.speed + SPEED_CHANGE,
        field.advanced(dt).right.speed == field.right.speed + SPEED_CHANGE,
        magnitude(field.advanced(dt).ball.speed.0) == magnitude(field.ball.speed.0) + SPEED_CHANGE,
        magnitude(field.advanced(dt).ball.speed.1) == magnitude(field.ball.speed.1) + SPEED_CHANGE,
{
    let ramped = field.ramped(dt);
    let left = ramped.left.moved(dt, field.height);
    let right = ramped.right.moved(dt, field.height);
    let handles: Seq<Rect> = seq![left.bounding_box(), right.bounding_box()];
    lemma_updated_keeps_magnitude(ramped.ball, dt, field.width, field.height, handles);
}

/// Before the time since the last change of speed reaches the interval, a
/// time step adds to it and leaves the speed of both players as it is, and
/// that of the ball along each axis.
pub proof fn lemma_speeds_rest_before_interval(field: FieldView, dt: int)
    requires
        !field.speed_change_due(dt),
        i64::MIN < field.ball.speed.0 <= i64::MAX,
        i64::MIN < field.ball.speed.1 <= i64::MAX,
    ensures
        field.advanced(dt).last_speed_change == field.last_speed_change + dt,
        field.advanced(dt).left.speed == field.left.speed,
        field.advanced(dt).right.speed == field.right.speed,
        magnitude(field.advanced(dt).ball.speed.0) == magnitude(field.ball.speed.0),
        magnitude(field.advanced(dt).ball.speed.1) == magnitude(field.ball.speed.1),
{
    let left = field.left.moved(dt, field.height);
    let right = field.right.moved(dt, field.height);
    let handles: Seq<Rect> = seq![left.bounding_box(), right.bounding_box()];
    lemma_updated_keeps_magnitude(field.ball, dt, field.width, field.height, handles);
}

/// A ball that leaves the field is a point for the player on the other side
/// and for nobody else, and is replaced by the new ball; a ball within the
/// game changes neither score nor ball.
pub proof fn lemma_point_goes_to_other_side(field: FieldView, status: BallStatus, spare: BallView)
    requires
        isize::MIN <= field.left.score < isize::MAX,
        isize::MIN <= field.right.score < isize::MAX,
    ensures
        status == BallStatus::LeftOnLeftSide ==> {
            &&& field.settled(status, spare).right.score == field.right.score + 1
            &&& field.settled(status, spare).left == field.left
            &&& field.settled(status, spare).ball == spare
        },
        status == BallStatus::LeftOnRightSide ==> {
            &&& field.settled(status, spare).left.score == field.left.score + 1
            &&& field.settled(status, spare).right == field.right
            &&& field.settled(status, spare).ball == spare
        },
        status == BallStatus::WithinGame ==> field.settled(status, spare) == field,
{
}

} // verus!
