//! The ball: its motion, its reflection on obstacles and on the upper and
//! lower edge of the field, and the moment it leaves the field.

use crate::random::{draw_bool, draw_in_range};
use crate::units::{length, progress, reversed, saturate};
use crate::units::{magnitude, saturated, spec_length, spec_progress, spec_reversed};
use rand::ThreadRng;
use vstd::prelude::*;

verus! {

/// The diameter of every ball.
pub const BALL_DIAMETER: i64 = 10_000;

/// The radius of every ball.
pub const BALL_RADIUS: i64 = 5_000;

/// The least speed, along each axis, of a ball that enters the game.
pub const MINIMUM_LAUNCH_SPEED: i64 = 100_000;

/// The bound below which the speed of a ball that enters the game lies, along
/// each axis.
pub const MAXIMUM_LAUNCH_SPEED: i64 = 150_000;

/// Where the ball is after one update.
#[derive(Clone, Copy, Debug, PartialEq, Eq, Structural)]
pub enum BallStatus {
    /// The ball left the field on the left side.
    LeftOnLeftSide,
    /// The ball left the field on the right side.
    LeftOnRightSide,
    /// The ball is still within the field.
    WithinGame,
}

/// An axis-aligned rectangle, as the collision test reads a bounding box.
pub struct Rect {
    /// The x position of the left edge.
    pub left: int,
    /// The y position of the upper edge.
    pub top: int,
    /// The x position of the right edge.
    pub right: int,
    /// The y position of the lower edge.
    pub bottom: int,
}

/// The rectangle that a bounding box `[left, top, right, bottom]` stands for.
pub open spec fn rect_of(bounding_box: [i64; 4]) -> Rect {
    Rect {
        left: bounding_box[0] as int,
        top: bounding_box[1] as int,
        right: bounding_box[2] as int,
        bottom: bounding_box[3] as int,
    }
}

/// The rectangles that a list of bounding boxes stands for, in the same order.
pub open spec fn rects_of(bounding_boxes: Seq<[i64; 4]>) -> Seq<Rect> {
    Seq::new(bounding_boxes.len(), |i: int| rect_of(bounding_boxes[i]))
}

/// The state of a ball: the upper left corner of its bounding box, and its
/// speed along each axis.
pub struct BallView {
    /// The upper left corner of the bounding box: `(x, y)`.
    pub position: (int, int),
    /// The speed along each axis: `(x, y)`.
    pub speed: (int, int),
}

impl BallView {
    /// A ball placed at `position` crossed the upper or lower edge of `object`
    /// while its centre is within the width of `object`.
    pub open spec fn hits_horizontal_edge(position: (int, int), object: Rect) -> bool {
        &&& position.0 + BALL_RADIUS >= object.left
        &&& position.0 + BALL_RADIUS <= object.right
        &&& position.1 + BALL_DIAMETER >= object.top
        &&& position.1 <= object.bottom
    }

    /// A ball placed at `position` crossed the left or right edge of `object`
    /// while its centre is within the height of `object`.
    pub open spec fn hits_lateral_edge(position: (int, int), object: Rect) -> bool {
        &&& position.1 + BALL_RADIUS >= object.top
        &&& position.1 + BALL_RADIUS <= object.bottom
        &&& position.0 + BALL_DIAMETER >= object.left
        &&& position.0 <= object.right
    }

    /// The ball after the collision test against one object, for a ball that
    /// would be at `next_position`: each kind of hit reverses the speed on its
    /// own axis, and both may apply.
    pub open spec fn collided_with(self, next_position: (int, int), object: Rect) -> BallView {
        BallView {
            position: self.position,
            speed: (
                if Self::hits_lateral_edge(next_position, object) {
                    spec_reversed(self.speed.0)
                } else {
                    self.speed.0
                },
                if Self::hits_horizontal_edge(next_position, object) {
                    spec_reversed(self.speed.1)
                } else {
                    self.speed.1
                },
            ),
        }
    }

    /// The ball after the collision test against each of `objects` in turn.
    pub open spec fn collided_with_all(self, next_position: (int, int), objects: Seq<Rect>)
        -> BallView
        decreases objects.len(),
    {
        if objects.len() == 0 {
            self
        } else {
            self.collided_with_all(next_position, objects.drop_last()).collided_with(
                next_position,
                objects.last(),
            )
        }
    }

    /// Where the ball would be after `dt` if nothing were in its way.
    pub open spec fn next_position(self, dt: int) -> (int, int) {
        (
            saturated(self.position.0 + spec_progress(self.speed.0, dt)),
            saturated(self.position.1 + spec_progress(self.speed.1, dt)),
        )
    }

    /// Whether the ball leaves a field of the given width during `dt`, and on
    /// which side.
    pub open spec fn status_after(self, dt: int, width: int) -> BallStatus {
        if self.position.0 + spec_progress(self.speed.0, dt) < 0 {
            BallStatus::LeftOnLeftSide
        } else if self.position.0 + BALL_DIAMETER + spec_progress(self.speed.0, dt) > spec_length(
            width,
        ) {
            BallStatus::LeftOnRightSide
        } else {
            BallStatus::WithinGame
        }
    }

    /// Whether the ball would cross the upper or lower edge of a field of the
    /// given height during `dt`.
    pub open spec fn leaves_vertically(self, dt: int, height: int) -> bool {
        ||| self.position.1 + spec_progress(self.speed.1, dt) < 0
        ||| self.position.1 + BALL_DIAMETER + spec_progress(self.speed.1, dt) > spec_length(height)
    }

    /// The ball lies between the upper and the lower edge of a field of the
    /// given height.
    pub open spec fn is_inside(self, height: int) -> bool {
        0 <= self.position.1 <= spec_length(height) - BALL_DIAMETER
    }

    /// `y`, moved into a field of the given height: to the upper edge where it
    /// lies above, else to where the ball touches the lower edge where it
    /// reaches below.
    pub open spec fn kept_inside(y: int, height: int) -> int {
        if y < 0 {
            0
        } else if y + BALL_DIAMETER > spec_length(height) {
            spec_length(height) - BALL_DIAMETER
        } else {
            y
        }
    }

    /// The ball after one update of `dt` in a field of the given size, with
    /// `objects` in its way.
    ///
    /// The collision test comes first, against the position the ball would
    /// reach. A ball that leaves the field on the left or right is moved no
    /// further. One that stays has its vertical speed reversed where it would
    /// cross the upper or lower edge, moves by its new speed, and is kept
    /// inside the field vertically.
    pub open spec fn updated(self, dt: int, width: int, height: int, objects: Seq<Rect>)
        -> BallView {
        let hit = self.collided_with_all(self.next_position(dt), objects);
        if self.status_after(dt, width) != BallStatus::WithinGame {
            hit
        } else {
            let vertical = if self.leaves_vertically(dt, height) {
                spec_reversed(hit.speed.1)
            } else {
                hit.speed.1
            };
            BallView {
                position: (
                    saturated(self.position.0 + spec_progress(hit.speed.0, dt)),
                    Self::kept_inside(self.position.1 + spec_progress(vertical, dt), height),
                ),
                speed: (hit.speed.0, vertical),
            }
        }
    }

    /// The position at which a ball lies in the centre of a window of the
    /// given size, and never left of or above the window's corner.
    pub open spec fn centre(width: int, height: int) -> (int, int) {
        (
            if width * 500 - BALL_RADIUS < 0 {
                0
            } else {
                width * 500 - BALL_RADIUS
            },
            if height * 500 - BALL_RADIUS < 0 {
                0
            } else {
                height * 500 - BALL_RADIUS
            },
        )
    }

    /// `speed` is one that a ball may enter the game with along an axis: in
    /// either direction, at least the minimum and less than the maximum.
    pub open spec fn is_launch_speed(speed: int) -> bool {
        ||| MINIMUM_LAUNCH_SPEED <= speed < MAXIMUM_LAUNCH_SPEED
        ||| MINIMUM_LAUNCH_SPEED <= -speed < MAXIMUM_LAUNCH_SPEED
    }

    /// The ball is one that enters the game in a window of the given size: in
    /// the centre, with a launch speed along each axis.
    pub open spec fn is_fresh(self, width: int, height: int) -> bool {
        &&& self.position == Self::centre(width, height)
        &&& Self::is_launch_speed(self.speed.0)
        &&& Self::is_launch_speed(self.speed.1)
    }

    /// `speed`, faster by `amount` in the direction it already has; a ball at
    /// rest on an axis starts towards the right or the bottom.
    pub open spec fn faster(speed: int, amount: int) -> int {
        if speed < 0 {
            saturated(speed - amount)
        } else {
            saturated(speed + amount)
        }
    }

    /// The ball made faster by `amount` along each axis.
    pub open spec fn sped_up(self, amount: int) -> BallView {
        BallView {
            position: self.position,
            speed: (Self::faster(self.speed.0, amount), Self::faster(self.speed.1, amount)),
        }
    }
}

/// The ball used for playing.
#[derive(Clone, Copy, Debug)]
pub struct Ball {
    /// The upper left corner of the ball's bounding box: `(x, y)`.
    position: (i64, i64),
    /// The speed of the ball: `(x, y)`.
    speed: (i64, i64),
}

impl View for Ball {
    type V = BallView;

    closed spec fn view(&self) -> BallView {
        BallView {
            position: (self.position.0 as int, self.position.1 as int),
            speed: (self.speed.0 as int, self.speed.1 as int),
        }
    }
}

impl Ball {
    /// A ball with a speed chosen by chance in the centre of a window of the
    /// size `[width, height]`. Along each axis the speed is drawn from the
    /// launch speeds, and its direction is drawn apart from it.
    pub fn new(window_size: [u32; 2]) -> (ball: Ball)
        ensures
            ball@.is_fresh(window_size[0] as int, window_size[1] as int),
    {
        let mut rng: ThreadRng = rand::thread_rng();
        let speed_x: i64 = draw_in_range(&mut rng, MINIMUM_LAUNCH_SPEED, MAXIMUM_LAUNCH_SPEED);
        let reverse_x: bool = draw_bool(&mut rng);
        let speed_y: i64 = draw_in_range(&mut rng, MINIMUM_LAUNCH_SPEED, MAXIMUM_LAUNCH_SPEED);
        let reverse_y: bool = draw_bool(&mut rng);
        Ball::launch(window_size, (speed_x, speed_y), (reverse_x, reverse_y))
    }

    /// The ball that enters the game when chance gave the speeds `drawn` and
    /// said of each axis in `reverse` whether the ball starts towards the
    /// left or the top.
    pub fn launch(window_size: [u32; 2], drawn: (i64, i64), reverse: (bool, bool)) -> (ball: Ball)
        ensures
            ball@.position == BallView::centre(window_size[0] as int, window_size[1] as int),
            ball@.speed == (
                if reverse.0 {
                    spec_reversed(drawn.0 as int)
                } else {
                    drawn.0 as int
                },
                if reverse.1 {
                    spec_reversed(drawn.1 as int)
                } else {
                    drawn.1 as int
                },
            ),
    {
        let speed_x: i64 = if reverse.0 {
            reversed(drawn.0)
        } else {
            drawn.0
        };
        let speed_y: i64 = if reverse.1 {
            reversed(drawn.1)
        } else {
            drawn.1
        };
        Ball::with_speed(window_size, (speed_x, speed_y))
    }

    /// A ball with the given speed in the centre of a window of the size
    /// `[width, height]`.
    pub fn with_speed(window_size: [u32; 2], speed: (i64, i64)) -> (ball: Ball)
        ensures
            ball@.position == BallView::centre(window_size[0] as int, window_size[1] as int),
            ball@.speed == (speed.0 as int, speed.1 as int),
    {
        let x: i64 = (window_size[0] as i64) * 500 - BALL_RADIUS;
        let y: i64 = (window_size[1] as i64) * 500 - BALL_RADIUS;
        Ball {
            position: (
                if x < 0 {
                    0
                } else {
                    x
                },
                if y < 0 {
                    0
                } else {
                    y
                },
            ),
            speed,
        }
    }

    /// The diameter of the ball.
    pub fn diameter(&self) -> (d: i64)
        ensures
            d == BALL_DIAMETER,
    {
        BALL_DIAMETER
    }

    /// The upper left corner of the ball's bounding box.
    pub fn position(&self) -> (p: (i64, i64))
        ensures
            self@.position == (p.0 as int, p.1 as int),
    {
        self.position
    }

    /// The speed of the ball along each axis.
    pub fn speed(&self) -> (s: (i64, i64))
        ensures
            self@.speed == (s.0 as int, s.1 as int),
    {
        self.speed
    }

    /// Puts the ball at `position`.
    pub fn set_position(&mut self, position: (i64, i64))
        ensures
            final(self)@ == (BallView {
                position: (position.0 as int, position.1 as int),
                ..old(self)@
            }),
    {
        self.position = position;
    }

    /// Gives the ball the speed `speed`.
    pub fn set_speed(&mut self, speed: (i64, i64))
        ensures
            final(self)@ == (BallView { speed: (speed.0 as int, speed.1 as int), ..old(self)@ }),
    {
        self.speed = speed;
    }

    /// Makes the ball faster by `amount` along each axis, in the direction it
    /// already has there.
    pub fn change_speed(&mut self, amount: i64)
        ensures
            final(self)@ == old(self)@.sped_up(amount as int),
    {
        let x: i128 = self.speed.0 as i128;
        let y: i128 = self.speed.1 as i128;
        let by: i128 = amount as i128;
        self.speed = (
            saturate(
                if x < 0 {
                    x - by
                } else {
                    x + by
                },
            ),
            saturate(
                if y < 0 {
                    y - by
                } else {
                    y + by
                },
            ),
        );
    }

    /// Tests whether the ball, once at `next_position`, collides with the
    /// bounding box `object`, and reverses its speed on each axis on which it
    /// does.
    pub fn collide_with(&mut self, next_position: (i64, i64), object: &[i64; 4])
        ensures
            final(self)@ == old(self)@.collided_with(
                (next_position.0 as int, next_position.1 as int),
                rect_of(*object),
            ),
    {
        let x: i128 = next_position.0 as i128;
        let y: i128 = next_position.1 as i128;
        let radius: i128 = BALL_RADIUS as i128;
        let diameter: i128 = BALL_DIAMETER as i128;
        let left_x: i128 = object[0] as i128;
        let top_y: i128 = object[1] as i128;
        let right_x: i128 = object[2] as i128;
        let bottom_y: i128 = object[3] as i128;

        let hit_horizontal_edge: bool = x + radius >= left_x && x + radius <= right_x && y
            + diameter >= top_y && y <= bottom_y;
        if hit_horizontal_edge {
            self.speed.1 = reversed(self.speed.1);
        }
        let hit_lateral_edge: bool = y + radius >= top_y && y + radius <= bottom_y && x + diameter
            >= left_x && x <= right_x;
        if hit_lateral_edge {
            self.speed.0 = reversed(self.speed.0);
        }
    }

    /// Moves the ball by one time step `dt` in a field of the given size, with
    /// the bounding boxes `obstacles` in its way, and says whether it is still
    /// in the field. A ball that left the field is not moved.
    pub fn update(&mut self, dt: u64, width: u32, height: u32, obstacles: &[[i64; 4]]) -> (status:
        BallStatus)
        ensures
            status == old(self)@.status_after(dt as int, width as int),
            final(self)@ == old(self)@.updated(
                dt as int,
                width as int,
                height as int,
                rects_of(obstacles@),
            ),
    {
        let ghost before = self@;
        let ghost objects = rects_of(obstacles@);
        let x: i128 = self.position.0 as i128;
        let y: i128 = self.position.1 as i128;
        let diameter: i128 = BALL_DIAMETER as i128;
        let progress_x: i128 = progress(self.speed.0, dt);
        let progress_y: i128 = progress(self.speed.1, dt);
        let next_position: (i64, i64) = (saturate(x + progress_x), saturate(y + progress_y));

        let mut i: usize = 0;
        while i < obstacles.len()
            invariant
                i <= obstacles.len(),
                objects == rects_of(obstacles@),
                self@ == before.collided_with_all(
                    (next_position.0 as int, next_position.1 as int),
                    objects.take(i as int),
                ),
            decreases obstacles.len() - i,
        {
            proof {
                assert(objects.take(i + 1).drop_last() == objects.take(i as int));
                assert(objects.take(i + 1).last() == rect_of(obstacles@[i as int]));
            }
            self.collide_with(next_position, &obstacles[i]);
            i = i + 1;
        }
        proof {
            assert(objects.take(i as int) == objects);
        }

        if x + progress_x < 0 {
            return BallStatus::LeftOnLeftSide;
        }
        if x + diameter + progress_x > length(width) as i128 {
            return BallStatus::LeftOnRightSide;
        }
        let floor: i128 = length(height) as i128;
        if y + progress_y < 0 || y + diameter + progress_y > floor {
            self.speed.1 = reversed(self.speed.1);
        }
        let moved_y: i128 = y + progress(self.speed.1, dt);
        self.position = (
            saturate(x + progress(self.speed.0, dt)),
            if moved_y < 0 {
                0
            } else if moved_y + diameter > floor {
                (floor - diameter) as i64
            } else {
                moved_y as i64
            },
        );
        BallStatus::WithinGame
    }
}

/// A ball that stays in the game stays between the upper and the lower edge:
/// in a field that is at least as high as the ball, the ball lies at or below
/// the upper edge after the update, and its lower end at or above the lower
/// edge.
pub proof fn lemma_updated_stays_inside(
    ball: BallView,
    dt: int,
    width: int,
    height: int,
    objects: Seq<Rect>,
)
    requires
        spec_length(height) >= BALL_DIAMETER,
        ball.status_after(dt, width) == BallStatus::WithinGame,
    ensures
        ball.updated(dt, width, height, objects).is_inside(height),
{
}

/// A ball that leaves the field is not moved, and with nothing in its way it
/// is not changed at all.
pub proof fn lemma_leaving_ball_is_not_moved(
    ball: BallView,
    dt: int,
    width: int,
    height: int,
    objects: Seq<Rect>,
)
    requires
        ball.status_after(dt, width) != BallStatus::WithinGame,
    ensures
        ball.updated(dt, width, height, objects).position == ball.position,
        objects.len() == 0 ==> ball.updated(dt, width, height, objects) == ball,
{
    lemma_collisions_keep_position(ball, ball.next_position(dt), objects);
}

/// Collisions do not move the ball.
pub proof fn lemma_collisions_keep_position(
    ball: BallView,
    next_position: (int, int),
    objects: Seq<Rect>,
)
    ensures
        ball.collided_with_all(next_position, objects).position == ball.position,
    decreases objects.len(),
{
    if objects.len() > 0 {
        lemma_collisions_keep_position(ball, next_position, objects.drop_last());
    }
}

/// Collisions change the direction of the ball and not how fast it is: after
/// the test against any number of objects the ball is as fast as it was along
/// each axis.
pub proof fn lemma_collisions_keep_magnitude(
    ball: BallView,
    next_position: (int, int),
    objects: Seq<Rect>,
)
    requires
        i64::MIN < ball.speed.0 <= i64::MAX,
        i64::MIN < ball.speed.1 <= i64::MAX,
    ensures
        magnitude(ball.collided_with_all(next_position, objects).speed.0) == magnitude(
            ball.speed.0,
        ),
        magnitude(ball.collided_with_all(next_position, objects).speed.1) == magnitude(
            ball.speed.1,
        ),
    decreases objects.len(),
{
    if objects.len() > 0 {
        lemma_collisions_keep_magnitude(ball, next_position, objects.drop_last());
    }
}

/// An update changes the direction of the ball and never how fast it is
/// along either axis.
pub proof fn lemma_updated_keeps_magnitude(
    ball: BallView,
    dt: int,
    width: int,
    height: int,
    objects: Seq<Rect>,
)
    requires
        i64::MIN < ball.speed.0 <= i64::MAX,
        i64::MIN < ball.speed.1 <= i64::MAX,
    ensures
        magnitude(ball.updated(dt, width, height, objects).speed.0) == magnitude(ball.speed.0),
        magnitude(ball.updated(dt, width, height, objects).speed.1) == magnitude(ball.speed.1),
{
    lemma_collisions_keep_magnitude(ball, ball.next_position(dt), objects);
}

} // verus!
