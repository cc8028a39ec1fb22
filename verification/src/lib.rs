//! The simulation core of _Mief_, a game of two handles and a ball for two
//! players.
//!
//! A [`Field`] owns one [`Ball`] and two [`Player`]s. Once per time step it
//! moves the players, then the ball with the players' handles in its way, and
//! gives a point to the player opposite the side on which the ball left. The
//! [`Scoreboard`] keeps what is shown of the game.
//!
//! Lengths, speeds and times are fixed-point integers (see [`units`]), so that
//! every step of the simulation is exact and is stated over the mathematical
//! integers. Each type has a view, a plain record of what it holds, and each
//! function says in terms of these views what it returns or changes.

pub mod ball;
pub mod exit;
pub mod field;
pub mod player;
mod random;
pub mod scoreboard;
pub mod units;

pub use ball::Ball;
pub use ball::BallStatus;
pub use field::Control;
pub use field::Field;
pub use player::FieldSide;
pub use player::Movement;
pub use player::Player;
pub use scoreboard::Scoreboard;
