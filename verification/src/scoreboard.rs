//! The scoreboard: what it shows, and where on it each text is drawn.

use crate::units::{length, saturate};
use crate::units::{quotient_towards_zero, saturated, spec_length};
use vstd::prelude::*;

verus! {

broadcast use vstd::string::to_string_from_display_ensures_for_str;

/// The margin between a score and its edge of the scoreboard.
pub const SCORE_MARGIN: i64 = 10_000;

/// The alignment of a text.
#[derive(Clone, Copy, Debug, PartialEq, Eq, Structural)]
pub enum TextAlignment {
    /// The text starts at the given position.
    Left,
    /// The text has its middle at the given position.
    Center,
    /// The text ends at the given position.
    Right,
}

impl TextAlignment {
    /// Where a text of the given width starts that is aligned at
    /// `position_x`.
    pub open spec fn aligned(self, position_x: int, width: int) -> int {
        match self {
            TextAlignment::Left => position_x,
            TextAlignment::Center => saturated(position_x - quotient_towards_zero(width, 2)),
            TextAlignment::Right => saturated(position_x - width),
        }
    }

    /// The x position at which a text of the given width is drawn so that it
    /// is aligned at `position_x`.
    pub fn align(&self, position_x: i64, width: i64) -> (x: i64)
        ensures
            x == self.aligned(position_x as int, width as int),
    {
        match *self {
            TextAlignment::Left => position_x,
            TextAlignment::Center => saturate((position_x as i128) - ((width / 2) as i128)),
            TextAlignment::Right => saturate((position_x as i128) - (width as i128)),
        }
    }
}

/// The state of a scoreboard.
pub struct ScoreboardView {
    /// The name of the game.
    pub title: Seq<char>,
    /// The height of the scoreboard, in whole units.
    pub height: int,
    /// The width of the scoreboard, in whole units.
    pub width: int,
    /// The score of the left and of the right player.
    pub scores: (int, int),
}

impl ScoreboardView {
    /// The size of the font: half the height of the scoreboard, rounded down.
    pub open spec fn font_size(self) -> int {
        self.height / 2
    }

    /// The baseline of every text: such that a text of the font's size stands
    /// in the middle of the scoreboard.
    pub open spec fn baseline(self) -> int {
        (self.height + self.font_size()) * 500
    }

    /// The position that a text with the given alignment is aligned at: the
    /// left margin, the centre of the scoreboard, or the right margin.
    pub open spec fn anchor(self, alignment: TextAlignment) -> int {
        match alignment {
            TextAlignment::Left => SCORE_MARGIN as int,
            TextAlignment::Center => self.width * 500,
            TextAlignment::Right => spec_length(self.width) - SCORE_MARGIN,
        }
    }
}

/// The scoreboard shows the name of the game and the score of each player.
#[derive(Clone, Debug)]
pub struct Scoreboard {
    /// The name of the game.
    title: String,
    /// The height of the scoreboard.
    height: u32,
    /// The width of the scoreboard.
    width: u32,
    /// The players' scores.
    scores: [isize; 2],
}

impl View for Scoreboard {
    type V = ScoreboardView;

    closed spec fn view(&self) -> ScoreboardView {
        ScoreboardView {
            title: self.title@,
            height: self.height as int,
            width: self.width as int,
            scores: (self.scores[0] as int, self.scores[1] as int),
        }
    }
}

impl Default for Scoreboard {
    /// A scoreboard without a title, without a size and without points.
    fn default() -> (scoreboard: Scoreboard)
        ensures
            scoreboard@ == (ScoreboardView {
                title: Seq::<char>::empty(),
                height: 0,
                width: 0,
                scores: (0, 0),
            }),
    {
        Scoreboard { title: String::new(), height: 0, width: 0, scores: [0, 0] }
    }
}

impl Scoreboard {
    /// A new scoreboard of the size `[width, height]` with the given title
    /// and no points on either side.
    pub fn new(size: [u32; 2], title: &str) -> (scoreboard: Scoreboard)
        ensures
            scoreboard@ == (ScoreboardView {
                title: title@,
                height: size[1] as int,
                width: size[0] as int,
                scores: (0, 0),
            }),
    {
        Scoreboard { title: title.to_string(), height: size[1], width: size[0], scores: [0, 0] }
    }

    /// The name of the game.
    pub fn title(&self) -> (title: &str)
        ensures
            title@ == self@.title,
    {
        self.title.as_str()
    }

    /// The width of the scoreboard.
    pub fn width(&self) -> (width: u32)
        ensures
            width == self@.width,
    {
        self.width
    }

    /// The height of the scoreboard.
    pub fn height(&self) -> (height: u32)
        ensures
            height == self@.height,
    {
        self.height
    }

    /// The scores of the left and of the right player, as last reported.
    pub fn scores(&self) -> (scores: [isize; 2])
        ensures
            self@.scores == (scores[0] as int, scores[1] as int),
    {
        self.scores
    }

    /// The size of the font, which depends on the height of the scoreboard.
    pub fn determine_font_size(&self) -> (size: u32)
        ensures
            size == self@.font_size(),
    {
        self.height / 2
    }

    /// The baseline on which every text of the scoreboard is drawn.
    pub fn baseline(&self) -> (y: i64)
        ensures
            y == self@.baseline(),
    {
        ((self.height as i64) + (self.determine_font_size() as i64)) * 500
    }

    /// The position at which a text with the given alignment is aligned.
    pub fn anchor(&self, alignment: TextAlignment) -> (x: i64)
        ensures
            x == self@.anchor(alignment),
    {
        match alignment {
            TextAlignment::Left => SCORE_MARGIN,
            TextAlignment::Center => (self.width as i64) * 500,
            TextAlignment::Right => length(self.width) - SCORE_MARGIN,
        }
    }

    /// Where a text with the given alignment is drawn that is `text_width`
    /// wide: its x position and its baseline.
    pub fn text_position(&self, alignment: TextAlignment, text_width: i64) -> (position: (i64, i64))
        ensures
            position.0 == alignment.aligned(self@.anchor(alignment), text_width as int),
            position.1 == self@.baseline(),
    {
        (alignment.align(self.anchor(alignment), text_width), self.baseline())
    }

    /// Resizes the scoreboard.
    pub fn on_resize(&mut self, new_width: u32, new_height: u32)
        ensures
            final(self)@ == (ScoreboardView {
                width: new_width as int,
                height: new_height as int,
                ..old(self)@
            }),
    {
        self.width = new_width;
        self.height = new_height;
    }

    /// Takes over the scores of the left and of the right player.
    pub fn on_update(&mut self, scores: [isize; 2])
        ensures
            final(self)@ == (ScoreboardView {
                scores: (scores[0] as int, scores[1] as int),
                ..old(self)@
            }),
    {
        self.scores = scores;
    }
}

} // verus!
