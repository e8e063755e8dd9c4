//! What a frame shows: one tile for every cell of the screen area, and the
//! instructions that put it on a terminal.

use vstd::prelude::*;
use crate::game::{Game, GameState};
use crate::grid::{GAME_HEIGHT, GAME_WIDTH};

verus! {

/// What one cell of a frame shows.
#[derive(Clone, Copy, Debug, PartialEq, Eq, Structural)]
pub enum Tile {
    Wall,
    Snake,
    Food,
    Empty,
}

/// A terminal colour.
#[derive(Clone, Copy, Debug, PartialEq, Eq, Structural)]
pub enum Tint {
    Black,
    DarkGrey,
    Yellow,
    Cyan,
    White,
}

/// One instruction to the terminal.
#[derive(Clone, Copy, Debug, PartialEq, Eq)]
pub enum Paint {
    /// Clear the whole screen.
    Clear,
    /// Hide the cursor.
    HideCursor,
    /// Move the cursor to the top left corner.
    Home,
    /// Set the foreground colour.
    Foreground(Tint),
    /// Set the background colour.
    Background(Tint),
    /// Go back to the terminal's own colours.
    ResetColors,
    /// Print one character.
    Put(char),
    /// End the row: carriage return, then line feed.
    NewLine,
    /// Send what has been written so far to the screen.
    Flush,
}

/// The background of a snake cell.
pub const SNAKE_COLOR: Tint = Tint::Cyan;

/// The background of the food cell.
pub const FOOD_COLOR: Tint = Tint::Yellow;

impl Tile {
    /// The character drawn for this tile.
    pub open spec fn spec_glyph(self) -> char {
        match self {
            Tile::Wall => '#',
            Tile::Snake => 'O',
            Tile::Food => '@',
            Tile::Empty => ' ',
        }
    }

    /// The colours of this tile as `(foreground, background)`; `None` asks
    /// for the terminal's own colours.
    pub open spec fn spec_colors(self) -> Option<(Tint, Tint)> {
        match self {
            Tile::Wall => Some((Tint::White, Tint::DarkGrey)),
            Tile::Snake => Some((Tint::White, SNAKE_COLOR)),
            Tile::Food => Some((Tint::Black, FOOD_COLOR)),
            Tile::Empty => None,
        }
    }

    /// The instructions that draw this tile: its colours, then its glyph.
    pub open spec fn paints(self) -> Seq<Paint> {
        match self.colors() {
            Some((foreground, background)) => seq![
                Paint::Foreground(foreground),
                Paint::Background(background),
                Paint::Put(self.glyph()),
            ],
            None => seq![Paint::ResetColors, Paint::Put(self.glyph())],
        }
    }

    /// The character drawn for this tile.
    #[verifier::when_used_as_spec(spec_glyph)]
    pub fn glyph(self) -> (c: char)
        ensures
            c == self.spec_glyph(),
    {
        match self {
            Tile::Wall => '#',
            Tile::Snake => 'O',
            Tile::Food => '@',
            Tile::Empty => ' ',
        }
    }

    /// The colours of this tile as `(foreground, background)`; `None` asks
    /// for the terminal's own colours.
    #[verifier::when_used_as_spec(spec_colors)]
    pub fn colors(self) -> (c: Option<(Tint, Tint)>)
        ensures
            c == self.spec_colors(),
    {
        match self {
            Tile::Wall => Some((Tint::White, Tint::DarkGrey)),
            Tile::Snake => Some((Tint::White, SNAKE_COLOR)),
            Tile::Food => Some((Tint::Black, FOOD_COLOR)),
            Tile::Empty => None,
        }
    }
}

/// A full picture of the game: `GAME_HEIGHT + 1` rows of `GAME_WIDTH + 1`
/// tiles, top row first.
#[derive(Clone, Debug, PartialEq, Eq)]
pub struct Frame {
    pub rows: Vec<Vec<Tile>>,
}

impl View for Frame {
    type V = Seq<Seq<Tile>>;

    open spec fn view(&self) -> Seq<Seq<Tile>> {
        Seq::new(self.rows@.len(), |y: int| self.rows@[y]@)
    }
}

/// The instructions that draw `tiles` from left to right.
pub open spec fn tiles_paints(tiles: Seq<Tile>) -> Seq<Paint>
    decreases tiles.len(),
{
    if tiles.len() == 0 {
        Seq::empty()
    } else {
        tiles_paints(tiles.drop_last()) + tiles.last().paints()
    }
}

/// The instructions that draw `rows` from top to bottom, each row ended by
/// `Paint::NewLine`.
pub open spec fn rows_paints(rows: Seq<Seq<Tile>>) -> Seq<Paint>
    decreases rows.len(),
{
    if rows.len() == 0 {
        Seq::empty()
    } else {
        rows_paints(rows.drop_last()) + tiles_paints(rows.last()).push(Paint::NewLine)
    }
}

/// The instructions for a full repaint: clear the screen, hide the cursor,
/// go to the top left corner, draw every row, and flush once at the end.
pub open spec fn frame_paints(frame: Seq<Seq<Tile>>) -> Seq<Paint> {
    (seq![Paint::Clear, Paint::HideCursor, Paint::Home] + rows_paints(frame)).push(Paint::Flush)
}

/// The instructions that leave the screen when the loop has stopped: clear
/// it and go to the top left corner.
pub open spec fn closing_paints() -> Seq<Paint> {
    seq![Paint::Clear, Paint::Home, Paint::Flush]
}

impl GameState {
    /// The tile at column `x` of row `y`. The first and last row and column
    /// are wall, whatever lies there; elsewhere the snake hides the food.
    pub open spec fn tile_at(self, x: int, y: int) -> Tile {
        if x == 0 || x == GAME_WIDTH || y == 0 || y == GAME_HEIGHT {
            Tile::Wall
        } else if self.snake.contains((x, y)) {
            Tile::Snake
        } else if self.food == (x, y) {
            Tile::Food
        } else {
            Tile::Empty
        }
    }

    /// Row `y` of the picture: columns `0` to `GAME_WIDTH`, both included.
    pub open spec fn frame_row(self, y: int) -> Seq<Tile> {
        Seq::new((GAME_WIDTH + 1) as nat, |x: int| self.tile_at(x, y))
    }

    /// The whole picture: rows `0` to `GAME_HEIGHT`, both included.
    pub open spec fn frame(self) -> Seq<Seq<Tile>> {
        Seq::new((GAME_HEIGHT + 1) as nat, |y: int| self.frame_row(y))
    }
}

impl Game {
    /// The tile at column `x` of row `y`.
    pub fn tile_at(&self, x: u16, y: u16) -> (t: Tile)
        ensures
            t == self@.tile_at(x as int, y as int),
    {
        if x == 0 || x == GAME_WIDTH || y == 0 || y == GAME_HEIGHT {
            Tile::Wall
        } else if self.snake.occupies(x, y) {
            Tile::Snake
        } else if self.food.x == x && self.food.y == y {
            Tile::Food
        } else {
            Tile::Empty
        }
    }

    /// Row `y` of the picture.
    pub fn render_row(&self, y: u16) -> (row: Vec<Tile>)
        ensures
            row@ == self@.frame_row(y as int),
    {
        let mut row: Vec<Tile> = Vec::new();
        let mut x: u16 = 0;
        while x <= GAME_WIDTH
            invariant
                x <= GAME_WIDTH + 1,
                row@.len() == x,
                forall|i: int| 0 <= i < x ==> row@[i] == self@.tile_at(i, y as int),
            decreases GAME_WIDTH + 1 - x,
        {
            let t = self.tile_at(x, y);
            row.push(t);
            x += 1;
        }
        assert(row@ =~= self@.frame_row(y as int));
        row
    }

    /// The whole picture of the game as it stands.
    pub fn render_frame(&self) -> (frame: Frame)
        ensures
            frame@ == self@.frame(),
    {
        let mut rows: Vec<Vec<Tile>> = Vec::new();
        let mut y: u16 = 0;
        while y <= GAME_HEIGHT
            invariant
                y <= GAME_HEIGHT + 1,
                rows@.len() == y,
                forall|j: int| 0 <= j < y ==> (#[trigger] rows@[j])@ == self@.frame_row(j),
            decreases GAME_HEIGHT + 1 - y,
        {
            let row = self.render_row(y);
            rows.push(row);
            y += 1;
        }
        let frame = Frame { rows };
        assert(frame@ =~= self@.frame());
        frame
    }
}

impl Frame {
    /// The instructions for a full repaint of this frame.
    pub fn paints(&self) -> (ops: Vec<Paint>)
        ensures
            ops@ == frame_paints(self@),
    {
        let mut ops: Vec<Paint> = Vec::new();
        ops.push(Paint::Clear);
        ops.push(Paint::HideCursor);
        ops.push(Paint::Home);
        let ghost prologue = ops@;
        let mut y: usize = 0;
        while y < self.rows.len()
            invariant
                y <= self.rows.len(),
                prologue == seq![Paint::Clear, Paint::HideCursor, Paint::Home],
                ops@ == prologue + rows_paints(self@.take(y as int)),
            decreases self.rows.len() - y,
        {
            let row = &self.rows[y];
            let ghost above = ops@;
            let mut x: usize = 0;
            while x < row.len()
                invariant
                    x <= row.len(),
                    ops@ == above + tiles_paints(row@.take(x as int)),
                decreases row.len() - x,
            {
                let tile = row[x];
                match tile.colors() {
                    Some((foreground, background)) => {
                        ops.push(Paint::Foreground(foreground));
                        ops.push(Paint::Background(background));
                    },
                    None => {
                        ops.push(Paint::ResetColors);
                    },
                }
                ops.push(Paint::Put(tile.glyph()));
                proof {
                    let seen = row@.take(x as int + 1);
                    assert(seen.drop_last() =~= row@.take(x as int));
                    assert(seen.last() == tile);
                    assert(ops@ =~= above + tiles_paints(seen));
                }
                x += 1;
            }
            ops.push(Paint::NewLine);
            proof {
                let done = self@.take(y as int + 1);
                assert(row@.take(row.len() as int) =~= row@);
                assert(done.drop_last() =~= self@.take(y as int));
                assert(done.last() == row@);
                assert(ops@ =~= prologue + rows_paints(done));
            }
            y += 1;
        }
        assert(self@.take(self.rows.len() as int) =~= self@);
        ops.push(Paint::Flush);
        ops
    }
}

/// The instructions that repaint the screen with the game as it stands.
pub fn draw_game(game: &Game) -> (ops: Vec<Paint>)
    ensures
        ops@ == frame_paints(game@.frame()),
{
    game.render_frame().paints()
}

/// The instructions that leave the screen when the loop has stopped.
pub fn clear_screen() -> (ops: Vec<Paint>)
    ensures
        ops@ == closing_paints(),
{
    let mut ops: Vec<Paint> = Vec::new();
    ops.push(Paint::Clear);
    ops.push(Paint::Home);
    ops.push(Paint::Flush);
    ops
}

} // verus!
