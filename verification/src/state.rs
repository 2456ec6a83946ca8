//! Board and turn state for the tic-tac-toe game: placing marks from
//! clicks, alternating turns, and detecting the eight winning patterns.

use vstd::prelude::*;

verus! {

/// Highest animation frame a tile can show; frame counters saturate here.
pub const MAX_FRAME: u8 = 19;

/// Occupant of one board cell.
#[derive(Clone, Copy, PartialEq, Eq, Structural, Debug)]
pub enum CellState {
    Empty,
    Cross,
    Knot,
}

/// State of a tile on the game board: its occupant and the animation
/// frame it is currently showing.
#[derive(Clone, Copy, PartialEq, Eq, Structural, Debug)]
pub struct Tile {
    pub state: CellState,
    pub frame: u8,
}

impl Tile {
    /// A freshly created tile: empty, with its animation at frame 0.
    pub fn new() -> (t: Tile)
        ensures
            t == (Tile { state: CellState::Empty, frame: 0 }),
    {
        Tile { state: CellState::Empty, frame: 0 }
    }
}

/// The 3-by-3 game board. The cell at column `x`, row `y` (both in 0..3)
/// is stored at index `x * 3 + y`, so the cells of a column are adjacent.
pub struct Board {
    pub tiles: Vec<Tile>,
}

impl View for Board {
    type V = Seq<Tile>;

    open spec fn view(&self) -> Seq<Tile> {
        self.tiles@
    }
}

impl Board {
    /// A well-formed board holds exactly nine tiles, none past the last
    /// animation frame.
    pub open spec fn wf(&self) -> bool {
        &&& self@.len() == 9
        &&& forall|i: int| 0 <= i < 9 ==> self@[i].frame <= MAX_FRAME
    }
}

/// The cell at column `x`, row `y` of a board.
pub open spec fn cell(b: Seq<Tile>, x: int, y: int) -> Tile {
    b[x * 3 + y]
}

/// Three cells win together when they share the same non-empty occupant.
pub open spec fn line_won(b: Seq<Tile>, x0: int, y0: int, x1: int, y1: int, x2: int, y2: int) -> bool {
    &&& !(cell(b, x0, y0).state is Empty)
    &&& cell(b, x0, y0).state == cell(b, x1, y1).state
    &&& cell(b, x1, y1).state == cell(b, x2, y2).state
}

/// The winning patterns, in the order the checker scans them: the three
/// columns, the three rows, then the two diagonals.
pub open spec fn win_pattern(k: int) -> ((int, int), (int, int), (int, int)) {
    if k == 0 {
        ((0, 0), (0, 1), (0, 2))
    } else if k == 1 {
        ((1, 0), (1, 1), (1, 2))
    } else if k == 2 {
        ((2, 0), (2, 1), (2, 2))
    } else if k == 3 {
        ((0, 0), (1, 0), (2, 0))
    } else if k == 4 {
        ((0, 1), (1, 1), (2, 1))
    } else if k == 5 {
        ((0, 2), (1, 2), (2, 2))
    } else if k == 6 {
        ((0, 0), (1, 1), (2, 2))
    } else {
        ((2, 0), (1, 1), (0, 2))
    }
}

/// Whether pattern `k` of the eight winning patterns is won on `b`.
pub open spec fn pattern_won(b: Seq<Tile>, k: int) -> bool {
    let ((x0, y0), (x1, y1), (x2, y2)) = win_pattern(k);
    line_won(b, x0, y0, x1, y1, x2, y2)
}

/// A board is won when one of its three columns, three rows or two
/// diagonals is filled by a single player.
pub open spec fn board_won(b: Seq<Tile>) -> bool {
    ||| line_won(b, 0, 0, 0, 1, 0, 2)
    ||| line_won(b, 1, 0, 1, 1, 1, 2)
    ||| line_won(b, 2, 0, 2, 1, 2, 2)
    ||| line_won(b, 0, 0, 1, 0, 2, 0)
    ||| line_won(b, 0, 1, 1, 1, 2, 1)
    ||| line_won(b, 0, 2, 1, 2, 2, 2)
    ||| line_won(b, 0, 0, 1, 1, 2, 2)
    ||| line_won(b, 2, 0, 1, 1, 0, 2)
}

/// A win comes from one of the eight scanned patterns and from nothing
/// else: `board_won` holds exactly when some pattern among the eight is
/// filled by a single player.
pub proof fn lemma_win_exactly_eight_patterns(b: Seq<Tile>)
    ensures
        board_won(b) <==> (exists|k: int| 0 <= k < 8 && pattern_won(b, k)),
{
    if board_won(b) {
        if line_won(b, 0, 0, 0, 1, 0, 2) {
            assert(pattern_won(b, 0));
        } else if line_won(b, 1, 0, 1, 1, 1, 2) {
            assert(pattern_won(b, 1));
        } else if line_won(b, 2, 0, 2, 1, 2, 2) {
            assert(pattern_won(b, 2));
        } else if line_won(b, 0, 0, 1, 0, 2, 0) {
            assert(pattern_won(b, 3));
        } else if line_won(b, 0, 1, 1, 1, 2, 1) {
            assert(pattern_won(b, 4));
        } else if line_won(b, 0, 2, 1, 2, 2, 2) {
            assert(pattern_won(b, 5));
        } else if line_won(b, 0, 0, 1, 1, 2, 2) {
            assert(pattern_won(b, 6));
        } else {
            assert(pattern_won(b, 7));
        }
    }
    if exists|k: int| 0 <= k < 8 && pattern_won(b, k) {
        let k = choose|k: int| 0 <= k < 8 && pattern_won(b, k);
        assert(board_won(b));
    }
}

/// The mark the player to move places: crosses for `turn`, knots otherwise.
pub open spec fn player_mark(turn: bool) -> CellState {
    if turn {
        CellState::Cross
    } else {
        CellState::Knot
    }
}

/// A window-title update requested by the game.
#[derive(Clone, Copy, PartialEq, Eq, Structural, Debug)]
pub enum Title {
    CrossTurn,
    KnotsTurn,
    CrossWins,
    KnotsWins,
}

/// The title announcing whose turn it is.
pub open spec fn turn_title(turn: bool) -> Title {
    if turn {
        Title::CrossTurn
    } else {
        Title::KnotsTurn
    }
}

/// The title announcing the winner.
pub open spec fn victory_title(turn: bool) -> Title {
    if turn {
        Title::CrossWins
    } else {
        Title::KnotsWins
    }
}

/// The text the window shows for each title update.
pub fn title_text(t: Title) -> (r: &'static str)
    ensures
        t == Title::CrossTurn ==> r@ == "tic tac toe: cross turn"@,
        t == Title::KnotsTurn ==> r@ == "tic tac toe: knots turn"@,
        t == Title::CrossWins ==> r@ == "Congratulations Cross!"@,
        t == Title::KnotsWins ==> r@ == "Congratulations Knots!"@,
{
    match t {
        Title::CrossTurn => "tic tac toe: cross turn",
        Title::KnotsTurn => "tic tac toe: knots turn",
        Title::CrossWins => "Congratulations Cross!",
        Title::KnotsWins => "Congratulations Knots!",
    }
}

/// Keeps track of the game's state (turns, etc). Not involved with
/// rendering.
#[derive(Clone, Copy, PartialEq, Eq, Structural, Debug)]
pub struct State {
    /// true while it is the cross player's turn, false for knots.
    pub turn: bool,
    /// set once a player has won; no further moves are accepted.
    pub finished: bool,
}

impl State {
    /// A new game: crosses move first, nobody has won.
    pub fn new() -> (s: State)
        ensures
            s == (State { turn: true, finished: false }),
    {
        State { turn: true, finished: false }
    }

    /// Hand the turn to the other player and say which title the window
    /// should now show.
    pub fn change_turn(&mut self) -> (t: Title)
        ensures
            final(self).turn == !old(self).turn,
            final(self).finished == old(self).finished,
            t == turn_title(!old(self).turn),
    {
        self.turn = !self.turn;
        if self.turn {
            Title::CrossTurn
        } else {
            Title::KnotsTurn
        }
    }

    /// Scan the eight winning patterns in order; on a win, mark the game
    /// finished and report the congratulation title for the player who
    /// just moved.
    pub fn check_victory(&mut self, board: &Board) -> (t: Option<Title>)
        requires
            board.wf(),
        ensures
            final(self).turn == old(self).turn,
            final(self).finished == (old(self).finished || board_won(board@)),
            t == (if board_won(board@) {
                Some(victory_title(old(self).turn))
            } else {
                None::<Title>
            }),
    {
        let b = &board.tiles;
        let won =
            // column matches
            (b[0].state != CellState::Empty && b[0].state == b[1].state && b[1].state == b[2].state)
            || (b[3].state != CellState::Empty && b[3].state == b[4].state && b[4].state == b[5].state)
            || (b[6].state != CellState::Empty && b[6].state == b[7].state && b[7].state == b[8].state)
            // row matches
            || (b[0].state != CellState::Empty && b[0].state == b[3].state && b[3].state == b[6].state)
            || (b[1].state != CellState::Empty && b[1].state == b[4].state && b[4].state == b[7].state)
            || (b[2].state != CellState::Empty && b[2].state == b[5].state && b[5].state == b[8].state)
            // diagonal matches
            || (b[0].state != CellState::Empty && b[0].state == b[4].state && b[4].state == b[8].state)
            || (b[6].state != CellState::Empty && b[6].state == b[4].state && b[4].state == b[2].state);
        if won {
            self.finished = true;
            if self.turn {
                Some(Title::CrossWins)
            } else {
                Some(Title::KnotsWins)
            }
        } else {
            None
        }
    }

    /// Handle a click on a tile: the board band (which third of the
    /// window, clamped to the board) picks the cell; a click on an
    /// occupied cell, or after the game has finished, changes nothing.
    pub fn handle_click(&mut self, px: u32, py: u32, board: &mut Board, width: u32, height: u32) -> (t: Option<Title>)
        requires
            old(board).wf(),
            width >= 1,
            height >= 1,
        ensures
            final(board).wf(),
            ({
                let stepped = click_spec(*old(self), old(board)@, clicked_cell(px as int, py as int, width as int, height as int));
                &&& *final(self) == stepped.0
                &&& final(board)@ == stepped.1
                &&& t == stepped.2
            }),
    {
        // if the game has already been won, don't do anything
        if self.finished {
            return None;
        }

        // determine which tile the mouse is clicking
        let band_x: u64 = 3 * (px as u64) / (width as u64);
        let x: usize = if band_x > 2 { 2 } else { band_x as usize };
        let band_y: u64 = 3 * (py as u64) / (height as u64);
        let y: usize = if band_y > 2 { 2 } else { band_y as usize };
        let idx = x * 3 + y;

        // if the tile is blank, place it then swap the turn!
        if board.tiles[idx].state == CellState::Empty {
            // make a tile state that matches the current turn
            let mark = if self.turn {
                CellState::Cross
            } else {
                CellState::Knot
            };
            board.tiles[idx] = Tile { state: mark, frame: 0 };

            // check for a victory
            let victory = self.check_victory(board);
            match victory {
                Some(title) => Some(title),
                // if the game hasn't ended, change the turn!
                None => Some(self.change_turn()),
            }
        } else {
            None
        }
    }
}

/// What one click landing on cell `idx` does, at the specification
/// level: the state, board and title update that `State::handle_click`
/// produces. A click after the game has finished, or on an occupied
/// cell, changes nothing and requests no title. An accepted click
/// places the mover's mark with its animation at frame 0; a winning
/// placement finishes the game with the mover's congratulation and
/// keeps the turn, any other placement hands the turn over.
pub open spec fn click_spec(s: State, b: Seq<Tile>, idx: int) -> (State, Seq<Tile>, Option<Title>) {
    if s.finished || !(b[idx].state is Empty) {
        (s, b, None)
    } else {
        let placed = b.update(idx, Tile { state: player_mark(s.turn), frame: 0 });
        if board_won(placed) {
            (State { turn: s.turn, finished: true }, placed, Some(victory_title(s.turn)))
        } else {
            (State { turn: !s.turn, finished: false }, placed, Some(turn_title(!s.turn)))
        }
    }
}

/// A run of clicks applied in order, each landing on its cell.
pub open spec fn play(s: State, b: Seq<Tile>, clicks: Seq<int>) -> (State, Seq<Tile>)
    decreases clicks.len(),
{
    if clicks.len() == 0 {
        (s, b)
    } else {
        let stepped = click_spec(s, b, clicks[0]);
        play(stepped.0, stepped.1, clicks.drop_first())
    }
}

/// Every click of the run is accepted (the game is not over and the
/// cell is empty) and none of them wins the game.
pub open spec fn run_accepted_non_winning(s: State, b: Seq<Tile>, clicks: Seq<int>) -> bool
    decreases clicks.len(),
{
    clicks.len() == 0 || {
        &&& !s.finished
        &&& 0 <= clicks[0] < 9
        &&& b[clicks[0]].state is Empty
        &&& {
            let stepped = click_spec(s, b, clicks[0]);
            &&& !stepped.0.finished
            &&& run_accepted_non_winning(stepped.0, stepped.1, clicks.drop_first())
        }
    }
}

/// The turn alternates strictly across accepted, non-winning moves:
/// after `n` such moves the player to move is the starting player for
/// even `n` and the other player for odd `n`, so from a fresh game the
/// accepted moves run cross, knot, cross, knot, ... until a win or a
/// full board.
pub proof fn lemma_turns_alternate(s: State, b: Seq<Tile>, clicks: Seq<int>)
    requires
        run_accepted_non_winning(s, b, clicks),
    ensures
        play(s, b, clicks).0.turn == (if clicks.len() % 2 == 0 { s.turn } else { !s.turn }),
        clicks.len() > 0 ==> !play(s, b, clicks).0.finished,
    decreases clicks.len(),
{
    if clicks.len() > 0 {
        let stepped = click_spec(s, b, clicks[0]);
        lemma_turns_alternate(stepped.0, stepped.1, clicks.drop_first());
    }
}

/// Which third of a window the pixel coordinate `p` falls in — the
/// floor of `p` divided by a third of the window — clamped to the
/// board's range.
pub open spec fn pixel_band(p: int, size: int) -> int {
    let band = 3 * p / size;
    if band > 2 {
        2
    } else {
        band
    }
}

/// The cell index a click at pixel (px, py) lands on, in a window of the
/// given size.
pub open spec fn clicked_cell(px: int, py: int, width: int, height: int) -> int {
    pixel_band(px, width) * 3 + pixel_band(py, height)
}

/// Create an empty game board.
pub fn gen_board() -> (b: Board)
    ensures
        b.wf(),
        forall|i: int| 0 <= i < 9 ==> b@[i] == (Tile { state: CellState::Empty, frame: 0 }),
{
    let mut tiles: Vec<Tile> = Vec::new();
    let mut i: usize = 0;
    while i < 9
        invariant
            i <= 9,
            tiles@.len() == i,
            forall|j: int| 0 <= j < i ==> tiles@[j] == (Tile { state: CellState::Empty, frame: 0 }),
        decreases 9 - i,
    {
        tiles.push(Tile::new());
        i = i + 1;
    }
    Board { tiles }
}

} // verus!
