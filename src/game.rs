use vstd::prelude::*;

use crate::mark::{BoxState, Player};

verus! {

/// What a game is, seen from outside: the board as rows of cells, whose turn
/// it is, and whether someone has won.
pub struct GameView {
    pub grid: Seq<Seq<BoxState>>,
    pub current_player: Player,
    pub game_is_over: bool,
}

/// Whether `(row, col)` names a cell of the 3 by 3 board.
pub open spec fn in_board(row: int, col: int) -> bool {
    0 <= row < 3 && 0 <= col < 3
}

/// All three cells of row `r` hold `m`.
pub open spec fn row_full(g: Seq<Seq<BoxState>>, r: int, m: BoxState) -> bool {
    g[r][0] == m && g[r][1] == m && g[r][2] == m
}

/// All three cells of column `c` hold `m`.
pub open spec fn col_full(g: Seq<Seq<BoxState>>, c: int, m: BoxState) -> bool {
    g[0][c] == m && g[1][c] == m && g[2][c] == m
}

/// The diagonal from the top left corner holds `m` throughout.
pub open spec fn diag_full(g: Seq<Seq<BoxState>>, m: BoxState) -> bool {
    g[0][0] == m && g[1][1] == m && g[2][2] == m
}

/// The diagonal from the top right corner holds `m` throughout.
pub open spec fn anti_diag_full(g: Seq<Seq<BoxState>>, m: BoxState) -> bool {
    g[0][2] == m && g[1][1] == m && g[2][0] == m
}

/// Three of `p`'s marks stand in a row, a column or a diagonal of `g`.
pub open spec fn has_three_in_line(g: Seq<Seq<BoxState>>, p: Player) -> bool {
    let m = p.spec_mark();
    ||| exists|r: int| 0 <= r < 3 && #[trigger] row_full(g, r, m)
    ||| exists|c: int| 0 <= c < 3 && #[trigger] col_full(g, c, m)
    ||| diag_full(g, m)
    ||| anti_diag_full(g, m)
}

/// A move at `(row, col)` is taken: the cell is empty and nobody has won yet.
/// Any other click is ignored.
pub open spec fn move_allowed(v: GameView, row: int, col: int) -> bool {
    v.grid[row][col] == BoxState::Empty && !v.game_is_over
}

/// The grid `g` with `m` put at `(row, col)`.
pub open spec fn grid_with(g: Seq<Seq<BoxState>>, row: int, col: int, m: BoxState) -> Seq<
    Seq<BoxState>,
> {
    g.update(row, g[row].update(col, m))
}

/// The game after a click on `(row, col)`. An allowed move puts the current
/// player's mark there; if that player now has three in a line the game is
/// over and the turn stays with the winner, else the turn passes.
pub open spec fn after_move(v: GameView, row: int, col: int) -> GameView {
    if move_allowed(v, row, col) {
        let g = grid_with(v.grid, row, col, v.current_player.spec_mark());
        let won = has_three_in_line(g, v.current_player);
        GameView {
            grid: g,
            current_player: if won {
                v.current_player
            } else {
                v.current_player.spec_other()
            },
            game_is_over: won,
        }
    } else {
        v
    }
}

/// A move ends the game exactly when it gives the player who made it three
/// marks in a line, and the game once over stays over with the same board.
pub proof fn lemma_game_ends_on_win(v: GameView, row: int, col: int)
    requires
        in_board(row, col),
    ensures
        move_allowed(v, row, col) ==> (after_move(v, row, col).game_is_over <==> has_three_in_line(
            after_move(v, row, col).grid,
            v.current_player,
        )),
        v.game_is_over ==> after_move(v, row, col) == v,
{
}

/// The state of one game: the board, whose turn it is, and whether it is over.
pub struct GameState {
    grid: [[BoxState; 3]; 3],
    current_player: Player,
    game_is_over: bool,
}

impl View for GameState {
    type V = GameView;

    closed spec fn view(&self) -> GameView {
        GameView {
            grid: Seq::new(3, |r: int| Seq::new(3, |c: int| self.grid[r][c])),
            current_player: self.current_player,
            game_is_over: self.game_is_over,
        }
    }
}

/// A move never takes a mark off the board: every cell that held a mark
/// before a click holds the same mark after it.
pub proof fn lemma_marks_stay(game: &GameState, row: int, col: int)
    requires
        in_board(row, col),
    ensures
        forall|r: int, c: int|
            in_board(r, c) && game@.grid[r][c] != BoxState::Empty ==> #[trigger] after_move(
                game@,
                row,
                col,
            ).grid[r][c] == game@.grid[r][c],
{
}

/// The outcome that the state shows agrees with the board: the game is over
/// exactly when the player it names has three marks in a line, and the other
/// player never has.
pub open spec fn outcome_consistent(v: GameView) -> bool {
    &&& v.game_is_over <==> has_three_in_line(v.grid, v.current_player)
    &&& !has_three_in_line(v.grid, v.current_player.spec_other())
}

/// Every move keeps the outcome consistent with the board. With `new`, which
/// starts consistent, this makes the win check right after any sequence of
/// moves: the game ends exactly when the player who just moved has three in a
/// line, and never while neither has.
pub proof fn lemma_outcome_kept(game: &GameState, row: int, col: int)
    requires
        in_board(row, col),
        outcome_consistent(game@),
    ensures
        outcome_consistent(after_move(game@, row, col)),
{
    let v = game@;
    if move_allowed(v, row, col) {
        let p = v.current_player;
        let q = p.spec_other();
        let g = v.grid;
        let g2 = grid_with(g, row, col, p.spec_mark());
        let mq = q.spec_mark();
        assert(p.spec_mark() != mq);
        assert forall|r: int| 0 <= r < 3 && #[trigger] row_full(g2, r, mq) implies row_full(
            g,
            r,
            mq,
        ) by {
            assert(g2[r][0] == g[r][0] && g2[r][1] == g[r][1] && g2[r][2] == g[r][2]);
        }
        assert forall|c: int| 0 <= c < 3 && #[trigger] col_full(g2, c, mq) implies col_full(
            g,
            c,
            mq,
        ) by {
            assert(g2[0][c] == g[0][c] && g2[1][c] == g[1][c] && g2[2][c] == g[2][c]);
        }
        assert(diag_full(g2, mq) ==> diag_full(g, mq));
        assert(anti_diag_full(g2, mq) ==> anti_diag_full(g, mq));
        assert(!has_three_in_line(g2, q));
        assert(q.spec_other() == p);
    }
}

impl GameState {
    /// The grid of a fresh game: every cell empty.
    pub open spec fn empty_grid() -> Seq<Seq<BoxState>> {
        Seq::new(3, |r: int| Seq::new(3, |c: int| BoxState::Empty))
    }

    /// A new game: an empty board, `X` to move.
    pub fn new() -> (r: GameState)
        ensures
            r@.grid == Self::empty_grid(),
            r@.current_player == Player::X,
            !r@.game_is_over,
            outcome_consistent(r@),
    {
        let r = GameState {
            grid: [[BoxState::Empty; 3]; 3],
            current_player: Player::X,
            game_is_over: false,
        };
        assert(r@.grid =~~= Self::empty_grid());
        r
    }

    /// A click on `(row, col)`: if the cell is empty and the game not over,
    /// the current player's mark goes there; then either that player has won
    /// and the game is over, or the turn passes. Returns whether the move was
    /// taken; an ignored click changes nothing.
    pub fn play(&mut self, row: usize, col: usize) -> (taken: bool)
        requires
            in_board(row as int, col as int),
        ensures
            taken == move_allowed(old(self)@, row as int, col as int),
            final(self)@ == after_move(old(self)@, row as int, col as int),
    {
        if self.grid[row][col] != BoxState::Empty || self.game_is_over {
            return false;
        }
        let ghost before = self@;
        let current_player = self.current_player;
        self.grid[row][col] = current_player.into();
        assert(self@.grid =~~= grid_with(before.grid, row as int, col as int, current_player.spec_mark()));
        match check_victory(self, current_player) {
            Some(_) => {
                self.game_is_over = true;
            },
            None => {
                self.next_player();
            },
        }
        assert(self@.grid =~~= after_move(before, row as int, col as int).grid);
        true
    }

    /// The content of the cell at `(row, col)`.
    pub fn cell(&self, row: usize, col: usize) -> (r: BoxState)
        requires
            in_board(row as int, col as int),
        ensures
            r == self@.grid[row as int][col as int],
    {
        self.grid[row][col]
    }

    /// The player to move, or the winner once the game is over.
    pub fn current_player(&self) -> (r: Player)
        ensures
            r == self@.current_player,
    {
        self.current_player
    }

    /// Whether someone has won.
    pub fn game_is_over(&self) -> (r: bool)
        ensures
            r == self@.game_is_over,
    {
        self.game_is_over
    }

    /// Passes the turn to the other player; nothing else changes.
    pub fn next_player(&mut self)
        ensures
            final(self)@.current_player == old(self)@.current_player.spec_other(),
            final(self)@.grid == old(self)@.grid,
            final(self)@.game_is_over == old(self)@.game_is_over,
    {
        self.current_player = match self.current_player {
            Player::X => Player::O,
            Player::O => Player::X,
        };
        assert(self@.grid =~~= old(self)@.grid);
    }
}


/// Whether `last_player` has won: `Some(last_player)` exactly when three of
/// that player's marks stand in a row, a column or a diagonal, `None`
/// otherwise. The board is left as it is.
pub fn check_victory(game_state: &mut GameState, last_player: Player) -> (r: Option<Player>)
    ensures
        *final(game_state) == *old(game_state),
        r == (if has_three_in_line(old(game_state)@.grid, last_player) {
            Some(last_player)
        } else {
            None
        }),
{
    let ghost g = game_state@.grid;
    let m = last_player.mark();
    let grid = &game_state.grid;
    assert(forall|r: int, c: int| in_board(r, c) ==> #[trigger] g[r][c] == grid[r][c]);

    // rows
    for j in 0..3
        invariant
            g == game_state@.grid,
            m == last_player.spec_mark(),
            forall|r: int, c: int| in_board(r, c) ==> #[trigger] g[r][c] == grid[r][c],
            forall|r: int| 0 <= r < j ==> !#[trigger] row_full(g, r, m),
    {
        let mut all: bool = true;
        for i in 0..3
            invariant
                0 <= j < 3,
                m == last_player.spec_mark(),
                forall|r: int, c: int| in_board(r, c) ==> #[trigger] g[r][c] == grid[r][c],
                all == (forall|c: int| 0 <= c < i ==> g[j as int][c] == m),
        {
            assert(g[j as int][i as int] == grid[j as int][i as int]);
            if grid[j][i] != m {
                all = false;
            }
        }
        if all {
            assert(row_full(g, j as int, m));
            return Some(last_player);
        }
    }

    // cols
    for i in 0..3
        invariant
            g == game_state@.grid,
            m == last_player.spec_mark(),
            forall|r: int, c: int| in_board(r, c) ==> #[trigger] g[r][c] == grid[r][c],
            forall|r: int| 0 <= r < 3 ==> !#[trigger] row_full(g, r, m),
            forall|c: int| 0 <= c < i ==> !#[trigger] col_full(g, c, m),
    {
        let mut won: bool = true;
        let mut j: usize = 0;
        while j < 3
            invariant_except_break
                won,
                forall|r: int| 0 <= r < j ==> g[r][i as int] == m,
            invariant
                0 <= i < 3,
                0 <= j <= 3,
                forall|r: int, c: int| in_board(r, c) ==> #[trigger] g[r][c] == grid[r][c],
            ensures
                won <==> col_full(g, i as int, m),
            decreases 3 - j,
        {
            if grid[j][i] != m {
                won = false;
                break;
            }
            j = j + 1;
        }
        if won {
            return Some(last_player);
        }
    }

    // diagonal from the top left
    if grid[0][0] == grid[1][1] && grid[1][1] == grid[2][2] && grid[2][2] == m {
        return Some(last_player);
    }

    // diagonal from the top right
    if grid[0][2] == grid[1][1] && grid[1][1] == grid[2][0] && grid[2][0] == m {
        return Some(last_player);
    }

    None
}

} // verus!
