use vstd::prelude::*;

use crate::game::{after_move, in_board, move_allowed, GameState, GameView};
use crate::mark::BoxState;

verus! {

/// What the pointer does to a cell's button.
#[derive(Clone, Copy, PartialEq, Eq, Debug, Structural)]
pub enum CellInteraction {
    Clicked,
    Hovered,
    Idle,
}

/// The colour a cell's button is drawn in.
#[derive(Clone, Copy, PartialEq, Eq, Debug, Structural)]
pub enum ButtonShade {
    Normal,
    Hovered,
    Pressed,
}

/// How to draw a cell's button again: the mark it shows and its colour.
#[derive(Clone, Copy, PartialEq, Eq, Debug, Structural)]
pub struct CellRedraw {
    pub mark: BoxState,
    pub shade: ButtonShade,
}

/// The game after `interaction` on the cell `(row, col)`: only a click can
/// change it.
pub open spec fn after_interaction(
    v: GameView,
    row: int,
    col: int,
    interaction: CellInteraction,
) -> GameView {
    match interaction {
        CellInteraction::Clicked => after_move(v, row, col),
        _ => v,
    }
}

/// How the cell is drawn after `interaction`: a taken click shows the new
/// mark, pressed; an ignored click leaves the button as it is; hovering and
/// leaving show the cell's mark, hovered or normal.
pub open spec fn redraw_for(
    v: GameView,
    row: int,
    col: int,
    interaction: CellInteraction,
) -> Option<CellRedraw> {
    match interaction {
        CellInteraction::Clicked => if move_allowed(v, row, col) {
            Some(
                CellRedraw {
                    mark: after_move(v, row, col).grid[row][col],
                    shade: ButtonShade::Pressed,
                },
            )
        } else {
            None
        },
        CellInteraction::Hovered => Some(
            CellRedraw { mark: v.grid[row][col], shade: ButtonShade::Hovered },
        ),
        CellInteraction::Idle => Some(
            CellRedraw { mark: v.grid[row][col], shade: ButtonShade::Normal },
        ),
    }
}

/// Handles one interaction with the button of cell `(row, col)`: applies a
/// click to the game and says how to draw the button, or `None` where it
/// stays as it is.
pub fn handle_button(
    game_state: &mut GameState,
    row: usize,
    col: usize,
    interaction: CellInteraction,
) -> (r: Option<CellRedraw>)
    requires
        in_board(row as int, col as int),
    ensures
        final(game_state)@ == after_interaction(old(game_state)@, row as int, col as int, interaction),
        r == redraw_for(old(game_state)@, row as int, col as int, interaction),
{
    match interaction {
        CellInteraction::Clicked => {
            if game_state.play(row, col) {
                Some(CellRedraw { mark: game_state.cell(row, col), shade: ButtonShade::Pressed })
            } else {
                None
            }
        },
        CellInteraction::Hovered => Some(
            CellRedraw { mark: game_state.cell(row, col), shade: ButtonShade::Hovered },
        ),
        CellInteraction::Idle => Some(
            CellRedraw { mark: game_state.cell(row, col), shade: ButtonShade::Normal },
        ),
    }
}

/// The status line: whose turn it is, or who has won.
pub open spec fn spec_info_text(v: GameView) -> Seq<char> {
    if v.game_is_over {
        "Player "@ + v.current_player.spec_symbol() + " Won!!"@
    } else {
        "Player "@ + v.current_player.spec_symbol() + "'s turn"@
    }
}

impl GameState {
    /// The status line of this game: "Player X's turn" while it goes on,
    /// "Player X Won!!" once the player named has won.
    pub fn info_text(&self) -> (r: String)
        ensures
            r@ == spec_info_text(self@),
    {
        let mut text = String::from_str("Player ");
        text.append(self.current_player().symbol());
        if self.game_is_over() {
            text.append(" Won!!");
        } else {
            text.append("'s turn");
        }
        text
    }
}

} // verus!
