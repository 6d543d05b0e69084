use vstd::prelude::*;

verus! {

/// The content of one cell of the board.
#[derive(Clone, Copy, PartialEq, Eq, Debug, Structural)]
pub enum BoxState {
    Empty,
    X,
    O,
}

/// The two players; `X` moves first.
#[derive(Clone, Copy, PartialEq, Eq, Debug, Structural)]
pub enum Player {
    X,
    O,
}

impl BoxState {
    /// The one-character text that shows the cell: a blank, `X` or `O`.
    pub open spec fn spec_symbol(self) -> Seq<char> {
        match self {
            BoxState::Empty => seq![' '],
            BoxState::X => seq!['X'],
            BoxState::O => seq!['O'],
        }
    }

    /// The text that shows the cell.
    pub fn symbol(&self) -> (r: &'static str)
        ensures
            r@ == self.spec_symbol(),
    {
        match self {
            BoxState::Empty => {
                proof {
                    reveal_strlit(" ");
                }
                " "
            },
            BoxState::X => {
                proof {
                    reveal_strlit("X");
                }
                "X"
            },
            BoxState::O => {
                proof {
                    reveal_strlit("O");
                }
                "O"
            },
        }
    }

    /// The text that shows the cell, as an owned string.
    pub fn to_string(&self) -> (r: String)
        ensures
            r@ == self.spec_symbol(),
    {
        String::from_str(self.symbol())
    }
}

impl Player {
    /// The player who moves after `self`.
    pub open spec fn spec_other(self) -> Player {
        match self {
            Player::X => Player::O,
            Player::O => Player::X,
        }
    }

    /// The mark that `self` leaves on a cell.
    pub open spec fn spec_mark(self) -> BoxState {
        match self {
            Player::X => BoxState::X,
            Player::O => BoxState::O,
        }
    }

    /// The player's name as shown to the players: `X` or `O`.
    pub open spec fn spec_symbol(self) -> Seq<char> {
        self.spec_mark().spec_symbol()
    }

    /// The player who moves after `self`.
    pub fn other(&self) -> (r: Player)
        ensures
            r == self.spec_other(),
    {
        match self {
            Player::X => Player::O,
            Player::O => Player::X,
        }
    }

    /// The mark that `self` leaves on a cell.
    pub fn mark(&self) -> (r: BoxState)
        ensures
            r == self.spec_mark(),
    {
        match self {
            Player::X => BoxState::X,
            Player::O => BoxState::O,
        }
    }

    /// The player's name: `X` or `O`.
    pub fn symbol(&self) -> (r: &'static str)
        ensures
            r@ == self.spec_symbol(),
    {
        self.mark().symbol()
    }

    /// The player's name, as an owned string.
    pub fn to_string(&self) -> (r: String)
        ensures
            r@ == self.spec_symbol(),
    {
        String::from_str(self.symbol())
    }
}

impl From<Player> for BoxState {
    fn from(p: Player) -> (r: BoxState) {
        p.mark()
    }
}

impl vstd::std_specs::convert::FromSpecImpl<Player> for BoxState {
    open spec fn obeys_from_spec() -> bool {
        true
    }

    open spec fn from_spec(p: Player) -> BoxState {
        p.spec_mark()
    }
}

} // verus!
