//! Identities, players, cells and the nine-cell board.
use vstd::prelude::*;

verus! {

broadcast use vstd::array::group_array_axioms;

/// The 32-byte identity of an end-user account.
#[derive(Clone, Copy, Debug, Eq)]
pub struct AccountAddress(pub [u8; 32]);

impl PartialEq for AccountAddress {
    fn eq(&self, o: &AccountAddress) -> (r: bool) {
        let mut i: usize = 0;
        while i < 32
            invariant
                0 <= i <= 32,
                forall|j: int| 0 <= j < i ==> self.0[j] == o.0[j],
            decreases 32 - i,
        {
            if self.0[i] != o.0[i] {
                return false;
            }
            i = i + 1;
        }
        assert(self.0 =~= o.0);
        true
    }
}

impl vstd::std_specs::cmp::PartialEqSpecImpl for AccountAddress {
    open spec fn obeys_eq_spec() -> bool {
        true
    }

    open spec fn eq_spec(&self, o: &AccountAddress) -> bool {
        *self == *o
    }
}

/// An identity playing one of the two marks.
#[derive(Clone, Copy, Debug, Eq)]
pub enum Player {
    Cross(AccountAddress),
    Circle(AccountAddress),
}

impl Player {
    /// The identity behind the mark.
    pub open spec fn address_of(self) -> AccountAddress {
        match self {
            Player::Cross(a) => a,
            Player::Circle(a) => a,
        }
    }

    pub fn address(&self) -> (r: AccountAddress)
        ensures
            r == self.address_of(),
    {
        match self {
            Player::Cross(a) => *a,
            Player::Circle(a) => *a,
        }
    }

    pub fn to_cell(&self) -> (r: Cell)
        ensures
            r == Cell::Occupied(*self),
    {
        Cell::Occupied(*self)
    }
}

impl PartialEq for Player {
    fn eq(&self, o: &Player) -> (r: bool) {
        match (self, o) {
            (Player::Cross(a), Player::Cross(b)) => a == b,
            (Player::Circle(a), Player::Circle(b)) => a == b,
            _ => false,
        }
    }
}

impl vstd::std_specs::cmp::PartialEqSpecImpl for Player {
    open spec fn obeys_eq_spec() -> bool {
        true
    }

    open spec fn eq_spec(&self, o: &Player) -> bool {
        *self == *o
    }
}

/// One square of the board.
#[derive(Clone, Copy, Debug, PartialEq, Eq)]
pub enum Cell {
    Empty,
    Occupied(Player),
}

impl Cell {
    /// Whether this cell holds exactly the mark of `p`.
    pub fn is_held_by(&self, p: &Player) -> (r: bool)
        ensures
            r == (*self == Cell::Occupied(*p)),
    {
        match self {
            Cell::Empty => false,
            Cell::Occupied(q) => q == p,
        }
    }

    pub fn is_empty(&self) -> (r: bool)
        ensures
            r == (*self is Empty),
    {
        match self {
            Cell::Empty => true,
            Cell::Occupied(_) => false,
        }
    }
}

impl From<&Player> for Cell {
    fn from(p: &Player) -> (r: Cell) {
        Cell::Occupied(*p)
    }
}

impl vstd::std_specs::convert::FromSpecImpl<&Player> for Cell {
    open spec fn obeys_from_spec() -> bool {
        true
    }

    open spec fn from_spec(p: &Player) -> Cell {
        Cell::Occupied(*p)
    }
}

/// Nine cells, row-major: the cell at row `r`, column `c` has index `3 * r + c`.
#[derive(Clone, Copy, Debug, PartialEq, Eq)]
pub struct Board(pub [Cell; 9]);

impl Board {
    pub open spec fn cell(self, i: int) -> Cell {
        self.0[i]
    }

    pub open spec fn empty() -> Board {
        Board(vstd::array::spec_array_fill_for_copy_type(Cell::Empty))
    }

    pub fn new() -> (r: Board)
        ensures
            r == Board::empty(),
            forall|i: int| 0 <= i < 9 ==> #[trigger] r.cell(i) is Empty,
    {
        let r = Board([Cell::Empty; 9]);
        assert forall|i: int| 0 <= i < 9 implies #[trigger] r.cell(i) is Empty by {
            assert(r.0@[i] == Cell::Empty);
        }
        r
    }

    pub fn set(&mut self, i: usize, c: Cell)
        requires
            i < 9,
        ensures
            final(self).0@ == old(self).0@.update(i as int, c),
    {
        self.0[i] = c;
    }
}

impl Default for Board {
    fn default() -> (r: Board)
        ensures
            r == Board::empty(),
    {
        Self::new()
    }
}

} // verus!
