//! Move types, the textual move-selector table, and the dominance relation.

use vstd::prelude::*;

verus! {

/// A player's game choice. `Unrevealed` is the sentinel state of a slot whose
/// commitment has been stored but whose move has not yet been disclosed; it is
/// never a valid input to winner computation.
#[derive(Clone, Copy, PartialEq, Eq, Structural, Debug)]
pub enum MoveType {
    Unrevealed,
    Rock,
    Paper,
    Scissors,
}

/// The fixed textual-code table mapping a caller-supplied move selector to a
/// move: `"1"` is Rock, `"2"` is Paper, `"3"` is Scissors. Any other selector
/// maps to `Unrevealed`, which reveal verification rejects as an invalid code.
pub open spec fn move_of_selector(s: Seq<char>) -> MoveType {
    if s == seq!['1'] {
        MoveType::Rock
    } else if s == seq!['2'] {
        MoveType::Paper
    } else if s == seq!['3'] {
        MoveType::Scissors
    } else {
        MoveType::Unrevealed
    }
}

/// The numeric code of each move, as handed to a UI: the inverse direction of
/// the selector table, with `0` standing for `Unrevealed`.
pub open spec fn move_code(m: MoveType) -> u32 {
    match m {
        MoveType::Unrevealed => 0u32,
        MoveType::Rock => 1u32,
        MoveType::Paper => 2u32,
        MoveType::Scissors => 3u32,
    }
}

/// The dominance relation: Rock beats Scissors, Scissors beats Paper, Paper
/// beats Rock. `Unrevealed` neither beats nor is beaten by anything.
pub open spec fn beats(a: MoveType, b: MoveType) -> bool {
    (a == MoveType::Rock && b == MoveType::Scissors) || (a == MoveType::Scissors
        && b == MoveType::Paper) || (a == MoveType::Paper && b == MoveType::Rock)
}

/// The mathematical content of a stored [`Move`]: the commitment digest it
/// was created with and the move it has been revealed to be, if any.
#[verifier::ext_equal]
pub ghost struct MoveView {
    pub commitment: Seq<char>,
    pub move_type: MoveType,
}

/// One participant's slot: the commitment stored when the slot was created,
/// paired with the move it was later revealed to be (`Unrevealed` until a
/// reveal succeeds).
pub struct Move {
    pub(crate) commitment: String,
    pub(crate) move_type: MoveType,
}

impl View for Move {
    type V = MoveView;

    open(crate) spec fn view(&self) -> MoveView {
        MoveView { commitment: self.commitment@, move_type: self.move_type }
    }
}

impl Clone for Move {
    fn clone(&self) -> (res: Move)
        ensures
            res@ == self@,
    {
        Move { commitment: self.commitment.clone(), move_type: self.move_type }
    }
}

impl Move {
    /// Creates a slot holding `commitment`, with no move revealed yet.
    pub fn new(commitment: String) -> (r: Move)
        ensures
            r@ == (MoveView { commitment: commitment@, move_type: MoveType::Unrevealed }),
    {
        Move { commitment, move_type: MoveType::Unrevealed }
    }

    /// The numeric code of the slot's move, `0` while it is unrevealed.
    pub fn movement(&self) -> (r: u32)
        ensures
            r == move_code(self@.move_type),
    {
        u32::from(self.move_type)
    }
}

impl From<String> for MoveType {
    /// Decodes a textual move selector by the fixed table.
    fn from(value: String) -> (r: MoveType)
        ensures
            r == move_of_selector(value@),
    {
        let s: &str = value.as_str();
        let n: usize = s.unicode_len();
        if n == 1 {
            let c: char = s.get_char(0);
            if c == '1' {
                proof {
                    assert(value@ =~= seq!['1']);
                }
                MoveType::Rock
            } else if c == '2' {
                proof {
                    assert(value@ =~= seq!['2']);
                }
                MoveType::Paper
            } else if c == '3' {
                proof {
                    assert(value@ =~= seq!['3']);
                }
                MoveType::Scissors
            } else {
                proof {
                    assert(value@ != seq!['1'] && value@ != seq!['2'] && value@ != seq!['3']);
                }
                MoveType::Unrevealed
            }
        } else {
            proof {
                assert(value@ != seq!['1'] && value@ != seq!['2'] && value@ != seq!['3']);
            }
            MoveType::Unrevealed
        }
    }
}

impl vstd::std_specs::convert::FromSpecImpl<String> for MoveType {
    open spec fn obeys_from_spec() -> bool {
        true
    }

    open spec fn from_spec(v: String) -> MoveType {
        move_of_selector(v@)
    }
}

impl From<MoveType> for u32 {
    /// Encodes a move as its numeric code.
    fn from(val: MoveType) -> (r: u32)
        ensures
            r == move_code(val),
    {
        match val {
            MoveType::Rock => 1,
            MoveType::Paper => 2,
            MoveType::Scissors => 3,
            MoveType::Unrevealed => 0,
        }
    }
}

impl vstd::std_specs::convert::FromSpecImpl<MoveType> for u32 {
    open spec fn obeys_from_spec() -> bool {
        true
    }

    open spec fn from_spec(v: MoveType) -> u32 {
        move_code(v)
    }
}

} // verus!
