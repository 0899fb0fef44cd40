//! The challenge state machine: commitment storage, reveal verification
//! against the stored commitment, and deterministic winner computation.

use crate::moves::{beats, move_of_selector, Move, MoveType, MoveView};
use sha3::{Digest, Sha3_256};
use vstd::prelude::*;

verus! {

/// Recoverable validation failures of challenge operations. Every failure is
/// local to one operation and leaves the challenge unchanged.
#[derive(Clone, Copy, PartialEq, Eq, Structural, Debug)]
pub enum Error {
    /// A reveal was attempted before an opponent joined.
    NoOpponentYet,
    /// A second opponent tried to join a challenge that already has one.
    AlreadyHasOpponent,
    /// The creator tried to join their own challenge as the opponent.
    SelfChallenge,
    /// The revealing address is neither the creator nor the opponent.
    UnknownParticipant,
    /// The digest of `move_selector || nonce` differs from the stored
    /// commitment.
    CommitmentMismatch,
    /// A reveal tried to change a move that was already revealed.
    AlreadyRevealed,
    /// The move selector matched the commitment but names no move.
    InvalidMoveCode,
}

/// The result of winner computation: not yet decidable, a tie, or the
/// winning participant's address.
#[derive(PartialEq, Eq, Debug)]
pub enum WinnerOutcome {
    NoWinnerYet,
    Tie,
    Winner(String),
}

/// The opponent's slot of a challenge: the joining address and the move it
/// committed to.
pub struct OpponentSlot {
    pub(crate) address: String,
    pub(crate) player_move: Move,
}

/// The mathematical content of a [`Challenge`]: its identity, the creator's
/// slot, and the opponent's slot once one has joined.
#[verifier::ext_equal]
pub ghost struct ChallengeView {
    pub id: u32,
    pub created_at: Seq<char>,
    pub creator_address: Seq<char>,
    pub creator_move: MoveView,
    pub opponent: Option<(Seq<char>, MoveView)>,
}

/// One game instance: two participants, their commitments, and their revealed
/// moves. The winner is derived on demand, never stored.
pub struct Challenge {
    id: u32,
    // ISO 8601, informational only
    created_at: String,
    creator_address: String,
    creator_move: Move,
    opponent: Option<OpponentSlot>,
}

impl View for Challenge {
    type V = ChallengeView;

    closed spec fn view(&self) -> ChallengeView {
        ChallengeView {
            id: self.id,
            created_at: self.created_at@,
            creator_address: self.creator_address@,
            creator_move: self.creator_move@,
            opponent: match self.opponent {
                Some(ref slot) => Some((slot.address@, slot.player_move@)),
                None => None,
            },
        }
    }
}

impl ChallengeView {
    /// Well-formedness: the opponent, if one has joined, is a different
    /// participant than the creator, so the two slots never share a key.
    pub open spec fn wf(self) -> bool {
        match self.opponent {
            Some(o) => o.0 != self.creator_address,
            None => true,
        }
    }

    pub open spec fn has_opponent(self) -> bool {
        self.opponent is Some
    }

    pub open spec fn opponent_address(self) -> Option<Seq<char>> {
        match self.opponent {
            Some(o) => Some(o.0),
            None => None,
        }
    }

    /// The slot of a participant, creator first: the mapping from participant
    /// address to stored move that the challenge maintains.
    pub open spec fn player_move(self, addr: Seq<char>) -> Option<MoveView> {
        if addr == self.creator_address {
            Some(self.creator_move)
        } else {
            match self.opponent {
                Some(o) => if addr == o.0 {
                    Some(o.1)
                } else {
                    None
                },
                None => None,
            }
        }
    }

    /// The commitments as a finite map from participant address to slot.
    pub open spec fn commitments_map(self) -> Map<Seq<char>, MoveView> {
        match self.opponent {
            Some(o) => Map::empty().insert(self.creator_address, self.creator_move).insert(
                o.0,
                o.1,
            ),
            None => Map::empty().insert(self.creator_address, self.creator_move),
        }
    }

    /// Both slots exist and both moves have been revealed.
    pub open spec fn both_revealed(self) -> bool {
        match self.opponent {
            Some(o) => self.creator_move.move_type != MoveType::Unrevealed && o.1.move_type
                != MoveType::Unrevealed,
            None => false,
        }
    }

    /// The two revealed moves are equal.
    pub open spec fn is_tie(self) -> bool {
        match self.opponent {
            Some(o) => self.creator_move.move_type == o.1.move_type,
            None => false,
        }
    }

    /// The address of the dominant side, by the fixed beats-relation.
    pub open spec fn winner_address(self) -> Seq<char>
        recommends
            self.both_revealed(),
            !self.is_tie(),
    {
        match self.opponent {
            Some(o) => if beats(self.creator_move.move_type, o.1.move_type) {
                self.creator_address
            } else {
                o.0
            },
            None => self.creator_address,
        }
    }

    /// The view after the slot keyed by `addr` is replaced by `mv`; the view
    /// itself where no slot is keyed by `addr`.
    pub open spec fn update_move(self, addr: Seq<char>, mv: MoveView) -> ChallengeView {
        if addr == self.creator_address {
            ChallengeView { creator_move: mv, ..self }
        } else {
            match self.opponent {
                Some(o) => if addr == o.0 {
                    ChallengeView { opponent: Some((o.0, mv)), ..self }
                } else {
                    self
                },
                None => self,
            }
        }
    }

    /// The view with the creator and opponent roles exchanged: addresses and
    /// moves swap together.
    pub open spec fn swap_roles(self) -> ChallengeView
        recommends
            self.has_opponent(),
    {
        match self.opponent {
            Some(o) => ChallengeView {
                creator_address: o.0,
                creator_move: o.1,
                opponent: Some((self.creator_address, self.creator_move)),
                ..self
            },
            None => self,
        }
    }
}

/// What a successful or failed attempt to join a challenge yields: the new
/// state on success, the error on failure.
pub open spec fn spec_add_opponent(
    pre: ChallengeView,
    addr: Seq<char>,
    commitment: Seq<char>,
) -> Result<ChallengeView, Error> {
    if pre.has_opponent() {
        Err(Error::AlreadyHasOpponent)
    } else if addr == pre.creator_address {
        Err(Error::SelfChallenge)
    } else {
        Ok(
            ChallengeView {
                opponent: Some((addr, MoveView { commitment, move_type: MoveType::Unrevealed })),
                ..pre
            },
        )
    }
}

/// What verifying a reveal against one slot yields: the updated slot when the
/// digest of `move_selector || nonce` equals the stored commitment, the
/// selector names a move, and the slot is not already revealed as a different
/// move; the error otherwise.
pub open spec fn spec_apply_reveal(
    mv: MoveView,
    digest: Seq<char>,
    selector: Seq<char>,
) -> Result<MoveView, Error> {
    if digest != mv.commitment {
        Err(Error::CommitmentMismatch)
    } else {
        let m = move_of_selector(selector);
        if m == MoveType::Unrevealed {
            Err(Error::InvalidMoveCode)
        } else if mv.move_type != MoveType::Unrevealed && mv.move_type != m {
            Err(Error::AlreadyRevealed)
        } else {
            Ok(MoveView { move_type: m, ..mv })
        }
    }
}

/// What a reveal attempt yields: the new challenge state on success, the
/// error on failure. Checks run in a fixed order — opponent present, known
/// participant, digest matches the stored commitment, selector names a move,
/// move not already revealed differently — and failure changes nothing.
pub open spec fn spec_reveal(
    pre: ChallengeView,
    addr: Seq<char>,
    selector: Seq<char>,
    nonce: Seq<char>,
) -> Result<ChallengeView, Error> {
    if !pre.has_opponent() {
        Err(Error::NoOpponentYet)
    } else {
        match pre.player_move(addr) {
            None => Err(Error::UnknownParticipant),
            Some(mv) => match spec_apply_reveal(mv, sha3_256_hex(selector + nonce), selector) {
                Err(e) => Err(e),
                Ok(mv2) => Ok(pre.update_move(addr, mv2)),
            },
        }
    }
}

/// A read-only snapshot of a challenge's commitments: the mapping from
/// participant address to that participant's stored move.
pub struct Mapper {
    creator_address: String,
    creator_move: Move,
    opponent: Option<OpponentSlot>,
}

impl View for Mapper {
    type V = Map<Seq<char>, MoveView>;

    closed spec fn view(&self) -> Map<Seq<char>, MoveView> {
        match self.opponent {
            Some(ref slot) => Map::empty().insert(self.creator_address@, self.creator_move@)
                .insert(slot.address@, slot.player_move@),
            None => Map::empty().insert(self.creator_address@, self.creator_move@),
        }
    }
}

impl Mapper {
    /// Looks a participant's stored move up by address.
    pub fn get(&self, key: &str) -> (r: Option<Move>)
        ensures
            r is Some == self@.contains_key(key@),
            r matches Some(m) ==> self@.contains_key(key@) && m@ == self@[key@],
    {
        let k: String = key.to_owned();
        // the opponent's entry is checked first: it was inserted last, so this
        // matches the map's later-insert-wins semantics even for equal keys
        match &self.opponent {
            Some(slot) => {
                if k == slot.address {
                    Some(slot.player_move.clone())
                } else if k == self.creator_address {
                    Some(self.creator_move.clone())
                } else {
                    None
                }
            },
            None => {
                if k == self.creator_address {
                    Some(self.creator_move.clone())
                } else {
                    None
                }
            },
        }
    }
}

/// Verifies a reveal against one slot and records the move there, exactly as
/// [`spec_apply_reveal`] describes: `reveal_hash` must equal the stored
/// commitment and `selector` must name a move that does not change an
/// already-revealed one.
fn apply_reveal(m: &mut Move, reveal_hash: &String, selector: &String) -> (result: Result<
    (),
    Error,
>)
    ensures
        match result {
            Ok(()) => spec_apply_reveal(old(m)@, reveal_hash@, selector@) == Ok::<MoveView, Error>(
                final(m)@,
            ),
            Err(e) => spec_apply_reveal(old(m)@, reveal_hash@, selector@) == Err::<MoveView, Error>(
                e,
            ) && final(m)@ == old(m)@,
        },
{
    if !(*reveal_hash == m.commitment) {
        return Err(Error::CommitmentMismatch);
    }
    let decoded = MoveType::from(selector.clone());
    if decoded == MoveType::Unrevealed {
        return Err(Error::InvalidMoveCode);
    }
    if m.move_type != MoveType::Unrevealed && m.move_type != decoded {
        return Err(Error::AlreadyRevealed);
    }
    m.move_type = decoded;
    Ok(())
}

/// The SHA3-256 digest of a string, as the lowercase hex string that
/// commitments store and reveal verification compares against.
pub uninterp spec fn sha3_256_hex(input: Seq<char>) -> Seq<char>;

/// Relies on chrono's `Utc::now` and `DateTime::to_rfc3339` for the
/// informational creation timestamp. The result depends on the wall clock,
/// so nothing is promised of it.
#[verifier::external_body]
fn current_time_rfc3339() -> String {
    chrono::Utc::now().to_rfc3339()
}

impl Challenge {
    /// Computes the commitment digest: the SHA3-256 hash of the input,
    /// hex-encoded. Callers build commitments with it before submitting a
    /// move, and reveal verification recomputes it.
    ///
    /// Relies on `sha3::Sha3_256` through the `digest` traits, and on
    /// generic-array's `LowerHex` formatting: the digest is a pure function
    /// of the input bytes, 32 bytes long, printed as two lowercase hex
    /// digits per byte.
    #[verifier::external_body]
    pub fn generate_hash(hash: String) -> (r: String)
        ensures
            r@ == sha3_256_hex(hash@),
            r@.len() == 64,
    {
        let mut hasher = Sha3_256::new();
        hasher.update(hash);
        let result = hasher.finalize();
        format!("{:x}", result)
    }

    /// Creates a challenge holding the creator's commitment, with no opponent
    /// and nothing revealed. The creation timestamp is informational only and
    /// unconstrained.
    pub fn new(id: u32, creator_address: String, commitment: String) -> (r: Challenge)
        ensures
            r@.id == id,
            r@.creator_address == creator_address@,
            r@.creator_move == (MoveView { commitment: commitment@, move_type: MoveType::Unrevealed }),
            r@.opponent is None,
            r@.wf(),
    {
        Challenge {
            id,
            created_at: current_time_rfc3339(),
            creator_address,
            creator_move: Move::new(commitment),
            opponent: None,
        }
    }

    pub fn creator_address(&self) -> (r: String)
        ensures
            r@ == self@.creator_address,
    {
        self.creator_address.clone()
    }

    pub fn opponent_address(&self) -> (r: Option<String>)
        ensures
            r is Some == self@.has_opponent(),
            r matches Some(a) ==> self@.opponent_address() == Some(a@),
    {
        match &self.opponent {
            Some(slot) => Some(slot.address.clone()),
            None => None,
        }
    }

    /// Attaches the opponent's commitment, exactly once: joining twice fails
    /// with `AlreadyHasOpponent`, and the creator cannot be their own
    /// opponent.
    pub fn add_opponent(&mut self, opponent_address: String, commitment: String) -> (result: Result<
        (),
        Error,
    >)
        ensures
            match result {
                Ok(()) => spec_add_opponent(old(self)@, opponent_address@, commitment@)
                    == Ok::<ChallengeView, Error>(final(self)@),
                Err(e) => spec_add_opponent(old(self)@, opponent_address@, commitment@)
                    == Err::<ChallengeView, Error>(e) && final(self)@ == old(self)@,
            },
            old(self)@.wf() ==> final(self)@.wf(),
    {
        if self.opponent.is_some() {
            return Err(Error::AlreadyHasOpponent);
        }
        if opponent_address == self.creator_address {
            return Err(Error::SelfChallenge);
        }
        self.opponent = Some(
            OpponentSlot { address: opponent_address, player_move: Move::new(commitment) },
        );
        Ok(())
    }

    /// Verifies a reveal and records the move: fails with `NoOpponentYet`
    /// before an opponent joins, with `UnknownParticipant` for an address
    /// that owns no slot, with `CommitmentMismatch` when the digest of
    /// `move_type || nonce` differs from the stored commitment, with
    /// `InvalidMoveCode` when the selector names no move, and with
    /// `AlreadyRevealed` when it would change a move already revealed.
    /// On success exactly the caller's slot is set; on failure nothing
    /// changes.
    pub fn reveal_move(&mut self, address: String, move_type: String, nonce: String) -> (result: Result<
        (),
        Error,
    >)
        ensures
            match result {
                Ok(()) => spec_reveal(old(self)@, address@, move_type@, nonce@)
                    == Ok::<ChallengeView, Error>(final(self)@),
                Err(e) => spec_reveal(old(self)@, address@, move_type@, nonce@)
                    == Err::<ChallengeView, Error>(e) && final(self)@ == old(self)@,
            },
            old(self)@.wf() ==> final(self)@.wf(),
    {
        if self.opponent.is_none() {
            return Err(Error::NoOpponentYet);
        }
        let seed = move_type.clone().concat(nonce.as_str());
        let reveal_hash = Challenge::generate_hash(seed);
        if address == self.creator_address {
            apply_reveal(&mut self.creator_move, &reveal_hash, &move_type)
        } else {
            match &mut self.opponent {
                Some(slot) => {
                    if address == slot.address {
                        apply_reveal(&mut slot.player_move, &reveal_hash, &move_type)
                    } else {
                        Err(Error::UnknownParticipant)
                    }
                },
                None => {
                    proof {
                        assert(false);
                    }
                    Err(Error::NoOpponentYet)
                },
            }
        }
    }

    /// Resolves the game: `NoWinnerYet` while either side is unrevealed or
    /// the opponent absent, `Tie` when both revealed moves are equal, and
    /// otherwise the dominant side's address by the explicit outcome table.
    pub fn evalue_winner(&self) -> (r: WinnerOutcome)
        ensures
            match r {
                WinnerOutcome::NoWinnerYet => !self@.both_revealed(),
                WinnerOutcome::Tie => self@.both_revealed() && self@.is_tie(),
                WinnerOutcome::Winner(a) => self@.both_revealed() && !self@.is_tie() && a@
                    == self@.winner_address(),
            },
    {
        let slot = match &self.opponent {
            Some(slot) => slot,
            None => { return WinnerOutcome::NoWinnerYet },
        };
        let c = self.creator_move.move_type;
        let o = slot.player_move.move_type;
        if c == MoveType::Unrevealed || o == MoveType::Unrevealed {
            return WinnerOutcome::NoWinnerYet;
        }
        if c == o {
            return WinnerOutcome::Tie;
        }
        let creator_wins = match (c, o) {
            (MoveType::Rock, MoveType::Scissors) => true,
            (MoveType::Scissors, MoveType::Paper) => true,
            (MoveType::Paper, MoveType::Rock) => true,
            _ => false,
        };
        if creator_wins {
            WinnerOutcome::Winner(self.creator_address.clone())
        } else {
            WinnerOutcome::Winner(slot.address.clone())
        }
    }

    /// The winning address, derived from the stored moves: `Some` exactly
    /// when both sides have revealed distinct moves.
    pub fn winner_address(&self) -> (r: Option<String>)
        ensures
            r is Some == (self@.both_revealed() && !self@.is_tie()),
            r matches Some(a) ==> a@ == self@.winner_address(),
    {
        match self.evalue_winner() {
            WinnerOutcome::Winner(a) => Some(a),
            _ => None,
        }
    }

    /// A snapshot of the commitments mapping, for read-only lookup.
    pub fn commitments(&self) -> (r: Mapper)
        ensures
            r@ == self@.commitments_map(),
    {
        let opponent = match &self.opponent {
            Some(slot) => Some(
                OpponentSlot {
                    address: slot.address.clone(),
                    player_move: slot.player_move.clone(),
                },
            ),
            None => None,
        };
        Mapper {
            creator_address: self.creator_address.clone(),
            creator_move: self.creator_move.clone(),
            opponent,
        }
    }

    /// True exactly when an opponent has joined and both moves have been
    /// revealed; false — not an error — while the opponent is absent.
    pub fn both_revealed(&self) -> (r: bool)
        ensures
            r == self@.both_revealed(),
    {
        match &self.opponent {
            Some(slot) => {
                self.creator_move.move_type != MoveType::Unrevealed
                    && slot.player_move.move_type != MoveType::Unrevealed
            },
            None => false,
        }
    }
}

} // verus!
