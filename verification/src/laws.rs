//! The laws of the commit-reveal scheme, stated and proved over the
//! challenge state machine's mathematical model.

use crate::challenge::{
    sha3_256_hex, spec_add_opponent, spec_reveal, ChallengeView, Error,
};
use crate::moves::{beats, MoveType, MoveView};
use vstd::prelude::*;

verus! {

/// Hashing is deterministic: the same input always yields the same digest,
/// in every call.
pub proof fn lemma_hash_deterministic(a: Seq<char>, b: Seq<char>)
    requires
        a == b,
    ensures
        sha3_256_hex(a) == sha3_256_hex(b),
{
}

/// A reveal by a known participant of a joined challenge succeeds only when
/// the digest of `selector || nonce` equals the stored commitment, and any
/// pair whose digest differs fails with `CommitmentMismatch` — even one that
/// would decode to the same move.
pub proof fn lemma_reveal_verifies_commitment(
    pre: ChallengeView,
    addr: Seq<char>,
    mv: MoveView,
    selector: Seq<char>,
    nonce: Seq<char>,
)
    requires
        pre.has_opponent(),
        pre.player_move(addr) == Some(mv),
    ensures
        spec_reveal(pre, addr, selector, nonce) is Ok ==> sha3_256_hex(selector + nonce)
            == mv.commitment,
        sha3_256_hex(selector + nonce) != mv.commitment ==> spec_reveal(pre, addr, selector, nonce)
            == Err::<ChallengeView, Error>(Error::CommitmentMismatch),
{
}

/// `both_revealed` is monotonic: once both moves are revealed, no successful
/// reveal makes it false again.
pub proof fn lemma_both_revealed_monotonic_reveal(
    pre: ChallengeView,
    addr: Seq<char>,
    selector: Seq<char>,
    nonce: Seq<char>,
)
    ensures
        spec_reveal(pre, addr, selector, nonce) matches Ok(post) ==> (pre.both_revealed()
            ==> post.both_revealed()),
{
}

/// `both_revealed` is monotonic across joins as well: a successful
/// `add_opponent` never makes it false (it only ever happens before the
/// opponent's slot exists, when `both_revealed` is still false).
pub proof fn lemma_both_revealed_monotonic_add_opponent(
    pre: ChallengeView,
    addr: Seq<char>,
    commitment: Seq<char>,
)
    ensures
        spec_add_opponent(pre, addr, commitment) matches Ok(post) ==> (pre.both_revealed()
            ==> post.both_revealed()),
{
}

/// A slot, once created, keeps its commitment forever, and a revealed move
/// never reverts or changes: a reveal can set a slot's move only from
/// `Unrevealed` to the move its selector names.
pub proof fn lemma_reveal_never_reverts(
    pre: ChallengeView,
    addr: Seq<char>,
    selector: Seq<char>,
    nonce: Seq<char>,
)
    ensures
        spec_reveal(pre, addr, selector, nonce) matches Ok(post) ==> {
            &&& post.creator_address == pre.creator_address
            &&& post.creator_move.commitment == pre.creator_move.commitment
            &&& post.creator_move.move_type != MoveType::Unrevealed ==> (
            pre.creator_move.move_type == MoveType::Unrevealed || post.creator_move.move_type
                == pre.creator_move.move_type)
            &&& pre.creator_move.move_type != MoveType::Unrevealed ==> post.creator_move.move_type
                == pre.creator_move.move_type
            &&& post.opponent_address() == pre.opponent_address()
            &&& pre.opponent matches Some(o) ==> post.opponent matches Some(p) && p.1.commitment
                == o.1.commitment && (o.1.move_type != MoveType::Unrevealed ==> p.1.move_type
                == o.1.move_type)
        },
{
}

/// Winner computation is a tie exactly when the two revealed moves are
/// equal.
pub proof fn lemma_tie_iff_equal_moves(v: ChallengeView)
    requires
        v.both_revealed(),
    ensures
        v.is_tie() <==> (v.opponent matches Some(o) && v.creator_move.move_type == o.1.move_type),
{
}

/// When the game is decided, the winner is exactly the dominant side of the
/// beats-relation: the creator when the creator's move beats the opponent's,
/// and the opponent — whose move then beats the creator's — otherwise.
pub proof fn lemma_winner_dominant(v: ChallengeView)
    requires
        v.wf(),
        v.both_revealed(),
        !v.is_tie(),
    ensures
        v.opponent matches Some(o) ==> {
            &&& (v.winner_address() == v.creator_address <==> beats(
                v.creator_move.move_type,
                o.1.move_type,
            ))
            &&& (v.winner_address() == o.0 <==> beats(o.1.move_type, v.creator_move.move_type))
        },
{
}

/// Winner computation is symmetric: exchanging the creator and opponent
/// roles — addresses and moves together — changes neither whether the game
/// is decided, nor whether it is a tie, nor the winning address.
pub proof fn lemma_winner_symmetric(v: ChallengeView)
    requires
        v.has_opponent(),
    ensures
        v.swap_roles().both_revealed() == v.both_revealed(),
        v.swap_roles().is_tie() == v.is_tie(),
        v.both_revealed() && !v.is_tie() ==> v.swap_roles().winner_address() == v.winner_address(),
{
}

/// Winner computation never names a participant whose move is still
/// unrevealed: the winning address always owns a slot, and that slot's move
/// is revealed.
pub proof fn lemma_winner_is_revealed_participant(v: ChallengeView)
    requires
        v.wf(),
        v.both_revealed(),
        !v.is_tie(),
    ensures
        v.player_move(v.winner_address()) matches Some(m) && m.move_type != MoveType::Unrevealed,
{
}

} // verus!
