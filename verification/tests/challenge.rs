use rps_commit_reveal::{Challenge, Error, MoveType, WinnerOutcome};

fn commit(selector: &str, nonce: &str) -> String {
    Challenge::generate_hash(format!("{}{}", selector, nonce))
}

fn joined_challenge(creator_commit: String, opponent_commit: String) -> Challenge {
    let mut c = Challenge::new(1, "alice".to_string(), creator_commit);
    c.add_opponent("bob".to_string(), opponent_commit).unwrap();
    c
}

#[test]
fn hash_is_deterministic() {
    let a = Challenge::generate_hash("1abc".to_string());
    let b = Challenge::generate_hash("1abc".to_string());
    assert_eq!(a, b);
}

#[test]
fn hash_is_a_fixed_length_hex_digest() {
    let h = Challenge::generate_hash("1abc".to_string());
    assert_ne!(h, "1abc");
    assert_eq!(h.len(), 64);
    assert!(h.chars().all(|c| c.is_ascii_hexdigit() && !c.is_ascii_uppercase()));
    assert_ne!(h, Challenge::generate_hash("1abd".to_string()));
}

#[test]
fn empty_input_hashes_too() {
    let h = Challenge::generate_hash(String::new());
    assert_eq!(h.len(), 64);
    assert_eq!(h, Challenge::generate_hash(String::new()));
}

#[test]
fn creator_wins_rock_beats_scissors() {
    let mut c = joined_challenge(commit("1", "abc"), commit("3", "xyz"));
    assert_eq!(c.reveal_move("alice".to_string(), "1".to_string(), "abc".to_string()), Ok(()));
    assert_eq!(c.reveal_move("bob".to_string(), "3".to_string(), "xyz".to_string()), Ok(()));
    assert!(c.both_revealed());
    assert_eq!(c.evalue_winner(), WinnerOutcome::Winner("alice".to_string()));
    assert_eq!(c.winner_address(), Some("alice".to_string()));
}

#[test]
fn wrong_nonce_fails_commitment_mismatch() {
    let mut c = joined_challenge(commit("1", "abc"), commit("3", "xyz"));
    let r = c.reveal_move("alice".to_string(), "1".to_string(), "wrong".to_string());
    assert_eq!(r, Err(Error::CommitmentMismatch));
    // the stored move is still unrevealed
    let m = c.commitments().get("alice").unwrap();
    assert_eq!(m.movement(), 0);
    assert!(!c.both_revealed());
}

#[test]
fn same_move_with_other_nonce_fails_commitment_mismatch() {
    let mut c = joined_challenge(commit("1", "abc"), commit("3", "xyz"));
    // decodes to the same move as the commitment, but the nonce differs
    let r = c.reveal_move("alice".to_string(), "1".to_string(), "abd".to_string());
    assert_eq!(r, Err(Error::CommitmentMismatch));
}

#[test]
fn reveal_before_opponent_joins_fails() {
    let mut c = Challenge::new(7, "alice".to_string(), commit("1", "abc"));
    let r = c.reveal_move("alice".to_string(), "1".to_string(), "abc".to_string());
    assert_eq!(r, Err(Error::NoOpponentYet));
}

#[test]
fn both_paper_is_a_tie() {
    let mut c = joined_challenge(commit("2", "abc"), commit("2", "xyz"));
    c.reveal_move("alice".to_string(), "2".to_string(), "abc".to_string()).unwrap();
    c.reveal_move("bob".to_string(), "2".to_string(), "xyz".to_string()).unwrap();
    assert_eq!(c.evalue_winner(), WinnerOutcome::Tie);
    assert_eq!(c.winner_address(), None);
}

#[test]
fn second_opponent_is_rejected() {
    let mut c = joined_challenge(commit("1", "abc"), commit("3", "xyz"));
    let r = c.add_opponent("carol".to_string(), commit("2", "qqq"));
    assert_eq!(r, Err(Error::AlreadyHasOpponent));
    // the first opponent is untouched
    assert_eq!(c.opponent_address(), Some("bob".to_string()));
    assert!(c.commitments().get("carol").is_none());
}

#[test]
fn self_challenge_is_rejected() {
    let mut c = Challenge::new(3, "alice".to_string(), commit("1", "abc"));
    let r = c.add_opponent("alice".to_string(), commit("2", "xyz"));
    assert_eq!(r, Err(Error::SelfChallenge));
    assert_eq!(c.opponent_address(), None);
}

#[test]
fn unknown_participant_is_rejected() {
    let mut c = joined_challenge(commit("1", "abc"), commit("3", "xyz"));
    let r = c.reveal_move("carol".to_string(), "1".to_string(), "abc".to_string());
    assert_eq!(r, Err(Error::UnknownParticipant));
}

#[test]
fn unrecognized_move_code_is_rejected() {
    let mut c = joined_challenge(commit("9", "abc"), commit("3", "xyz"));
    // the commitment matches, but "9" names no move
    let r = c.reveal_move("alice".to_string(), "9".to_string(), "abc".to_string());
    assert_eq!(r, Err(Error::InvalidMoveCode));
    assert_eq!(c.commitments().get("alice").unwrap().movement(), 0);
}

#[test]
fn re_revealing_the_same_move_is_harmless() {
    let mut c = joined_challenge(commit("1", "abc"), commit("3", "xyz"));
    c.reveal_move("alice".to_string(), "1".to_string(), "abc".to_string()).unwrap();
    let r = c.reveal_move("alice".to_string(), "1".to_string(), "abc".to_string());
    assert_eq!(r, Ok(()));
    assert_eq!(c.commitments().get("alice").unwrap().movement(), 1);
}

#[test]
fn both_revealed_is_monotonic() {
    let mut c = Challenge::new(2, "alice".to_string(), commit("1", "abc"));
    assert!(!c.both_revealed());
    c.add_opponent("bob".to_string(), commit("2", "xyz")).unwrap();
    assert!(!c.both_revealed());
    c.reveal_move("alice".to_string(), "1".to_string(), "abc".to_string()).unwrap();
    assert!(!c.both_revealed());
    assert_eq!(c.evalue_winner(), WinnerOutcome::NoWinnerYet);
    c.reveal_move("bob".to_string(), "2".to_string(), "xyz".to_string()).unwrap();
    assert!(c.both_revealed());
    // a failed reveal afterwards never takes it back
    let _ = c.reveal_move("alice".to_string(), "1".to_string(), "zzz".to_string());
    assert!(c.both_revealed());
}

#[test]
fn winner_follows_the_outcome_table() {
    // selectors: "1" Rock, "2" Paper, "3" Scissors
    let beats = |a: &str, b: &str| -> bool {
        (a == "1" && b == "3") || (a == "3" && b == "2") || (a == "2" && b == "1")
    };
    for creator_sel in ["1", "2", "3"] {
        for opponent_sel in ["1", "2", "3"] {
            let mut c = joined_challenge(
                commit(creator_sel, "n1"),
                commit(opponent_sel, "n2"),
            );
            c.reveal_move("alice".to_string(), creator_sel.to_string(), "n1".to_string())
                .unwrap();
            c.reveal_move("bob".to_string(), opponent_sel.to_string(), "n2".to_string())
                .unwrap();
            let expected = if creator_sel == opponent_sel {
                WinnerOutcome::Tie
            } else if beats(creator_sel, opponent_sel) {
                WinnerOutcome::Winner("alice".to_string())
            } else {
                WinnerOutcome::Winner("bob".to_string())
            };
            assert_eq!(c.evalue_winner(), expected);
        }
    }
}

#[test]
fn commitments_lookup_finds_both_participants() {
    let creator_commit = commit("1", "abc");
    let opponent_commit = commit("3", "xyz");
    let c = joined_challenge(creator_commit, opponent_commit);
    let mapper = c.commitments();
    assert!(mapper.get("alice").is_some());
    assert!(mapper.get("bob").is_some());
    assert!(mapper.get("carol").is_none());
}

#[test]
fn addresses_are_reported() {
    let mut c = Challenge::new(5, "alice".to_string(), commit("1", "abc"));
    assert_eq!(c.creator_address(), "alice");
    assert_eq!(c.opponent_address(), None);
    c.add_opponent("bob".to_string(), commit("2", "xyz")).unwrap();
    assert_eq!(c.opponent_address(), Some("bob".to_string()));
}

#[test]
fn move_selector_table() {
    assert_eq!(MoveType::from("1".to_string()), MoveType::Rock);
    assert_eq!(MoveType::from("2".to_string()), MoveType::Paper);
    assert_eq!(MoveType::from("3".to_string()), MoveType::Scissors);
    assert_eq!(MoveType::from("4".to_string()), MoveType::Unrevealed);
    assert_eq!(MoveType::from("12".to_string()), MoveType::Unrevealed);
    assert_eq!(MoveType::from(String::new()), MoveType::Unrevealed);
    assert_eq!(u32::from(MoveType::Rock), 1);
    assert_eq!(u32::from(MoveType::Paper), 2);
    assert_eq!(u32::from(MoveType::Scissors), 3);
    assert_eq!(u32::from(MoveType::Unrevealed), 0);
}
