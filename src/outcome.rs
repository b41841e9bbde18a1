//! The rule that decides a match from one side's point of view.

use vstd::prelude::*;
use crate::moves::{PlayerChoice, choice_of_token, token_of, lemma_token_round_trip};

verus! {

/// How a match ended for the local player.
#[derive(Clone, Debug, PartialEq, Eq)]
pub enum Outcome {
    Win,
    Lose,
    Draw,
    /// The peer sent bytes that name no move; they are kept for display.
    Cheat(Vec<u8>),
}

/// The mathematical value of an [`Outcome`].
pub enum OutcomeModel {
    Win,
    Lose,
    Draw,
    Cheat(Seq<u8>),
}

impl View for Outcome {
    type V = OutcomeModel;

    open spec fn view(&self) -> OutcomeModel {
        match self {
            Outcome::Win => OutcomeModel::Win,
            Outcome::Lose => OutcomeModel::Lose,
            Outcome::Draw => OutcomeModel::Draw,
            Outcome::Cheat(t) => OutcomeModel::Cheat(t@),
        }
    }
}

/// Rock beats scissors, scissors beat paper, paper beats rock.
pub open spec fn beats(a: PlayerChoice, b: PlayerChoice) -> bool {
    ||| a == PlayerChoice::Rock && b == PlayerChoice::Scissors
    ||| a == PlayerChoice::Scissors && b == PlayerChoice::Paper
    ||| a == PlayerChoice::Paper && b == PlayerChoice::Rock
}

/// The outcome for a player who chose `local` against a peer who chose `peer`.
pub open spec fn duel(local: PlayerChoice, peer: PlayerChoice) -> OutcomeModel {
    if local == peer {
        OutcomeModel::Draw
    } else if beats(local, peer) {
        OutcomeModel::Win
    } else {
        OutcomeModel::Lose
    }
}

/// The outcome for a player who chose `local` when the peer's token is `peer`:
/// a token that names no move is a cheat.
pub open spec fn resolve_spec(local: PlayerChoice, peer: Seq<u8>) -> OutcomeModel {
    match choice_of_token(peer) {
        Some(p) => duel(local, p),
        None => OutcomeModel::Cheat(peer),
    }
}

/// Decides a match between two known moves.
pub fn versus(local: PlayerChoice, peer: PlayerChoice) -> (r: Outcome)
    ensures
        r@ == duel(local, peer),
{
    match (local, peer) {
        (PlayerChoice::Rock, PlayerChoice::Rock) => Outcome::Draw,
        (PlayerChoice::Rock, PlayerChoice::Paper) => Outcome::Lose,
        (PlayerChoice::Rock, PlayerChoice::Scissors) => Outcome::Win,
        (PlayerChoice::Paper, PlayerChoice::Rock) => Outcome::Win,
        (PlayerChoice::Paper, PlayerChoice::Paper) => Outcome::Draw,
        (PlayerChoice::Paper, PlayerChoice::Scissors) => Outcome::Lose,
        (PlayerChoice::Scissors, PlayerChoice::Rock) => Outcome::Lose,
        (PlayerChoice::Scissors, PlayerChoice::Paper) => Outcome::Win,
        (PlayerChoice::Scissors, PlayerChoice::Scissors) => Outcome::Draw,
    }
}

/// Decides a match from the local move and the peer's decoded token.
pub fn resolve(local: PlayerChoice, peer: Vec<u8>) -> (r: Outcome)
    ensures
        r@ == resolve_spec(local, peer@),
{
    match PlayerChoice::from_token(peer.as_slice()) {
        Some(p) => versus(local, p),
        None => Outcome::Cheat(peer),
    }
}

/// Over valid tokens the rule is anti-symmetric: whoever wins against a move
/// loses when the two moves swap sides, and a move against itself is a draw.
pub proof fn lemma_resolve_antisymmetric(a: PlayerChoice, b: PlayerChoice)
    ensures
        resolve_spec(a, token_of(b)) == OutcomeModel::Win
            <==> resolve_spec(b, token_of(a)) == OutcomeModel::Lose,
        resolve_spec(a, token_of(b)) == OutcomeModel::Draw <==> a == b,
        resolve_spec(a, token_of(a)) == OutcomeModel::Draw,
{
    lemma_token_round_trip(a);
    lemma_token_round_trip(b);
}

/// Rock beats scissors, scissors beat paper and paper beats rock, and each
/// reverse pairing loses.
pub proof fn lemma_cyclic_dominance()
    ensures
        resolve_spec(PlayerChoice::Rock, token_of(PlayerChoice::Scissors)) == OutcomeModel::Win,
        resolve_spec(PlayerChoice::Scissors, token_of(PlayerChoice::Paper)) == OutcomeModel::Win,
        resolve_spec(PlayerChoice::Paper, token_of(PlayerChoice::Rock)) == OutcomeModel::Win,
        resolve_spec(PlayerChoice::Scissors, token_of(PlayerChoice::Rock)) == OutcomeModel::Lose,
        resolve_spec(PlayerChoice::Paper, token_of(PlayerChoice::Scissors)) == OutcomeModel::Lose,
        resolve_spec(PlayerChoice::Rock, token_of(PlayerChoice::Paper)) == OutcomeModel::Lose,
{
    lemma_token_round_trip(PlayerChoice::Rock);
    lemma_token_round_trip(PlayerChoice::Paper);
    lemma_token_round_trip(PlayerChoice::Scissors);
}

/// Any peer token other than the three move tokens is a cheat, whatever the
/// local move, and the cheat carries that token unchanged.
pub proof fn lemma_unknown_token_is_cheat(local: PlayerChoice, peer: Seq<u8>)
    requires
        peer != token_of(PlayerChoice::Rock),
        peer != token_of(PlayerChoice::Paper),
        peer != token_of(PlayerChoice::Scissors),
    ensures
        resolve_spec(local, peer) == OutcomeModel::Cheat(peer),
{
}

} // verus!
