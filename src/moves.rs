//! The three moves, with their command-line words and wire tokens.

use vstd::prelude::*;

verus! {

/// A move of one player.
#[derive(Clone, Copy, Debug, PartialEq, Eq, Structural)]
pub enum PlayerChoice {
    Rock,
    Paper,
    Scissors,
}

/// The lowercase ASCII token of a move, as it travels on the wire
/// ("rock", "paper", "scissors").
pub open spec fn token_of(m: PlayerChoice) -> Seq<u8> {
    match m {
        PlayerChoice::Rock => seq![114u8, 111u8, 99u8, 107u8],
        PlayerChoice::Paper => seq![112u8, 97u8, 112u8, 101u8, 114u8],
        PlayerChoice::Scissors => seq![115u8, 99u8, 105u8, 115u8, 115u8, 111u8, 114u8, 115u8],
    }
}

/// The move whose token is exactly `t`, if there is one.
pub open spec fn choice_of_token(t: Seq<u8>) -> Option<PlayerChoice> {
    if t == token_of(PlayerChoice::Rock) {
        Some(PlayerChoice::Rock)
    } else if t == token_of(PlayerChoice::Paper) {
        Some(PlayerChoice::Paper)
    } else if t == token_of(PlayerChoice::Scissors) {
        Some(PlayerChoice::Scissors)
    } else {
        None
    }
}

/// The word that names a move on the command line.
pub open spec fn word_of(m: PlayerChoice) -> Seq<char> {
    match m {
        PlayerChoice::Rock => seq!['r', 'o', 'c', 'k'],
        PlayerChoice::Paper => seq!['p', 'a', 'p', 'e', 'r'],
        PlayerChoice::Scissors => seq!['s', 'c', 'i', 's', 's', 'o', 'r', 's'],
    }
}

/// The move named by the word `w`, if there is one.
pub open spec fn choice_of_word(w: Seq<char>) -> Option<PlayerChoice> {
    if w == word_of(PlayerChoice::Rock) {
        Some(PlayerChoice::Rock)
    } else if w == word_of(PlayerChoice::Paper) {
        Some(PlayerChoice::Paper)
    } else if w == word_of(PlayerChoice::Scissors) {
        Some(PlayerChoice::Scissors)
    } else {
        None
    }
}

/// Each token reads back as the move it was made from.
pub proof fn lemma_token_round_trip(m: PlayerChoice)
    ensures
        choice_of_token(token_of(m)) == Some(m),
{
    assert(token_of(PlayerChoice::Rock) != token_of(PlayerChoice::Paper));
    assert(token_of(PlayerChoice::Rock) != token_of(PlayerChoice::Scissors));
    assert(token_of(PlayerChoice::Paper) != token_of(PlayerChoice::Scissors));
}

/// No token holds a zero byte.
pub proof fn lemma_token_has_no_zero(m: PlayerChoice)
    ensures
        forall|i: int| 0 <= i < token_of(m).len() ==> token_of(m)[i] != 0u8,
{
}

/// Whether two byte sequences are equal.
fn bytes_equal(a: &[u8], b: &[u8]) -> (r: bool)
    ensures
        r == (a@ == b@),
{
    if a.len() != b.len() {
        return false;
    }
    let mut i: usize = 0;
    while i < a.len()
        invariant
            a@.len() == b@.len(),
            0 <= i <= a@.len(),
            forall|j: int| 0 <= j < i ==> a@[j] == b@[j],
        decreases a@.len() - i,
    {
        if a[i] != b[i] {
            return false;
        }
        i = i + 1;
    }
    assert(a@ =~= b@);
    true
}

/// Whether the text `w` is the word `lit`.
pub(crate) fn word_is(w: &str, lit: &str) -> (r: bool)
    ensures
        r == (w@ == lit@),
{
    let a = w.to_owned();
    let b = lit.to_owned();
    a.eq(&b)
}

/// The picture of a rock, shown for a received move.
pub const ROCK_ART: &'static str = "    _______
---'   ____)
      (_____)
      (_____)
      (____)
---.__(___)";

/// The picture of paper, shown for a received move.
pub const PAPER_ART: &'static str = "     _______
---'    ____)____
           ______)
          _______)
         _______)
---.__________)";

/// The picture of scissors, shown for a received move.
pub const SCISSORS_ART: &'static str = "    _______
---'   ____)____
          ______)
       __________)
      (____)
---.__(___)";

impl PlayerChoice {
    /// The picture of this move.
    pub fn ascii_art(&self) -> (r: &'static str)
        ensures
            *self == PlayerChoice::Rock ==> r == ROCK_ART,
            *self == PlayerChoice::Paper ==> r == PAPER_ART,
            *self == PlayerChoice::Scissors ==> r == SCISSORS_ART,
    {
        match self {
            PlayerChoice::Rock => ROCK_ART,
            PlayerChoice::Paper => PAPER_ART,
            PlayerChoice::Scissors => SCISSORS_ART,
        }
    }

    /// The wire token of this move.
    pub fn token(&self) -> (r: Vec<u8>)
        ensures
            r@ == token_of(*self),
    {
        let r = match self {
            PlayerChoice::Rock => vec![114u8, 111u8, 99u8, 107u8],
            PlayerChoice::Paper => vec![112u8, 97u8, 112u8, 101u8, 114u8],
            PlayerChoice::Scissors => vec![115u8, 99u8, 105u8, 115u8, 115u8, 111u8, 114u8, 115u8],
        };
        assert(r@ =~= token_of(*self));
        r
    }

    /// The move whose token is exactly `t`; `None` for any other bytes.
    pub fn from_token(t: &[u8]) -> (r: Option<PlayerChoice>)
        ensures
            r == choice_of_token(t@),
    {
        let rock = PlayerChoice::Rock.token();
        if bytes_equal(t, rock.as_slice()) {
            return Some(PlayerChoice::Rock);
        }
        let paper = PlayerChoice::Paper.token();
        if bytes_equal(t, paper.as_slice()) {
            return Some(PlayerChoice::Paper);
        }
        let scissors = PlayerChoice::Scissors.token();
        if bytes_equal(t, scissors.as_slice()) {
            return Some(PlayerChoice::Scissors);
        }
        None
    }

    /// The move named by the command-line word `w`; `None` for any other text.
    pub fn from_word(w: &str) -> (r: Option<PlayerChoice>)
        ensures
            r == choice_of_word(w@),
    {
        proof {
            reveal_strlit("rock");
            reveal_strlit("paper");
            reveal_strlit("scissors");
        }
        assert("rock"@ =~= word_of(PlayerChoice::Rock));
        assert("paper"@ =~= word_of(PlayerChoice::Paper));
        assert("scissors"@ =~= word_of(PlayerChoice::Scissors));
        if word_is(w, "rock") {
            Some(PlayerChoice::Rock)
        } else if word_is(w, "paper") {
            Some(PlayerChoice::Paper)
        } else if word_is(w, "scissors") {
            Some(PlayerChoice::Scissors)
        } else {
            None
        }
    }
}

} // verus!
