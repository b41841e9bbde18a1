//! The wire format of the single exchange and the address a joining player
//! connects to.

use vstd::prelude::*;
use crate::moves::{PlayerChoice, token_of, lemma_token_has_no_zero};
use crate::outcome::{Outcome, OutcomeModel, resolve, resolve_spec, lemma_resolve_antisymmetric};

verus! {

/// The TCP port that the hosting player listens on.
pub const GAME_PORT: u16 = 3334;

/// How many bytes a player reads for the peer's move.
pub const BUFFER_CAPACITY: usize = 16;

/// The bytes of `s` without any zero byte, wherever it stands.
pub open spec fn strip_zeros(s: Seq<u8>) -> Seq<u8> {
    s.filter(|b: u8| b != 0u8)
}

/// The bytes that a player sends for its move: exactly the token, unpadded.
pub fn encode(m: PlayerChoice) -> (r: Vec<u8>)
    ensures
        r@ == token_of(m),
        r@.len() <= BUFFER_CAPACITY,
{
    m.token()
}

/// The token held by a received buffer: every zero byte is dropped, so both
/// the zero padding after the token and any zero inside it disappear.
pub fn decode(buffer: &[u8]) -> (r: Vec<u8>)
    ensures
        r@ == strip_zeros(buffer@),
{
    let mut r: Vec<u8> = Vec::new();
    let mut i: usize = 0;
    while i < buffer.len()
        invariant
            0 <= i <= buffer@.len(),
            r@ == strip_zeros(buffer@.subrange(0, i as int)),
        decreases buffer@.len() - i,
    {
        let b = buffer[i];
        proof {
            let head = buffer@.subrange(0, i as int);
            let pred = |x: u8| x != 0u8;
            assert(buffer@.subrange(0, i + 1) =~= head + seq![b]);
            Seq::filter_distributes_over_add(head, seq![b], pred);
            reveal_with_fuel(Seq::filter, 2);
            assert(seq![b].drop_last() =~= Seq::<u8>::empty());
        }
        if b != 0 {
            r.push(b);
        }
        i = i + 1;
    }
    assert(buffer@.subrange(0, buffer@.len() as int) =~= buffer@);
    r
}

/// The outcome for the local player from the raw buffer received from the peer.
pub fn receive_outcome(local: PlayerChoice, buffer: &[u8]) -> (r: Outcome)
    ensures
        r@ == resolve_spec(local, strip_zeros(buffer@)),
{
    let token = decode(buffer);
    resolve(local, token)
}

/// Zero padding after a token that holds no zero byte decodes back to the token.
pub proof fn lemma_decode_zero_padded(token: Seq<u8>, padding: nat)
    requires
        forall|i: int| 0 <= i < token.len() ==> token[i] != 0u8,
    ensures
        strip_zeros(token + Seq::new(padding, |i: int| 0u8)) == token,
{
    lemma_strip_zeros_keeps_nonzero(token);
    lemma_strip_zeros_of_zeros(padding);
    Seq::filter_distributes_over_add(token, Seq::new(padding, |i: int| 0u8), |b: u8| b != 0u8);
    assert(token + Seq::<u8>::empty() =~= token);
}

/// A zero byte anywhere in a buffer is dropped: the buffer decodes as if it
/// were not there.
pub proof fn lemma_decode_drops_embedded_zero(before: Seq<u8>, after: Seq<u8>)
    ensures
        strip_zeros(before + seq![0u8] + after) == strip_zeros(before + after),
{
    let pred = |b: u8| b != 0u8;
    Seq::filter_distributes_over_add(before + seq![0u8], after, pred);
    Seq::filter_distributes_over_add(before, seq![0u8], pred);
    Seq::filter_distributes_over_add(before, after, pred);
    reveal_with_fuel(Seq::filter, 2);
    assert(seq![0u8].drop_last() =~= Seq::<u8>::empty());
    assert(before.filter(pred) + Seq::<u8>::empty() =~= before.filter(pred));
}

/// Two honest players, each reading the other's token into a zero-padded
/// buffer of any length, reach mirrored outcomes: one wins exactly when the
/// other loses, and they draw exactly when they chose the same move.
pub proof fn lemma_honest_exchange(host: PlayerChoice, join: PlayerChoice, pad_host: nat, pad_join: nat)
    ensures
        ({
            let at_host = resolve_spec(host, strip_zeros(token_of(join) + Seq::new(pad_host, |i: int| 0u8)));
            let at_join = resolve_spec(join, strip_zeros(token_of(host) + Seq::new(pad_join, |i: int| 0u8)));
            &&& at_host == OutcomeModel::Win <==> at_join == OutcomeModel::Lose
            &&& at_host == OutcomeModel::Lose <==> at_join == OutcomeModel::Win
            &&& at_host == OutcomeModel::Draw <==> host == join
            &&& at_join == OutcomeModel::Draw <==> host == join
        }),
{
    lemma_token_has_no_zero(host);
    lemma_token_has_no_zero(join);
    lemma_decode_zero_padded(token_of(join), pad_host);
    lemma_decode_zero_padded(token_of(host), pad_join);
    lemma_resolve_antisymmetric(host, join);
    lemma_resolve_antisymmetric(join, host);
}

proof fn lemma_strip_zeros_keeps_nonzero(s: Seq<u8>)
    requires
        forall|i: int| 0 <= i < s.len() ==> s[i] != 0u8,
    ensures
        strip_zeros(s) == s,
    decreases s.len(),
{
    reveal(Seq::filter);
    if s.len() > 0 {
        lemma_strip_zeros_keeps_nonzero(s.drop_last());
        assert(s.drop_last().push(s.last()) =~= s);
    }
}

proof fn lemma_strip_zeros_of_zeros(n: nat)
    ensures
        strip_zeros(Seq::new(n, |i: int| 0u8)) == Seq::<u8>::empty(),
    decreases n,
{
    reveal(Seq::filter);
    if n > 0 {
        lemma_strip_zeros_of_zeros((n - 1) as nat);
        assert(Seq::new(n, |i: int| 0u8).drop_last() =~= Seq::new((n - 1) as nat, |i: int| 0u8));
    }
}

} // verus!
