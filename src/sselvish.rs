//! Sselvish: proofs of a claim, written as pronounceable phrases. A proof is
//! the SHA-256 digest of the secret salt, the player's id and the claimed
//! amount, of which twelve bytes are spoken as syllables.
use vstd::prelude::*;

use crate::hexcode::{hex_bytes, hex_decode, is_hex, is_hex_digit, is_lower_hex_digit};

verus! {

/// The number of digest bytes that a phrase speaks.
pub const PROOF_LENGTH: usize = 12;

/// The SHA-256 digest of the UTF-8 text `s`, as `sha256::digest` writes it.
pub uninterp spec fn sha256_hex(s: Seq<char>) -> Seq<char>;

/// Relies on `sha256::digest`: the digest of the UTF-8 bytes of `s`, written
/// by `hex::encode` as 64 lowercase hex digits.
#[verifier::external_body]
pub(crate) fn sha256_digest(s: &str) -> (r: String)
    ensures
        r@ == sha256_hex(s@),
        r@.len() == 64,
        forall|i: int| 0 <= i < r@.len() ==> is_lower_hex_digit(#[trigger] r@[i]),
{
    sha256::digest(s)
}

/// The syllable that a byte's low three bits choose.
pub open spec fn syllable(b: u8) -> Seq<char> {
    let k = b & 7;
    if k == 0 {
        seq!['b', 'a']
    } else if k == 1 {
        seq!['l', 'a']
    } else if k == 2 {
        seq!['h', 'a']
    } else if k == 3 {
        seq!['n', 'o']
    } else if k == 4 {
        seq!['r', 'e']
    } else if k == 5 {
        seq!['n', 'a']
    } else if k == 6 {
        seq!['n', 'e']
    } else {
        seq!['s', 'h', 'a']
    }
}

/// What follows a byte's syllable: a space where its fourth bit is clear.
pub open spec fn separator(b: u8) -> Seq<char> {
    if (b >> 3) & 1 == 0 {
        seq![' ']
    } else {
        seq![]
    }
}

/// The spoken form of `bs`: each byte's syllable, each but the last followed
/// by its separator.
pub open spec fn words(bs: Seq<u8>) -> Seq<char>
    decreases bs.len(),
{
    if bs.len() == 0 {
        seq![]
    } else if bs.len() == 1 {
        syllable(bs[0])
    } else {
        words(bs.drop_last()) + separator(bs[bs.len() - 2]) + syllable(bs.last())
    }
}

/// The phrase for a digest: its first twelve bytes spoken.
pub open spec fn phrase_of(hash: Seq<u8>) -> Seq<char> {
    words(hash.subrange(0, PROOF_LENGTH as int))
}

/// The proof of `amt` for player `id` under `salt`.
pub open spec fn proof_spec(salt: Seq<char>, id: Seq<char>, amt: Seq<char>) -> Seq<char> {
    phrase_of(hex_bytes(sha256_hex(salt + id + amt)))
}

fn syllable_str(b: u8) -> (r: &'static str)
    ensures
        r@ == syllable(b),
{
    proof {
        reveal_strlit("ba");
        reveal_strlit("la");
        reveal_strlit("ha");
        reveal_strlit("no");
        reveal_strlit("re");
        reveal_strlit("na");
        reveal_strlit("ne");
        reveal_strlit("sha");
    }
    let r = match b & 7 {
        0 => "ba",
        1 => "la",
        2 => "ha",
        3 => "no",
        4 => "re",
        5 => "na",
        6 => "ne",
        _ => "sha",
    };
    assert(r@ =~= syllable(b));
    r
}

/// Speaks the first twelve bytes of a digest as a phrase.
pub fn translate(hash: &[u8]) -> (r: String)
    requires
        hash@.len() >= PROOF_LENGTH,
    ensures
        r@ == phrase_of(hash@),
{
    let ghost bs = hash@.subrange(0, PROOF_LENGTH as int);
    let mut phrase = String::new();
    phrase.append(syllable_str(hash[0]));
    assert(bs.take(1).drop_last() =~= Seq::<u8>::empty());
    assert(phrase@ =~= words(bs.take(1)));
    let mut i: usize = 1;
    while i < PROOF_LENGTH
        invariant
            1 <= i <= PROOF_LENGTH,
            hash@.len() >= PROOF_LENGTH,
            bs == hash@.subrange(0, PROOF_LENGTH as int),
            phrase@ == words(bs.take(i as int)),
        decreases PROOF_LENGTH - i,
    {
        proof {
            reveal_strlit(" ");
        }
        let ghost before = phrase@;
        let prev = hash[i - 1];
        if (prev >> 3) & 1 == 0 {
            phrase.append(" ");
        }
        assert(phrase@ =~= before + separator(prev));
        phrase.append(syllable_str(hash[i]));
        assert(bs.take(i + 1)[i - 1] == prev);
        assert(bs.take(i + 1).last() == hash[i as int]);
        assert(bs.take(i + 1).drop_last() =~= bs.take(i as int));
        assert(phrase@ =~= words(bs.take(i + 1)));
        i = i + 1;
    }
    assert(bs.take(PROOF_LENGTH as int) =~= bs);
    phrase
}

/// The proof phrase of `amt` for player `id` under the secret `salt`.
pub fn prove(salt: &str, id: &str, amt: &str) -> (r: String)
    ensures
        r@ == proof_spec(salt@, id@, amt@),
{
    let mut s = String::from_str(salt);
    s.append(id);
    s.append(amt);
    let digest = sha256_digest(s.as_str());
    assert forall|i: int| 0 <= i < digest@.len() implies is_hex_digit(#[trigger] digest@[i]) by {
        assert(is_lower_hex_digit(digest@[i]));
    }
    assert(s@ =~= salt@ + id@ + amt@);
    match hex_decode(digest.as_str()) {
        Ok(hash) => translate(hash.as_slice()),
        // a digest is always hex, so this arm is never taken
        Err(_) => {
            assert(is_hex(digest@));
            String::new()
        },
    }
}

/// A proof depends on the salt, the player and the amount alone: the same
/// three always give the same phrase.
pub proof fn lemma_prove_deterministic(
    salt: Seq<char>,
    id: Seq<char>,
    amt: Seq<char>,
    first: Seq<char>,
    second: Seq<char>,
)
    requires
        first == proof_spec(salt, id, amt),
        second == proof_spec(salt, id, amt),
    ensures
        first == second,
{
}

} // verus!
