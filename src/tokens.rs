//! Random room codes and secrets.
use vstd::prelude::*;

verus! {

/// Letters of a room code: capitals without `I` and `O`, which read like
/// digits.
pub const ROOM_CODE_ALPHABET: &'static str = "ABCDEFGHJKLMNPQRSTUVWXYZ";

/// Characters of a host or player secret: ASCII letters and digits.
pub const TOKEN_ALPHABET: &'static str = "abcdefghijklmnopqrstuvwxyzABCDEFGHIJKLMNOPQRSTUVWXYZ0123456789";

/// Length of a room code.
pub const ROOM_CODE_LEN: usize = 6;

/// Length of a host or player secret.
pub const TOKEN_LEN: usize = 32;

/// Relies on rand::random_range: a value drawn from the half-open range
/// `0..bound`, which must not be empty.
#[verifier::external_body]
fn random_below(bound: usize) -> (r: usize)
    requires
        bound > 0,
    ensures
        r < bound,
{
    rand::random_range(0..bound)
}

/// Relies on `String: FromIterator<char>`: the characters in order.
#[verifier::external_body]
fn string_of_chars(chars: &Vec<char>) -> (r: String)
    ensures
        r@ == chars@,
{
    chars.iter().collect()
}

/// `s` is `len` characters, each drawn from `alphabet`.
pub open spec fn drawn_from(s: Seq<char>, len: nat, alphabet: Seq<char>) -> bool {
    s.len() == len && forall|i: int| 0 <= i < s.len() ==> alphabet.contains(#[trigger] s[i])
}

/// `len` characters drawn at random from `alphabet`.
fn random_string(alphabet: &str, len: usize) -> (r: String)
    requires
        alphabet@.len() > 0,
    ensures
        drawn_from(r@, len as nat, alphabet@),
{
    let n = alphabet.unicode_len();
    let mut chars: Vec<char> = Vec::new();
    let mut i: usize = 0;
    while i < len
        invariant
            n == alphabet@.len(),
            n > 0,
            0 <= i <= len,
            drawn_from(chars@, i as nat, alphabet@),
        decreases len - i,
    {
        let k = random_below(n);
        let c = alphabet.get_char(k);
        assert(alphabet@[k as int] == c);
        chars.push(c);
        i += 1;
    }
    string_of_chars(&chars)
}

/// A fresh room code.
pub fn generate_room_code() -> (r: String)
    ensures
        drawn_from(r@, ROOM_CODE_LEN as nat, ROOM_CODE_ALPHABET@),
{
    proof {
        reveal_strlit("ABCDEFGHJKLMNPQRSTUVWXYZ");
    }
    random_string(ROOM_CODE_ALPHABET, ROOM_CODE_LEN)
}

/// A fresh host secret.
pub fn generate_host_token() -> (r: String)
    ensures
        drawn_from(r@, TOKEN_LEN as nat, TOKEN_ALPHABET@),
{
    proof {
        reveal_strlit("abcdefghijklmnopqrstuvwxyzABCDEFGHIJKLMNOPQRSTUVWXYZ0123456789");
    }
    random_string(TOKEN_ALPHABET, TOKEN_LEN)
}

/// A fresh player reconnect secret.
pub fn generate_player_token() -> (r: String)
    ensures
        drawn_from(r@, TOKEN_LEN as nat, TOKEN_ALPHABET@),
{
    proof {
        reveal_strlit("abcdefghijklmnopqrstuvwxyzABCDEFGHIJKLMNOPQRSTUVWXYZ0123456789");
    }
    random_string(TOKEN_ALPHABET, TOKEN_LEN)
}

} // verus!
