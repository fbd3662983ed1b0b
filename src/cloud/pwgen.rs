//! Password generation.
use vstd::prelude::*;
use rand::Rng;

verus! {

/// User name of the tunnel credentials.
pub const DEFAULT_USERNAME: &'static str = "chisel";

/// The characters a password is drawn from.
pub const CHARSET: &'static str = "ABCDEFGHIJKLMNOPQRSTUVWXYZabcdefghijklmnopqrstuvwxyz0123456789)(*&^%#@!~";

/// Length of a generated password.
pub const DEFAULT_PASSWORD_LENGTH: usize = 32;

/// Relies on rand's thread generator (`rand::rng`, seeded from the OS) and
/// `Rng::random_range`, which returns a value of the range and panics only on
/// an empty one.
#[verifier::external_body]
fn random_below(n: usize) -> (r: usize)
    requires
        n > 0,
    ensures
        r < n,
{
    rand::rng().random_range(0..n)
}

/// The password whose characters are the charset's at `indices`.
pub open spec fn password_of(indices: Seq<usize>) -> Seq<char> {
    Seq::new(indices.len(), |i: int| CHARSET@[indices[i] as int])
}

/// Whether every character of `s` is one of the charset.
pub open spec fn in_charset(s: Seq<char>) -> bool {
    forall|i: int| 0 <= i < s.len() ==> CHARSET@.contains(#[trigger] s[i])
}

proof fn lemma_charset_len()
    ensures
        CHARSET@.len() == 72,
{
    reveal_strlit("ABCDEFGHIJKLMNOPQRSTUVWXYZabcdefghijklmnopqrstuvwxyz0123456789)(*&^%#@!~");
}

/// The number of characters a password is drawn from.
pub fn charset_len() -> (r: usize)
    ensures
        r == CHARSET@.len(),
        r == 72,
{
    proof { lemma_charset_len(); }
    CHARSET.unicode_len()
}

/// The password spelled by `indices` into the charset.
pub fn password_from_indices(indices: &Vec<usize>) -> (r: String)
    requires
        forall|i: int| 0 <= i < indices@.len() ==> #[trigger] indices@[i] < CHARSET@.len(),
    ensures
        r@ == password_of(indices@),
{
    proof { lemma_charset_len(); }
    let mut s = String::new();
    let mut i: usize = 0;
    while i < indices.len()
        invariant
            i <= indices@.len(),
            CHARSET@.len() == 72,
            forall|k: int| 0 <= k < indices@.len() ==> #[trigger] indices@[k] < CHARSET@.len(),
            s@ == password_of(indices@.subrange(0, i as int)),
        decreases indices@.len() - i,
    {
        let k = indices[i];
        let c = CHARSET.substring_char(k, k + 1);
        s.append(c);
        assert(password_of(indices@.subrange(0, i + 1)) =~= password_of(indices@.subrange(0, i as int)) + c@);
        i = i + 1;
    }
    assert(indices@.subrange(0, indices@.len() as int) =~= indices@);
    s
}

/// A random password of `length` characters of the charset.
pub fn generate_password(length: usize) -> (r: String)
    ensures
        r@.len() == length,
        in_charset(r@),
{
    let n = charset_len();
    let mut indices: Vec<usize> = Vec::new();
    while indices.len() < length
        invariant
            n == CHARSET@.len(),
            n == 72,
            indices@.len() <= length,
            forall|k: int| 0 <= k < indices@.len() ==> #[trigger] indices@[k] < CHARSET@.len(),
        decreases length - indices@.len(),
    {
        indices.push(random_below(n));
    }
    let r = password_from_indices(&indices);
    assert forall|i: int| 0 <= i < r@.len() implies CHARSET@.contains(#[trigger] r@[i]) by {
        assert(r@[i] == CHARSET@[indices@[i] as int]);
    }
    r
}

} // verus!
