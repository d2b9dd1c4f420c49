use vstd::prelude::*;

verus! {

/// 2 to the power 64.
pub open spec fn pow2_64() -> nat {
    0x1_0000_0000_0000_0000nat
}

/// 2 to the power 128.
pub open spec fn pow2_128() -> nat {
    0x1_0000_0000_0000_0000_0000_0000_0000_0000nat
}

/// 2 to the power 192.
pub open spec fn pow2_192() -> nat {
    0x1_0000_0000_0000_0000_0000_0000_0000_0000_0000_0000_0000_0000nat
}

/// The largest token identifier, 2 to the power 256, less one.
pub open spec fn max_token_id() -> nat {
    0xffff_ffff_ffff_ffff_ffff_ffff_ffff_ffff_ffff_ffff_ffff_ffff_ffff_ffff_ffff_ffffnat
}

/// The sum of two numbers, held at `max_token_id()` where it would pass it.
pub open spec fn saturating_sum(a: nat, b: nat) -> nat {
    if a + b > max_token_id() {
        max_token_id()
    } else {
        a + b
    }
}

/// Identifier of a token: an unsigned number of 256 bits, as four words of 64
/// bits, the least significant first.
#[derive(Clone, Copy, Debug)]
pub struct TokenId(pub [u64; 4]);

impl TokenId {
    /// The number that the four words stand for.
    pub open spec fn value(self) -> nat {
        (self.0@[0] + self.0@[1] * pow2_64() + self.0@[2] * pow2_128() + self.0@[3] * pow2_192()) as nat
    }

    /// The identifier whose number fits in one word.
    pub fn from_u64(n: u64) -> (r: TokenId)
        ensures
            r.value() == n,
    {
        TokenId([n, 0, 0, 0])
    }

    /// The identifier 0.
    pub fn zero() -> (r: TokenId)
        ensures
            r == TokenId([0, 0, 0, 0]),
            r.value() == 0,
    {
        TokenId([0, 0, 0, 0])
    }

    /// The identifier 1.
    pub fn one() -> (r: TokenId)
        ensures
            r.value() == 1,
    {
        TokenId([1, 0, 0, 0])
    }

    /// The identifier that follows this one in counting; the largest one is
    /// followed by itself.
    pub open spec fn successor(self) -> TokenId {
        choose|next: TokenId| next.value() == saturating_sum(self.value(), 1)
    }

    /// The identifier that follows this one; the largest one is followed by
    /// itself.
    pub fn saturating_increment(self) -> (r: TokenId)
        ensures
            r == self.successor(),
            r.value() == saturating_sum(self.value(), 1),
    {
        let r = u256_saturating_add(self, TokenId::one());
        proof {
            lemma_value_injective(r, self.successor());
        }
        r
    }
}

/// Calls `primitive_types::U256::saturating_add` on the two numbers. The result
/// is their sum, or the largest number of 256 bits where the sum is larger.
#[verifier::external_body]
fn u256_saturating_add(a: TokenId, b: TokenId) -> (r: TokenId)
    ensures
        r.value() == saturating_sum(a.value(), b.value()),
{
    TokenId(primitive_types::U256(a.0).saturating_add(primitive_types::U256(b.0)).0)
}

/// No identifier is larger than `max_token_id()`.
pub proof fn lemma_value_bounded(a: TokenId)
    ensures
        a.value() <= max_token_id(),
{
}

/// Two identifiers that stand for one number are one identifier.
pub proof fn lemma_value_injective(a: TokenId, b: TokenId)
    requires
        a.value() == b.value(),
    ensures
        a == b,
{
    assert(a.0@[0] == b.0@[0]);
    assert(a.0@[1] == b.0@[1]);
    assert(a.0@[2] == b.0@[2]);
    assert(a.0@[3] == b.0@[3]);
    assert(a.0 =~= b.0);
}

/// The identifier that stands for a number, where the number is no larger
/// than `max_token_id()`.
pub open spec fn token_id_of(n: nat) -> TokenId {
    TokenId(
        [
            (n % pow2_64()) as u64,
            ((n / pow2_64()) % pow2_64()) as u64,
            ((n / pow2_128()) % pow2_64()) as u64,
            ((n / pow2_192()) % pow2_64()) as u64,
        ],
    )
}

/// Every number up to `max_token_id()` is the number of an identifier.
pub proof fn lemma_token_id_of(n: nat)
    requires
        n <= max_token_id(),
    ensures
        token_id_of(n).value() == n,
{
    let t = token_id_of(n);
    assert(t.0@[0] == (n % pow2_64()) as u64);
    assert(t.0@[1] == ((n / pow2_64()) % pow2_64()) as u64);
    assert(t.0@[2] == ((n / pow2_128()) % pow2_64()) as u64);
    assert(t.0@[3] == ((n / pow2_192()) % pow2_64()) as u64);
}

/// The successor of an identifier stands for the next number, and the largest
/// identifier is its own successor.
pub proof fn lemma_successor_value(a: TokenId)
    ensures
        a.successor().value() == saturating_sum(a.value(), 1),
{
    lemma_value_bounded(a);
    lemma_token_id_of(saturating_sum(a.value(), 1));
}

impl PartialEq for TokenId {
    fn eq(&self, other: &TokenId) -> (r: bool) {
        let same = self.0[0] == other.0[0] && self.0[1] == other.0[1] && self.0[2] == other.0[2]
            && self.0[3] == other.0[3];
        assert(same ==> self.0 =~= other.0);
        same
    }
}

impl vstd::std_specs::cmp::PartialEqSpecImpl for TokenId {
    open spec fn obeys_eq_spec() -> bool {
        true
    }

    open spec fn eq_spec(&self, other: &TokenId) -> bool {
        *self == *other
    }
}

impl Eq for TokenId {
}

} // verus!
