use vstd::prelude::*;

verus! {

/// Identity of an actor: a program or a user account, as 32 raw bytes.
#[derive(Clone, Copy, Debug)]
pub struct ActorId(pub [u8; 32]);

impl ActorId {
    /// The bytes of the identity, as a sequence of length 32.
    pub open spec fn bytes(self) -> Seq<u8> {
        self.0@
    }

    /// The null identity, all of whose bytes are zero.
    pub open spec fn null() -> ActorId {
        ActorId(vstd::array::spec_array_fill_for_copy_type::<u8, 32>(0u8))
    }

    /// Whether this is the null identity.
    pub open spec fn is_null(self) -> bool {
        self == ActorId::null()
    }

    /// The null identity.
    pub fn zero() -> (r: ActorId)
        ensures
            r == ActorId::null(),
    {
        ActorId([0u8; 32])
    }

    /// Tests for the null identity.
    pub fn is_zero(&self) -> (r: bool)
        ensures
            r == self.is_null(),
    {
        let mut i: usize = 0;
        while i < 32
            invariant
                i <= 32,
                forall|j: int| 0 <= j < i ==> self.0@[j] == 0u8,
            decreases 32 - i,
        {
            if self.0[i] != 0 {
                assert(ActorId::null().0@[i as int] == 0u8);
                return false;
            }
            i += 1;
        }
        assert(self.0 =~= ActorId::null().0);
        true
    }
}

impl PartialEq for ActorId {
    fn eq(&self, other: &ActorId) -> (r: bool) {
        let mut i: usize = 0;
        while i < 32
            invariant
                i <= 32,
                forall|j: int| 0 <= j < i ==> self.0@[j] == other.0@[j],
            decreases 32 - i,
        {
            if self.0[i] != other.0[i] {
                return false;
            }
            i += 1;
        }
        assert(self.0 =~= other.0);
        true
    }
}

impl vstd::std_specs::cmp::PartialEqSpecImpl for ActorId {
    open spec fn obeys_eq_spec() -> bool {
        true
    }

    open spec fn eq_spec(&self, other: &ActorId) -> bool {
        *self == *other
    }
}

impl Eq for ActorId {
}

/// A 256-bit digest, as 32 raw bytes.
#[derive(Clone, Copy, Debug)]
pub struct H256(pub [u8; 32]);

impl H256 {
    /// The bytes of the digest, as a sequence of length 32.
    pub open spec fn bytes(self) -> Seq<u8> {
        self.0@
    }

    /// The digest that has the bytes given, where they are 32.
    pub open spec fn of(bytes: Seq<u8>) -> H256 {
        choose|digest: H256| digest.bytes() == bytes
    }
}

/// A digest is the one that has its bytes.
pub proof fn lemma_digest_of_bytes(digest: H256)
    ensures
        H256::of(digest.bytes()) == digest,
{
    let chosen = H256::of(digest.bytes());
    assert(chosen.bytes() == digest.bytes());
    assert(chosen.0 =~= digest.0);
}

impl PartialEq for H256 {
    fn eq(&self, other: &H256) -> (r: bool) {
        let mut i: usize = 0;
        while i < 32
            invariant
                i <= 32,
                forall|j: int| 0 <= j < i ==> self.0@[j] == other.0@[j],
            decreases 32 - i,
        {
            if self.0[i] != other.0[i] {
                return false;
            }
            i += 1;
        }
        assert(self.0 =~= other.0);
        true
    }
}

impl vstd::std_specs::cmp::PartialEqSpecImpl for H256 {
    open spec fn obeys_eq_spec() -> bool {
        true
    }

    open spec fn eq_spec(&self, other: &H256) -> bool {
        *self == *other
    }
}

impl Eq for H256 {
}

/// What the host tells of the message in hand: who sent it, which program
/// receives it, and the clock reading of the block that carries it.
#[derive(Clone, Copy, Debug)]
pub struct MessageContext {
    pub source: ActorId,
    pub program_id: ActorId,
    pub block_timestamp: u64,
}

} // verus!
