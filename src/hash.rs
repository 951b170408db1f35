//! Content addresses: the 36 bytes of a hash (32 of digest, 4 of location)
//! and the kind that tells actions, entries, agents and external data apart.
use vstd::prelude::*;

verus! {

/// Length of a hash without its three-byte type prefix.
pub const HASH_LEN: usize = 36;

/// The untyped body of a hash. Two hashes of one kind are the same address
/// exactly when their bytes agree.
#[derive(Clone, Copy, Debug)]
pub struct RawHash {
    pub bytes: [u8; 36],
}

/// Hash of an action: the address of a record.
pub type ActionHash = RawHash;

/// Public key of an agent, used as its address.
pub type AgentPubKey = RawHash;

/// Hash of an entry's content.
pub type EntryHash = RawHash;

impl PartialEq for RawHash {
    fn eq(&self, other: &RawHash) -> (r: bool) {
        let mut i: usize = 0;
        while i < HASH_LEN
            invariant
                i <= HASH_LEN,
                self.bytes@.len() == HASH_LEN,
                other.bytes@.len() == HASH_LEN,
                forall|j: int| 0 <= j < i ==> self.bytes[j] == other.bytes[j],
            decreases HASH_LEN - i,
        {
            if self.bytes[i] != other.bytes[i] {
                return false;
            }
            i = i + 1;
        }
        assert(self.bytes =~= other.bytes);
        true
    }
}

impl Eq for RawHash {
}

impl vstd::std_specs::cmp::PartialEqSpecImpl for RawHash {
    open spec fn obeys_eq_spec() -> bool {
        true
    }

    open spec fn eq_spec(&self, other: &RawHash) -> bool {
        *self == *other
    }
}

/// What a linkable address points at. An agent's key is linked as an entry.
#[derive(Clone, Copy, Debug, PartialEq, Eq, Structural)]
pub enum LinkableKind {
    Entry,
    Action,
    External,
}

/// An address that a link may have as its base or its target.
#[derive(Clone, Copy, Debug)]
pub struct AnyLinkableHash {
    pub kind: LinkableKind,
    pub hash: RawHash,
}

impl AnyLinkableHash {
    /// The address as an action hash, where it is one.
    pub open spec fn into_action_hash_spec(self) -> Option<ActionHash> {
        if self.kind == LinkableKind::Action {
            Some(self.hash)
        } else {
            None
        }
    }

    /// The address as an action hash, where it is one.
    pub fn into_action_hash(&self) -> (r: Option<ActionHash>)
        ensures
            r == self.into_action_hash_spec(),
    {
        match self.kind {
            LinkableKind::Action => Some(self.hash),
            _ => None,
        }
    }

    /// The address as an agent's key, where it is an entry address.
    pub fn into_agent_pub_key(&self) -> (r: Option<AgentPubKey>)
        ensures
            r == (if self.kind == LinkableKind::Entry {
                Some(self.hash)
            } else {
                None::<AgentPubKey>
            }),
    {
        match self.kind {
            LinkableKind::Entry => Some(self.hash),
            _ => None,
        }
    }
}

/// Whether `h` occurs in `hs`.
pub fn contains_hash(hs: &Vec<RawHash>, h: &RawHash) -> (r: bool)
    ensures
        r == hs@.contains(*h),
{
    let mut i: usize = 0;
    while i < hs.len()
        invariant
            i <= hs@.len(),
            forall|j: int| 0 <= j < i ==> hs@[j] != *h,
        decreases hs@.len() - i,
    {
        if hs[i] == *h {
            assert(hs@[i as int] == *h);
            return true;
        }
        i = i + 1;
    }
    false
}

} // verus!
