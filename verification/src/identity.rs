//! The two opaque 32-byte identifiers the registry works with.

use vstd::prelude::*;
use vstd::std_specs::cmp::PartialEqSpecImpl;
use vstd::std_specs::convert::FromSpecImpl;

verus! {

/// Number of bytes in an [`AccountId`] and in a [`ContentHash`].
pub const ID_LEN: usize = 32;

/// Byte-exact comparison of two identifiers.
pub fn bytes_equal(a: &[u8; 32], b: &[u8; 32]) -> (same: bool)
    ensures
        same == (*a == *b),
{
    let mut i: usize = 0;
    while i < ID_LEN
        invariant
            i <= ID_LEN,
            forall|j: int| 0 <= j < i ==> a[j] == b[j],
        decreases ID_LEN - i,
    {
        if a[i] != b[i] {
            return false;
        }
        i += 1;
    }
    assert(*a =~= *b);
    true
}

/// Identifies a principal that calls the registry.
///
/// Two identifiers name the same account exactly when all their bytes agree.
#[derive(Clone, Copy, Debug, Eq)]
pub struct AccountId {
    pub bytes: [u8; 32],
}

impl PartialEq for AccountId {
    fn eq(&self, other: &AccountId) -> (same: bool) {
        bytes_equal(&self.bytes, &other.bytes)
    }
}

impl PartialEqSpecImpl for AccountId {
    open spec fn obeys_eq_spec() -> bool {
        true
    }

    open spec fn eq_spec(&self, other: &AccountId) -> bool {
        *self == *other
    }
}

impl From<[u8; 32]> for AccountId {
    fn from(bytes: [u8; 32]) -> (id: AccountId) {
        AccountId { bytes }
    }
}

impl FromSpecImpl<[u8; 32]> for AccountId {
    open spec fn obeys_from_spec() -> bool {
        true
    }

    open spec fn from_spec(bytes: [u8; 32]) -> AccountId {
        AccountId { bytes }
    }
}

/// Labels a piece of content. The registry stores the label as it is given
/// and never interprets it.
#[derive(Clone, Copy, Debug, Eq)]
pub struct ContentHash {
    pub bytes: [u8; 32],
}

impl PartialEq for ContentHash {
    fn eq(&self, other: &ContentHash) -> (same: bool) {
        bytes_equal(&self.bytes, &other.bytes)
    }
}

impl PartialEqSpecImpl for ContentHash {
    open spec fn obeys_eq_spec() -> bool {
        true
    }

    open spec fn eq_spec(&self, other: &ContentHash) -> bool {
        *self == *other
    }
}

impl From<[u8; 32]> for ContentHash {
    fn from(bytes: [u8; 32]) -> (hash: ContentHash) {
        ContentHash { bytes }
    }
}

impl FromSpecImpl<[u8; 32]> for ContentHash {
    open spec fn obeys_from_spec() -> bool {
        true
    }

    open spec fn from_spec(bytes: [u8; 32]) -> ContentHash {
        ContentHash { bytes }
    }
}

} // verus!
