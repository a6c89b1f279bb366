//! Account addresses, and where one stands in a list of them.

use vstd::prelude::*;

verus! {

/// A 32-byte account address. The engine only ever compares addresses.
#[derive(Clone, Copy, Debug)]
pub struct Pubkey {
    pub bytes: [u8; 32],
}

impl View for Pubkey {
    type V = Seq<u8>;

    open spec fn view(&self) -> Seq<u8> {
        self.bytes@
    }
}

impl Pubkey {
    /// Wraps 32 raw bytes.
    pub fn new_from_array(bytes: [u8; 32]) -> (key: Pubkey)
        ensures
            key.bytes == bytes,
    {
        Pubkey { bytes }
    }

    /// The raw bytes of the address.
    pub fn to_bytes(&self) -> (bytes: [u8; 32])
        ensures
            bytes == self.bytes,
    {
        self.bytes
    }
}

impl PartialEq for Pubkey {
    fn eq(&self, other: &Pubkey) -> (r: bool)
    {
        let mut i: usize = 0;
        while i < 32
            invariant
                i <= 32,
                forall|j: int| 0 <= j < i ==> self.bytes[j] == other.bytes[j],
            decreases 32 - i,
        {
            if self.bytes[i] != other.bytes[i] {
                return false;
            }
            i += 1;
        }
        assert(self.bytes =~= other.bytes);
        true
    }
}

impl vstd::std_specs::cmp::PartialEqSpecImpl for Pubkey {
    open spec fn obeys_eq_spec() -> bool {
        true
    }

    open spec fn eq_spec(&self, other: &Pubkey) -> bool {
        *self == *other
    }
}

impl Eq for Pubkey {}

/// `i` is the first position of `key` in `keys`.
pub open spec fn is_first_index(keys: Seq<Pubkey>, key: Pubkey, i: int) -> bool {
    &&& 0 <= i < keys.len()
    &&& keys[i] == key
    &&& forall|j: int| 0 <= j < i ==> keys[j] != key
}

/// The first position of `key` in `keys`, if it occurs at all.
pub open spec fn first_index(keys: Seq<Pubkey>, key: Pubkey) -> Option<int> {
    if exists|i: int| is_first_index(keys, key, i) {
        Some(choose|i: int| is_first_index(keys, key, i))
    } else {
        None
    }
}

/// A position that holds `key` with no earlier occurrence is the one
/// `first_index` names.
pub proof fn lemma_first_index_found(keys: Seq<Pubkey>, key: Pubkey, i: int)
    requires
        is_first_index(keys, key, i),
    ensures
        first_index(keys, key) == Some(i),
{
    let c = choose|c: int| is_first_index(keys, key, c);
    assert(is_first_index(keys, key, c));
    if c < i {
        assert(keys[c] != key);
    } else if i < c {
        assert(keys[i] != key);
    }
}

/// A key that occurs nowhere has no first position.
pub proof fn lemma_first_index_absent(keys: Seq<Pubkey>, key: Pubkey)
    requires
        forall|j: int| 0 <= j < keys.len() ==> keys[j] != key,
    ensures
        first_index(keys, key) is None,
{
    if exists|i: int| is_first_index(keys, key, i) {
        let c = choose|c: int| is_first_index(keys, key, c);
        assert(keys[c] != key);
    }
}

/// A key that occurs somewhere has a first position, and that position
/// holds it.
pub proof fn lemma_first_index_some(keys: Seq<Pubkey>, key: Pubkey)
    requires
        keys.contains(key),
    ensures
        first_index(keys, key) is Some,
        is_first_index(keys, key, first_index(keys, key).unwrap()),
{
    let at = choose|i: int| 0 <= i < keys.len() && keys[i] == key;
    lemma_first_index_upto(keys, key, at);
}

/// If `key` occurs at `at`, some position up to `at` is its first.
proof fn lemma_first_index_upto(keys: Seq<Pubkey>, key: Pubkey, at: int)
    requires
        0 <= at < keys.len(),
        keys[at] == key,
    ensures
        exists|i: int| is_first_index(keys, key, i),
    decreases at,
{
    if exists|j: int| 0 <= j < at && keys[j] == key {
        let j = choose|j: int| 0 <= j < at && keys[j] == key;
        lemma_first_index_upto(keys, key, j);
    } else {
        assert(is_first_index(keys, key, at));
    }
}

/// Appending a key leaves every first position as it was, and gives the
/// appended key the new last position if it was absent.
pub proof fn lemma_first_index_push(keys: Seq<Pubkey>, added: Pubkey, key: Pubkey)
    ensures
        first_index(keys.push(added), key) == if first_index(keys, key) is Some {
            first_index(keys, key)
        } else if key == added {
            Some(keys.len() as int)
        } else {
            None
        },
{
    let pushed = keys.push(added);
    if keys.contains(key) {
        lemma_first_index_some(keys, key);
        let at = first_index(keys, key).unwrap();
        assert(is_first_index(pushed, key, at));
        lemma_first_index_found(pushed, key, at);
    } else {
        lemma_first_index_absent(keys, key);
        if key == added {
            assert(is_first_index(pushed, key, keys.len() as int));
            lemma_first_index_found(pushed, key, keys.len() as int);
        } else {
            lemma_first_index_absent(pushed, key);
        }
    }
}

} // verus!
