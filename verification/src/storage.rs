use vstd::prelude::*;

use crate::string_map::StringMap;

verus! {

/// The contract's persistent key-value store, as the contract logic sees it:
/// byte values filed under text keys.
pub struct Storage {
    params: StringMap<Vec<u8>>,
}

impl View for Storage {
    type V = Map<Seq<char>, Seq<u8>>;

    closed spec fn view(&self) -> Map<Seq<char>, Seq<u8>> {
        self.params@
    }
}

impl Storage {
    /// A store that holds nothing.
    pub fn new() -> (st: Self)
        ensures
            st@ == Map::<Seq<char>, Seq<u8>>::empty(),
    {
        Storage { params: StringMap::new() }
    }

    /// Files `value` under `key`, replacing what was there.
    pub fn set_param(&mut self, key: &str, value: &[u8])
        ensures
            final(self)@ == old(self)@.insert(key@, value@),
    {
        let k = key.to_owned();
        let v = vstd::slice::slice_to_vec(value);
        self.params.insert(k, v);
    }

    /// Whether some value is filed under `key`.
    pub fn has_param(&self, key: &str) -> (r: bool)
        ensures
            r == self@.contains_key(key@),
    {
        let k = key.to_owned();
        self.params.contains_key(&k)
    }

    /// The value filed under `key`, which must be there.
    pub fn get_param(&self, key: &str) -> (v: Vec<u8>)
        requires
            self@.contains_key(key@),
        ensures
            v@ == self@[key@],
    {
        let k = key.to_owned();
        match self.params.get(&k) {
            Some(v) => vstd::slice::slice_to_vec(v.as_slice()),
            None => {
                proof {
                    assert(false);
                }
                Vec::new()
            },
        }
    }
}

/// A read gives back what the last write under the same key wrote, and a
/// write under one key leaves what every other key reads as it was.
pub proof fn lemma_read_after_write(st: Map<Seq<char>, Seq<u8>>, key: Seq<char>, value: Seq<u8>)
    ensures
        st.insert(key, value).contains_key(key),
        st.insert(key, value)[key] == value,
        forall|other: Seq<char>|
            other != key ==> (#[trigger] st.insert(key, value).contains_key(other) == st.contains_key(
                other,
            ) && (st.contains_key(other) ==> st.insert(key, value)[other] == st[other])),
{
}

} // verus!
