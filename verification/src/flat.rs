use vstd::prelude::*;
use vstd::utf8::encode_utf8;

use crate::storage::Storage;
use crate::string_map::{has_key, keys_distinct, lemma_pairs_view_push, pairs_view, StringMap};

verus! {

/// The store after each application of `map` has been filed under its own
/// name, its address as UTF-8 bytes.
pub open spec fn with_flat_apps(st: Map<Seq<char>, Seq<u8>>, map: Map<Seq<char>, Seq<char>>) -> Map<
    Seq<char>,
    Seq<u8>,
> {
    st.union_prefer_right(map.map_values(|a: Seq<char>| encode_utf8(a)))
}

/// Files each application of `map` in the store under its own name, its
/// address as the value, leaving every other entry of the store as it was.
pub fn store_apps(st: &mut Storage, map: StringMap<String>)
    ensures
        final(st)@ == with_flat_apps(old(st)@, map@),
{
    proof {
        use_type_invariant(&map);
    }
    let ghost start = st@;
    proof {
        map.lemma_view_is_pairs();
        map.lemma_inv();
        assert(pairs_view(map.entries@.take(0)) =~= Map::<Seq<char>, Seq<char>>::empty());
        assert(with_flat_apps(start, pairs_view(map.entries@.take(0))) =~= start);
    }
    let ghost all = map.entries@;
    let n = map.entries.len();
    let mut i: usize = 0;
    while i < n
        invariant
            n == all.len(),
            i <= n,
            map.entries@ == all,
            keys_distinct(all),
            st@ == with_flat_apps(start, pairs_view(all.take(i as int))),
        decreases n - i,
    {
        let key = &map.entries[i].0;
        let address = &map.entries[i].1;
        let ghost before = st@;
        st.set_param(key.as_str(), address.as_str().as_bytes());
        proof {
            let pre = all.take(i as int);
            let post = all.take(i + 1);
            assert(post =~= pre.push(all[i as int]));
            assert(keys_distinct(pre)) by {
                assert forall|a: int, b: int|
                    0 <= a < pre.len() && 0 <= b < pre.len() && a != b implies #[trigger] pre[a].0@
                    != #[trigger] pre[b].0@ by {
                    assert(pre[a] == all[a] && pre[b] == all[b]);
                }
            }
            if has_key(pre, all[i as int].0@) {
                let j = choose|j: int| 0 <= j < pre.len() && #[trigger] pre[j].0@ == all[i as int].0@;
                assert(pre[j] == all[j]);
            }
            lemma_pairs_view_push(pre, all[i as int]);
            assert(st@ =~= with_flat_apps(start, pairs_view(post)));
        }
        i = i + 1;
    }
    proof {
        assert(all.take(n as int) =~= all);
    }
}

} // verus!
