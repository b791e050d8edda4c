//! The get/put/delete contract of the store adapter.
//!
//! The backing service keeps raw bytes per identifier and answers a point
//! lookup with the stored bytes, or with an empty payload when nothing is
//! stored. The adapter's one piece of policy sits on top of that answer: an
//! empty payload is reported as an absent value. `decode_get_response` is
//! that policy; `StateStoreModel` is an executable model of a store seen
//! through it, against which the round-trip laws at the end are proved.

use vstd::prelude::*;

verus! {

/// The payload the backing service answers for `id` when it holds the
/// entries of `m`: the stored bytes, or an empty payload when absent.
pub open spec fn raw_payload(m: Map<Seq<char>, Seq<u8>>, id: Seq<char>) -> Seq<u8> {
    if m.contains_key(id) {
        m[id]
    } else {
        Seq::empty()
    }
}

/// The adapter's policy on a lookup payload: empty means absent.
pub open spec fn decode_payload(data: Seq<u8>) -> Option<Seq<u8>> {
    if data.len() == 0 {
        None
    } else {
        Some(data)
    }
}

/// What a `get` of `id` observes through the adapter when the backing
/// service holds the entries of `m`.
pub open spec fn observed_value(m: Map<Seq<char>, Seq<u8>>, id: Seq<char>) -> Option<Seq<u8>> {
    decode_payload(raw_payload(m, id))
}

/// Applies the adapter's lookup policy to a response payload: a zero-length
/// payload maps to `None`, any other payload is handed through as `Some`.
pub fn decode_get_response(data: Vec<u8>) -> (r: Option<Vec<u8>>)
    ensures
        data@.len() == 0 ==> r is None,
        data@.len() > 0 ==> (r matches Some(v) && v@ == data@),
{
    if data.len() == 0 {
        None
    } else {
        Some(data)
    }
}

/// The map denoted by an association list of entries; a later entry for the
/// same identifier shadows an earlier one.
spec fn entries_map(s: Seq<(String, Vec<u8>)>) -> Map<Seq<char>, Seq<u8>>
    decreases s.len(),
{
    if s.len() == 0 {
        Map::empty()
    } else {
        entries_map(s.drop_last()).insert(s.last().0@, s.last().1@)
    }
}

/// An executable model of the backing store as the adapter sees it: entries
/// keyed by identifier, looked up under the empty-means-absent policy.
pub struct StateStoreModel {
    entries: Vec<(String, Vec<u8>)>,
}

proof fn lemma_entries_map_no_key(s: Seq<(String, Vec<u8>)>, id: Seq<char>)
    requires
        forall|i: int| 0 <= i < s.len() ==> (#[trigger] s[i].0)@ != id,
    ensures
        !entries_map(s).contains_key(id),
    decreases s.len(),
{
    if s.len() > 0 {
        lemma_entries_map_no_key(s.drop_last(), id);
    }
}

proof fn lemma_entries_map_at(s: Seq<(String, Vec<u8>)>, i: int)
    requires
        0 <= i < s.len(),
        forall|j: int, k: int| 0 <= j < k < s.len() ==> (#[trigger] s[j].0)@ != (#[trigger] s[k].0)@,
    ensures
        entries_map(s).contains_key(s[i].0@),
        entries_map(s)[s[i].0@] == s[i].1@,
    decreases s.len(),
{
    if i + 1 == s.len() {
    } else {
        lemma_entries_map_at(s.drop_last(), i);
    }
}

proof fn lemma_entries_map_remove(s: Seq<(String, Vec<u8>)>, i: int)
    requires
        0 <= i < s.len(),
        forall|j: int, k: int| 0 <= j < k < s.len() ==> (#[trigger] s[j].0)@ != (#[trigger] s[k].0)@,
    ensures
        entries_map(s.remove(i)) =~= entries_map(s).remove(s[i].0@),
    decreases s.len(),
{
    if i + 1 == s.len() {
        assert(s.remove(i) =~= s.drop_last());
        lemma_entries_map_no_key_of_distinct(s.drop_last(), s[i].0@, s);
    } else {
        assert(s.remove(i).drop_last() =~= s.drop_last().remove(i));
        assert(s.remove(i).last() == s.last());
        lemma_entries_map_remove(s.drop_last(), i);
    }
}

/// In an all-distinct entry list, the last entry's identifier is absent from
/// the map of the earlier entries.
proof fn lemma_entries_map_no_key_of_distinct(
    prefix: Seq<(String, Vec<u8>)>,
    id: Seq<char>,
    s: Seq<(String, Vec<u8>)>,
)
    requires
        forall|j: int, k: int| 0 <= j < k < s.len() ==> (#[trigger] s[j].0)@ != (#[trigger] s[k].0)@,
        s.len() > 0,
        prefix == s.drop_last(),
        id == s.last().0@,
    ensures
        !entries_map(prefix).contains_key(id),
{
    assert(forall|i: int| 0 <= i < prefix.len() ==> (#[trigger] prefix[i].0)@ != id);
    lemma_entries_map_no_key(prefix, id);
}

impl View for StateStoreModel {
    type V = Map<Seq<char>, Seq<u8>>;

    closed spec fn view(&self) -> Map<Seq<char>, Seq<u8>> {
        entries_map(self.entries@)
    }
}

impl StateStoreModel {
    /// Each identifier owns at most one entry.
    pub closed spec fn wf(&self) -> bool {
        forall|j: int, k: int|
            0 <= j < k < self.entries@.len() ==> (#[trigger] self.entries@[j].0)@ != (
            #[trigger] self.entries@[k].0)@
    }

    /// An empty store: nothing is present under any identifier.
    pub fn new() -> (s: Self)
        ensures
            s.wf(),
            s@ == Map::<Seq<char>, Seq<u8>>::empty(),
    {
        StateStoreModel { entries: Vec::new() }
    }

    /// The position of the entry for `id`, if one exists.
    fn find(&self, id: &str) -> (r: Option<usize>)
        requires
            self.wf(),
        ensures
            match r {
                Some(i) => i < self.entries@.len() && self.entries@[i as int].0@ == id@
                    && self@.contains_key(id@) && self@[id@] == self.entries@[i as int].1@,
                None => !self@.contains_key(id@),
            },
    {
        let key: String = id.to_owned();
        let n = self.entries.len();
        let mut i: usize = 0;
        while i < n
            invariant
                self.wf(),
                key@ == id@,
                n == self.entries@.len(),
                i <= n,
                forall|j: int| 0 <= j < i ==> (#[trigger] self.entries@[j].0)@ != id@,
            decreases n - i,
        {
            if self.entries[i].0 == key {
                proof {
                    lemma_entries_map_at(self.entries@, i as int);
                }
                return Some(i);
            }
            i = i + 1;
        }
        proof {
            lemma_entries_map_no_key(self.entries@, id@);
        }
        None
    }

    /// Upserts `value` under `id`: last write wins, whether or not an entry
    /// existed before, and whatever length the value has — storing is not
    /// where the empty-means-absent policy applies.
    pub fn put(&mut self, id: &str, value: Vec<u8>)
        requires
            old(self).wf(),
        ensures
            final(self).wf(),
            final(self)@ == old(self)@.insert(id@, value@),
    {
        self.delete(id);
        let ghost before = self.entries@;
        proof {
            assert forall|j: int| 0 <= j < before.len() implies (#[trigger] before[j].0)@ != id@ by {
                if before[j].0@ == id@ {
                    lemma_entries_map_at(before, j);
                }
            }
        }
        let owned: String = id.to_owned();
        self.entries.push((owned, value));
        proof {
            assert(self.entries@.drop_last() =~= before);
            assert(old(self)@.remove(id@).insert(id@, value@) =~= old(self)@.insert(id@, value@));
        }
    }

    /// Removes whatever entry `id` owns. Deleting an identifier that holds
    /// nothing is not an error and leaves the store as it was.
    pub fn delete(&mut self, id: &str)
        requires
            old(self).wf(),
        ensures
            final(self).wf(),
            final(self)@ == old(self)@.remove(id@),
    {
        match self.find(id) {
            Some(i) => {
                proof {
                    lemma_entries_map_remove(self.entries@, i as int);
                }
                self.entries.remove(i);
                proof {
                    assert forall|j: int, k: int|
                        0 <= j < k < self.entries@.len() implies (#[trigger] self.entries@[j].0)@
                        != (#[trigger] self.entries@[k].0)@ by {
                        assert(self.entries@ == old(self).entries@.remove(i as int));
                    }
                }
            },
            None => {
                proof {
                    assert(old(self)@.remove(id@) =~= old(self)@);
                }
            },
        }
    }

    /// Looks `id` up and reports what the adapter observes: `None` when no
    /// entry exists or the stored bytes are empty, the bytes otherwise.
    pub fn get(&self, id: &str) -> (r: Option<Vec<u8>>)
        requires
            self.wf(),
        ensures
            r matches Some(v) ==> observed_value(self@, id@) == Some(v@),
            r is None ==> observed_value(self@, id@) is None,
    {
        let payload: Vec<u8> = match self.find(id) {
            Some(i) => copy_bytes(&self.entries[i].1),
            None => Vec::new(),
        };
        decode_get_response(payload)
    }
}

/// A byte-for-byte copy of a byte vector.
fn copy_bytes(src: &Vec<u8>) -> (r: Vec<u8>)
    ensures
        r@ == src@,
{
    let n = src.len();
    let mut out: Vec<u8> = Vec::new();
    let mut i: usize = 0;
    while i < n
        invariant
            n == src@.len(),
            i <= n,
            out@ == src@.take(i as int),
        decreases n - i,
    {
        out.push(src[i]);
        proof {
            assert(src@.take(i + 1) =~= src@.take(i as int).push(src@[i as int]));
        }
        i = i + 1;
    }
    proof {
        assert(src@.take(n as int) =~= src@);
    }
    out
}

/// Writing a non-empty value and reading the same identifier back observes
/// exactly that value, whatever was stored before.
pub proof fn lemma_put_then_get(m: Map<Seq<char>, Seq<u8>>, id: Seq<char>, v: Seq<u8>)
    requires
        v.len() > 0,
    ensures
        observed_value(m.insert(id, v), id) == Some(v),
{
}

/// An identifier nothing was ever written under is observed as absent.
pub proof fn lemma_get_unwritten(m: Map<Seq<char>, Seq<u8>>, id: Seq<char>)
    requires
        !m.contains_key(id),
    ensures
        observed_value(m, id) is None,
{
}

/// Writing an empty value and reading the identifier back observes absence:
/// the empty payload the backing service then answers is indistinguishable
/// from no value at all.
pub proof fn lemma_put_empty_then_get(m: Map<Seq<char>, Seq<u8>>, id: Seq<char>, v: Seq<u8>)
    requires
        v.len() == 0,
    ensures
        observed_value(m.insert(id, v), id) is None,
{
}

/// Deleting an identifier that holds nothing leaves the store unchanged, so
/// a repeated delete is as good as one.
pub proof fn lemma_delete_absent(m: Map<Seq<char>, Seq<u8>>, id: Seq<char>)
    requires
        !m.contains_key(id),
    ensures
        m.remove(id) == m,
{
    assert(m.remove(id) =~= m);
}

} // verus!
