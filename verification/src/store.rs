//! The variable store: the suite-lifetime mapping from capture key to
//! captured string value.  It starts empty, is only ever written by capture
//! directives, and is never rolled back; capturing the same key twice keeps
//! the later value.

use vstd::prelude::*;

verus! {

/// The map described by a sequence of insertions, later entries winning.
pub open spec fn entries_map(s: Seq<(Seq<char>, Seq<char>)>) -> Map<Seq<char>, Seq<char>>
    decreases s.len(),
{
    if s.len() == 0 {
        Map::empty()
    } else {
        entries_map(s.drop_last()).insert(s.last().0, s.last().1)
    }
}

/// The mapping from capture key to captured value.  Viewed as the map the
/// recorded insertions describe, with last-write-wins semantics.
pub struct VarStore {
    entries: Vec<(String, String)>,
}

impl View for VarStore {
    type V = Map<Seq<char>, Seq<char>>;

    closed spec fn view(&self) -> Map<Seq<char>, Seq<char>> {
        entries_map(self.entries.deep_view())
    }
}

proof fn lemma_entries_map_skip_nonmatching(s: Seq<(Seq<char>, Seq<char>)>, k: Seq<char>, i: int)
    requires
        0 <= i <= s.len(),
        forall|j: int| i <= j < s.len() ==> (#[trigger] s[j]).0 != k,
    ensures
        entries_map(s).contains_key(k) == entries_map(s.take(i)).contains_key(k),
        entries_map(s.take(i)).contains_key(k) ==> entries_map(s)[k] == entries_map(s.take(i))[k],
    decreases s.len() - i,
{
    if i == s.len() {
        assert(s.take(i) =~= s);
    } else {
        lemma_entries_map_skip_nonmatching(s, k, i + 1);
        assert(s.take(i + 1).drop_last() =~= s.take(i));
        assert(s.take(i + 1).last() == s[i]);
    }
}

impl VarStore {
    /// A store with no captured variables.
    pub fn new() -> (r: VarStore)
        ensures
            r@ == Map::<Seq<char>, Seq<char>>::empty(),
    {
        VarStore { entries: Vec::new() }
    }

    /// Records `key -> value`, replacing any earlier value of `key`.
    pub fn insert(&mut self, key: String, value: String)
        ensures
            final(self)@ == old(self)@.insert(key@, value@),
    {
        let ghost s0 = self.entries.deep_view();
        let ghost kv = (key@, value@);
        self.entries.push((key, value));
        proof {
            assert(self.entries.deep_view() =~= s0.push(kv));
            assert(s0.push(kv).drop_last() =~= s0);
        }
    }

    /// Looks `key` up; `None` means the key was never captured.
    pub fn get(&self, key: &String) -> (r: Option<String>)
        ensures
            match r {
                Some(v) => self@.contains_key(key@) && v@ == self@[key@],
                None => !self@.contains_key(key@),
            },
    {
        let ghost s = self.entries.deep_view();
        let n: usize = self.entries.len();
        let mut i: usize = n;
        while i > 0
            invariant
                i <= n,
                n == s.len(),
                s == self.entries.deep_view(),
                forall|j: int| i <= j < s.len() ==> (#[trigger] s[j]).0 != key@,
            decreases i,
        {
            i = i - 1;
            if self.entries[i].0 == *key {
                proof {
                    lemma_entries_map_skip_nonmatching(s, key@, i + 1);
                    assert(s.take(i + 1).drop_last() =~= s.take(i as int));
                    assert(s.take(i + 1).last() == s[i as int]);
                }
                return Some(self.entries[i].1.clone());
            }
        }
        proof {
            lemma_entries_map_skip_nonmatching(s, key@, 0);
            assert(s.take(0) =~= Seq::<(Seq<char>, Seq<char>)>::empty());
        }
        None
    }
}

} // verus!
