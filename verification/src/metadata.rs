use vstd::prelude::*;

verus! {

/// String equality by characters.
pub fn str_eq(a: &str, b: &str) -> (r: bool)
    ensures
        r == (a@ == b@),
{
    let x: String = a.to_owned();
    let y: String = b.to_owned();
    x == y
}

/// The value under `key` in `entries`, scanning from the most recently
/// added pair backwards, so a later pair for the same key shadows an
/// earlier one — the lookup discipline of a string-keyed mapping.
pub open spec fn spec_lookup(entries: Seq<(String, String)>, key: Seq<char>) -> Option<Seq<char>>
    decreases entries.len(),
{
    if entries.len() == 0 {
        None
    } else if entries.last().0@ == key {
        Some(entries.last().1@)
    } else {
        spec_lookup(entries.drop_last(), key)
    }
}

/// The per-request key/value metadata of a scaled object: a string-keyed
/// mapping in which the most recently set pair for a key is the one
/// observed.
#[derive(Clone, Debug, PartialEq, Eq)]
pub struct Metadata {
    pub entries: Vec<(String, String)>,
}

impl Metadata {
    /// What this metadata maps `key` to, if anything.
    pub open spec fn spec_get(&self, key: Seq<char>) -> Option<Seq<char>> {
        spec_lookup(self.entries@, key)
    }

    /// Metadata with no pairs at all.
    pub fn new() -> (m: Metadata)
        ensures
            m.entries@ == Seq::<(String, String)>::empty(),
    {
        Metadata { entries: Vec::new() }
    }

    /// Sets `key` to `value`, shadowing any earlier pair for `key`.
    pub fn insert(&mut self, key: String, value: String)
        ensures
            final(self).entries@ == old(self).entries@.push((key, value)),
            final(self).spec_get(key@) == Some::<Seq<char>>(value@),
            forall|k: Seq<char>|
                k != key@ ==> final(self).spec_get(k) == old(self).spec_get(k),
    {
        let ghost before = self.entries@;
        self.entries.push((key, value));
        proof {
            assert(self.entries@.drop_last() =~= before);
        }
    }

    /// Returns the value set for `key`, or `None` if no pair carries it.
    pub fn get(&self, key: &str) -> (r: Option<&String>)
        ensures
            match r {
                Some(v) => self.spec_get(key@) == Some(v@),
                None => self.spec_get(key@) is None,
            },
    {
        let mut i: usize = self.entries.len();
        proof {
            assert(self.entries@.take(self.entries@.len() as int) =~= self.entries@);
        }
        while i > 0
            invariant
                i <= self.entries@.len(),
                spec_lookup(self.entries@, key@) == spec_lookup(self.entries@.take(i as int), key@),
            decreases i,
        {
            i = i - 1;
            let entry = &self.entries[i];
            if str_eq(entry.0.as_str(), key) {
                proof {
                    assert(self.entries@.take(i as int + 1).last() == self.entries@[i as int]);
                }
                return Some(&self.entries[i].1);
            }
            proof {
                assert(self.entries@.take(i as int + 1).last() == self.entries@[i as int]);
                assert(self.entries@.take(i as int + 1).drop_last() =~= self.entries@.take(i as int));
            }
        }
        proof {
            assert(self.entries@.take(0) =~= Seq::<(String, String)>::empty());
        }
        None
    }
}

} // verus!
