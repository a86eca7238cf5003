use vstd::prelude::*;

use crate::model::lookup;

verus! {

/// An in-memory filesystem, the fake the bridge is verified against: a log
/// of writes and deletes, later entries shadowing earlier ones. Its view is
/// the map from each path to the bytes currently stored there.
pub struct MemFs {
    entries: Vec<(String, Option<Vec<u8>>)>,
}

/// The map that a log of writes (`Some`) and deletes (`None`) leaves behind
/// when applied left to right.
spec fn entries_map(entries: Seq<(String, Option<Vec<u8>>)>) -> Map<Seq<char>, Seq<u8>>
    decreases entries.len(),
{
    if entries.len() == 0 {
        Map::empty()
    } else {
        let m = entries_map(entries.drop_last());
        match entries.last().1 {
            Some(d) => m.insert(entries.last().0@, d@),
            None => m.remove(entries.last().0@),
        }
    }
}

/// A verified byte-for-byte copy of `v`.
fn copy_bytes(v: &Vec<u8>) -> (r: Vec<u8>)
    ensures
        r@ == v@,
{
    let mut r: Vec<u8> = Vec::new();
    let mut i: usize = 0;
    while i < v.len()
        invariant
            i <= v.len(),
            r@ == v@.take(i as int),
        decreases v.len() - i,
    {
        r.push(v[i]);
        i = i + 1;
        proof {
            assert(r@ =~= v@.take(i as int));
        }
    }
    proof {
        assert(v@.take(i as int) =~= v@);
    }
    r
}

impl View for MemFs {
    type V = Map<Seq<char>, Seq<u8>>;

    closed spec fn view(&self) -> Map<Seq<char>, Seq<u8>> {
        entries_map(self.entries@)
    }
}

impl MemFs {
    /// An empty filesystem.
    pub fn new() -> (fs: MemFs)
        ensures
            fs@ == Map::<Seq<char>, Seq<u8>>::empty(),
    {
        MemFs { entries: Vec::new() }
    }

    /// Stores `data` at `path`, replacing whatever was there.
    pub fn write_file(&mut self, path: String, data: Vec<u8>)
        ensures
            final(self)@ == old(self)@.insert(path@, data@),
    {
        self.entries.push((path, Some(data)));
        proof {
            assert(self.entries@.drop_last() =~= old(self).entries@);
        }
    }

    /// Removes whatever is stored at `path`.
    pub fn delete_file(&mut self, path: String)
        ensures
            final(self)@ == old(self)@.remove(path@),
    {
        self.entries.push((path, None));
        proof {
            assert(self.entries@.drop_last() =~= old(self).entries@);
        }
    }

    /// The bytes stored at `path`, if a file is present there.
    pub fn read_file(&self, path: &String) -> (r: Option<Vec<u8>>)
        ensures
            match r {
                Some(d) => lookup(self@, path@) == Some(d@),
                None => lookup(self@, path@) is None,
            },
    {
        let mut j: usize = self.entries.len();
        proof {
            assert(self.entries@.take(j as int) =~= self.entries@);
        }
        while j > 0
            invariant
                j <= self.entries.len(),
                lookup(entries_map(self.entries@.take(j as int)), path@) == lookup(self@, path@),
            decreases j,
        {
            j = j - 1;
            proof {
                assert(self.entries@.take(j as int + 1).drop_last() =~= self.entries@.take(j as int));
                assert(self.entries@.take(j as int + 1).last() == self.entries@[j as int]);
            }
            let entry = &self.entries[j];
            if entry.0 == *path {
                match &entry.1 {
                    Some(d) => {
                        return Some(copy_bytes(d));
                    },
                    None => {
                        return None;
                    },
                }
            }
        }
        proof {
            assert(self.entries@.take(0) =~= Seq::<(String, Option<Vec<u8>>)>::empty());
        }
        None
    }

    /// Whether a file is present at `path`.
    pub fn exists_file(&self, path: &String) -> (r: bool)
        ensures
            r == self@.dom().contains(path@),
    {
        let found = self.read_file(path);
        found.is_some()
    }
}

} // verus!
