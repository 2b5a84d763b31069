//! File rights and the path-keyed rights map that an entity's list of file
//! rights folds into.

use vstd::prelude::*;

use crate::rights::{truncated, Rights};

verus! {

/// One resource, named by a path-like string, with the raw rights over it.
#[derive(Clone, Debug)]
pub struct FileRights {
    file_name: String,
    rights: u32,
}

impl FileRights {
    /// The file name, as a sequence of characters.
    pub closed spec fn spec_file_name(&self) -> Seq<char> {
        self.file_name@
    }

    /// The raw rights bitmask.
    pub closed spec fn spec_rights(&self) -> u32 {
        self.rights
    }

    /// Creates a file right.
    pub fn new(file_name: String, rights: u32) -> (r: FileRights)
        ensures
            r.spec_file_name() == file_name@,
            r.spec_rights() == rights,
    {
        FileRights { file_name, rights }
    }

    /// Returns the file name.
    pub fn file_name(&self) -> (r: &str)
        ensures
            r@ == self.spec_file_name(),
    {
        self.file_name.as_str()
    }

    /// Returns the raw rights.
    pub fn rights(&self) -> (r: &u32)
        ensures
            *r == self.spec_rights(),
    {
        &self.rights
    }

    /// Folds a list of file rights into a map from file name to rights. A
    /// later entry for a name replaces an earlier one: rights are not merged.
    pub fn compute_right_map(file_right_vec: &[FileRights]) -> (r: RightsMap)
        ensures
            r@ == rights_map_of(file_right_vec@),
    {
        let mut acc = RightsMap::new();
        let mut i: usize = 0;
        while i < file_right_vec.len()
            invariant
                i <= file_right_vec@.len(),
                acc@ == rights_map_of(file_right_vec@.take(i as int)),
            decreases file_right_vec@.len() - i,
        {
            let entry = &file_right_vec[i];
            let rights = Rights::from_bits_truncate(entry.rights as u64);
            acc.insert(entry.file_name.clone(), rights);
            proof {
                assert(file_right_vec@.take(i + 1).drop_last() =~= file_right_vec@.take(i as int));
            }
            i += 1;
        }
        proof {
            assert(file_right_vec@.take(i as int) =~= file_right_vec@);
        }
        acc
    }
}

/// The rights that one file right grants: its raw mask without unknown bits.
pub open spec fn granted(f: FileRights) -> u64 {
    truncated(f.spec_rights() as u64)
}

/// The map that a list of file rights folds into, left to right, each entry
/// replacing what an earlier one said of the same name.
pub open spec fn rights_map_of(s: Seq<FileRights>) -> Map<Seq<char>, u64>
    decreases s.len(),
{
    if s.len() == 0 {
        Map::empty()
    } else {
        rights_map_of(s.drop_last()).insert(s.last().spec_file_name(), granted(s.last()))
    }
}

/// The names of a list of file rights.
pub open spec fn names_of(s: Seq<FileRights>) -> Set<Seq<char>> {
    Set::new(|n: Seq<char>| exists|i: int| 0 <= i < s.len() && s[i].spec_file_name() == n)
}

/// The folded map is keyed by exactly the names that the list mentions.
pub proof fn lemma_rights_map_domain(s: Seq<FileRights>)
    ensures
        rights_map_of(s).dom() == names_of(s),
    decreases s.len(),
{
    if s.len() > 0 {
        lemma_rights_map_domain(s.drop_last());
        assert forall|n: Seq<char>| names_of(s).contains(n) implies rights_map_of(s).dom().contains(n) by {
            let i = choose|i: int| 0 <= i < s.len() && s[i].spec_file_name() == n;
            if i < s.len() - 1 {
                assert(s.drop_last()[i] == s[i]);
                assert(names_of(s.drop_last()).contains(n));
            }
        }
        assert forall|n: Seq<char>| rights_map_of(s).dom().contains(n) implies names_of(s).contains(n) by {
            if n != s.last().spec_file_name() {
                assert(names_of(s.drop_last()).contains(n));
                let i = choose|i: int| 0 <= i < s.len() - 1 && s.drop_last()[i].spec_file_name() == n;
                assert(s[i].spec_file_name() == n);
            }
        }
        assert(rights_map_of(s).dom() =~= names_of(s));
    } else {
        assert(rights_map_of(s).dom() =~= names_of(s));
    }
}

/// Last write wins: for an entry that no later entry of the list names again,
/// the folded map holds exactly that entry's rights under its name, whatever
/// earlier entries of the same name said.
pub proof fn lemma_last_write_wins(s: Seq<FileRights>, i: int)
    requires
        0 <= i < s.len(),
        forall|j: int| i < j < s.len() ==> s[j].spec_file_name() != s[i].spec_file_name(),
    ensures
        rights_map_of(s).contains_key(s[i].spec_file_name()),
        rights_map_of(s)[s[i].spec_file_name()] == granted(s[i]),
    decreases s.len(),
{
    if i < s.len() - 1 {
        let t = s.drop_last();
        assert(t[i] == s[i]);
        assert forall|j: int| i < j < t.len() implies t[j].spec_file_name() != t[i].spec_file_name() by {
            assert(t[j] == s[j]);
        }
        lemma_last_write_wins(t, i);
        assert(s.last() == s[s.len() - 1]);
    }
}

/// A map from file name to rights. Internally a list of entries in the order
/// they were written; for each name the last entry is the one in force.
#[derive(Clone, Debug)]
pub struct RightsMap {
    entries: Vec<(String, Rights)>,
}

/// The map that a list of (name, rights) entries stands for, the later entry
/// of a name replacing the earlier.
pub open spec fn entries_map(s: Seq<(String, Rights)>) -> Map<Seq<char>, u64>
    decreases s.len(),
{
    if s.len() == 0 {
        Map::empty()
    } else {
        entries_map(s.drop_last()).insert(s.last().0@, s.last().1@)
    }
}

/// Of a name that no entry from `i` on mentions, the map of all entries says
/// what the map of the first `i` entries says.
proof fn lemma_entries_map_prefix(s: Seq<(String, Rights)>, i: int, k: Seq<char>)
    requires
        0 <= i <= s.len(),
        forall|j: int| i <= j < s.len() ==> s[j].0@ != k,
    ensures
        entries_map(s).contains_key(k) == entries_map(s.take(i)).contains_key(k),
        entries_map(s).contains_key(k) ==> entries_map(s)[k] == entries_map(s.take(i))[k],
    decreases s.len(),
{
    if i < s.len() {
        let t = s.drop_last();
        assert forall|j: int| i <= j < t.len() implies t[j].0@ != k by {
            assert(t[j] == s[j]);
        }
        lemma_entries_map_prefix(t, i, k);
        assert(t.take(i) =~= s.take(i));
        assert(s.last() == s[s.len() - 1]);
    } else {
        assert(s.take(i) =~= s);
    }
}

impl View for RightsMap {
    type V = Map<Seq<char>, u64>;

    closed spec fn view(&self) -> Map<Seq<char>, u64> {
        entries_map(self.entries@)
    }
}

impl RightsMap {
    /// The empty map.
    pub fn new() -> (r: RightsMap)
        ensures
            r@ == Map::<Seq<char>, u64>::empty(),
    {
        RightsMap { entries: Vec::new() }
    }

    /// Sets the rights of `path`, replacing what it held before.
    pub fn insert(&mut self, path: String, rights: Rights)
        ensures
            final(self)@ == old(self)@.insert(path@, rights@),
    {
        self.entries.push((path, rights));
        proof {
            assert(self.entries@.drop_last() =~= old(self).entries@);
        }
    }

    /// The rights of `path`, if it has an entry.
    pub fn get(&self, path: &str) -> (r: Option<Rights>)
        ensures
            r is Some <==> self@.contains_key(path@),
            r matches Some(x) ==> x@ == self@[path@],
    {
        let key: String = path.to_owned();
        let mut i: usize = self.entries.len();
        while i > 0
            invariant
                key@ == path@,
                i <= self.entries@.len(),
                forall|j: int| i <= j < self.entries@.len() ==> self.entries@[j].0@ != path@,
            decreases i,
        {
            let e = &self.entries[i - 1];
            if e.0 == key {
                proof {
                    let s = self.entries@;
                    lemma_entries_map_prefix(s, i as int, path@);
                    assert(s.take(i as int).drop_last() =~= s.take(i - 1));
                    assert(s.take(i as int).last() == s[i - 1]);
                }
                return Some(e.1);
            }
            i -= 1;
        }
        proof {
            lemma_entries_map_prefix(self.entries@, 0, path@);
        }
        None
    }

    /// The rights of `path`: none where it has no entry.
    pub fn rights_of(&self, path: &str) -> (r: Rights)
        ensures
            r@ == (if self@.contains_key(path@) { self@[path@] } else { 0 }),
    {
        match self.get(path) {
            Some(x) => x,
            None => Rights::empty(),
        }
    }
}

} // verus!
