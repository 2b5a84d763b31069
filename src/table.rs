//! The rights table: for each principal, its rights over each file. This is
//! what the execution engine consults on every file operation.

use vstd::prelude::*;

use crate::entities::Program;
use crate::file_rights::{rights_map_of, RightsMap};
use crate::identity::Identity;
use crate::pipeline::Pipeline;
use crate::principal::{Principal, PrincipalView};
use crate::rights::{Rights, RIGHTS_ALL_BITS};

verus! {

/// The rights that a table grants `principal` over `path`. The two implicit
/// elements need no entry: `InternalSuperUser` holds every right everywhere
/// and `NoCap` holds none. Any other principal holds what its entry says,
/// and nothing over a path, or as a principal, that the table lacks.
pub open spec fn table_rights(
    table: Map<PrincipalView, Map<Seq<char>, u64>>,
    principal: PrincipalView,
    path: Seq<char>,
) -> u64 {
    if principal is InternalSuperUser {
        RIGHTS_ALL_BITS
    } else if principal is NoCap {
        0
    } else if table.contains_key(principal) && table[principal].contains_key(path) {
        table[principal][path]
    } else {
        0
    }
}

/// The map that a list of (principal, rights map) entries stands for, the
/// later entry of a principal replacing the earlier.
pub open spec fn table_entries_map(s: Seq<(Principal, RightsMap)>) -> Map<PrincipalView, Map<Seq<char>, u64>>
    decreases s.len(),
{
    if s.len() == 0 {
        Map::empty()
    } else {
        table_entries_map(s.drop_last()).insert(s.last().0@, s.last().1@)
    }
}

/// Of a principal that no entry from `i` on mentions, the map of all entries
/// says what the map of the first `i` entries says.
proof fn lemma_table_prefix(s: Seq<(Principal, RightsMap)>, i: int, k: PrincipalView)
    requires
        0 <= i <= s.len(),
        forall|j: int| i <= j < s.len() ==> s[j].0@ != k,
    ensures
        table_entries_map(s).contains_key(k) == table_entries_map(s.take(i)).contains_key(k),
        table_entries_map(s).contains_key(k) ==> table_entries_map(s)[k] == table_entries_map(s.take(i))[k],
    decreases s.len(),
{
    if i < s.len() {
        let t = s.drop_last();
        assert forall|j: int| i <= j < t.len() implies t[j].0@ != k by {
            assert(t[j] == s[j]);
        }
        lemma_table_prefix(t, i, k);
        assert(t.take(i) =~= s.take(i));
        assert(s.last() == s[s.len() - 1]);
    } else {
        assert(s.take(i) =~= s);
    }
}

/// A map from principal to its rights map.
#[derive(Clone, Debug)]
pub struct RightsTable {
    entries: Vec<(Principal, RightsMap)>,
}

impl View for RightsTable {
    type V = Map<PrincipalView, Map<Seq<char>, u64>>;

    closed spec fn view(&self) -> Map<PrincipalView, Map<Seq<char>, u64>> {
        table_entries_map(self.entries@)
    }
}

impl RightsTable {
    /// The empty table.
    pub fn new() -> (r: RightsTable)
        ensures
            r@ == Map::<PrincipalView, Map<Seq<char>, u64>>::empty(),
    {
        RightsTable { entries: Vec::new() }
    }

    /// Sets the rights map of `principal`. A principal already in the table
    /// has its rights map replaced, not merged.
    pub fn insert(&mut self, principal: Principal, rights: RightsMap)
        ensures
            final(self)@ == old(self)@.insert(principal@, rights@),
    {
        self.entries.push((principal, rights));
        proof {
            assert(self.entries@.drop_last() =~= old(self).entries@);
        }
    }

    /// Enters a program's rights under `Program(file name)`.
    pub fn add_program(&mut self, program: &Program)
        ensures
            final(self)@ == old(self)@.insert(
                PrincipalView::Program(program.spec_program_file_name()),
                rights_map_of(program.spec_file_rights()),
            ),
    {
        let name = program.program_file_name().to_owned();
        self.insert(Principal::Program(name), program.file_rights_map());
    }

    /// Enters a pipeline's rights under `Pipeline(name)`.
    pub fn add_pipeline<A>(&mut self, pipeline: &Pipeline<A>)
        ensures
            final(self)@ == old(self)@.insert(
                PrincipalView::Pipeline(pipeline.spec_name()),
                rights_map_of(pipeline.spec_file_rights()),
            ),
    {
        let name = pipeline.name().to_owned();
        self.insert(Principal::Pipeline(name), pipeline.file_rights_map());
    }

    /// Enters an identity's rights under `Participant(id)`.
    pub fn add_participant<U>(&mut self, identity: &Identity<U>)
        ensures
            final(self)@ == old(self)@.insert(
                PrincipalView::Participant(identity.spec_id() as u64),
                rights_map_of(identity.spec_file_rights()),
            ),
    {
        let id = *identity.id() as u64;
        self.insert(Principal::Participant(id), identity.file_rights_map());
    }

    /// The rights map of `principal`, if it has an entry.
    fn find(&self, principal: &Principal) -> (r: Option<&RightsMap>)
        ensures
            r is Some <==> self@.contains_key(principal@),
            r matches Some(m) ==> m@ == self@[principal@],
    {
        let mut i: usize = self.entries.len();
        while i > 0
            invariant
                i <= self.entries@.len(),
                forall|j: int| i <= j < self.entries@.len() ==> self.entries@[j].0@ != principal@,
            decreases i,
        {
            let e = &self.entries[i - 1];
            if e.0 == *principal {
                proof {
                    let s = self.entries@;
                    lemma_table_prefix(s, i as int, principal@);
                    assert(s.take(i as int).drop_last() =~= s.take(i - 1));
                    assert(s.take(i as int).last() == s[i - 1]);
                }
                return Some(&e.1);
            }
            i -= 1;
        }
        proof {
            lemma_table_prefix(self.entries@, 0, principal@);
        }
        None
    }

    /// The rights that `principal` holds over `path`: all of them for
    /// `InternalSuperUser`, none for `NoCap`, and none where the table has no
    /// entry.
    pub fn rights_of(&self, principal: &Principal, path: &str) -> (r: Rights)
        ensures
            r@ == table_rights(self@, principal@, path@),
    {
        match principal {
            Principal::InternalSuperUser => {
                return Rights::all();
            },
            Principal::NoCap => {
                return Rights::empty();
            },
            _ => {},
        }
        match self.find(principal) {
            Some(m) => m.rights_of(path),
            None => Rights::empty(),
        }
    }

    /// Whether `principal` may perform every operation of `requested` on `path`.
    pub fn is_allowed(&self, principal: &Principal, path: &str, requested: &Rights) -> (r: bool)
        ensures
            r == (table_rights(self@, principal@, path@) & requested@ == requested@),
    {
        self.rights_of(principal, path).contains(requested)
    }
}

/// `NoCap`, and any principal that the table lacks, hold no rights over any
/// path, so a request for at least one operation is refused to them.
pub proof fn lemma_absent_principal_holds_nothing(
    table: Map<PrincipalView, Map<Seq<char>, u64>>,
    principal: PrincipalView,
    path: Seq<char>,
    requested: u64,
)
    requires
        principal is NoCap || (!table.contains_key(principal) && !(principal is InternalSuperUser)),
        requested != 0,
    ensures
        table_rights(table, principal, path) == 0,
        table_rights(table, principal, path) & requested != requested,
{
    assert(0u64 & requested == 0u64) by (bit_vector);
}

/// A program and a pipeline of the same name are entered under two distinct
/// keys: neither entry overwrites the other, whatever order they come in.
pub proof fn lemma_program_and_pipeline_kept_apart(
    table: Map<PrincipalView, Map<Seq<char>, u64>>,
    name: Seq<char>,
    program_rights: Map<Seq<char>, u64>,
    pipeline_rights: Map<Seq<char>, u64>,
)
    ensures
        ({
            let t = table.insert(PrincipalView::Program(name), program_rights).insert(
                PrincipalView::Pipeline(name),
                pipeline_rights,
            );
            &&& t[PrincipalView::Program(name)] == program_rights
            &&& t[PrincipalView::Pipeline(name)] == pipeline_rights
        }),
{
}

/// Two programs of the same name collide: the second one entered replaces
/// the first one's rights map entirely.
pub proof fn lemma_same_principal_overwrites(
    table: Map<PrincipalView, Map<Seq<char>, u64>>,
    principal: PrincipalView,
    first: Map<Seq<char>, u64>,
    second: Map<Seq<char>, u64>,
)
    ensures
        table.insert(principal, first).insert(principal, second)[principal] == second,
        table.insert(principal, first).insert(principal, second).dom() == table.insert(principal, second).dom(),
{
    assert(table.insert(principal, first).insert(principal, second).dom() =~= table.insert(principal, second).dom());
}

} // verus!
