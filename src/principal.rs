//! Principals: the actors that can hold file capabilities.

use vstd::prelude::*;

verus! {

/// An actor that can be a key of the rights table.
#[derive(Clone, Debug, Hash)]
pub enum Principal {
    /// The top element, used internally for "all rights everywhere".
    InternalSuperUser,
    /// A participant, identified by its numeric id.
    Participant(u64),
    /// A program, identified by its file name.
    Program(String),
    /// A pipeline, identified by its name.
    Pipeline(String),
    /// A native module, identified by its name.
    NativeModule(String),
    /// The bottom element: explicitly no rights.
    NoCap,
}

/// The mathematical value of a principal: its tag and its payload.
pub enum PrincipalView {
    InternalSuperUser,
    Participant(u64),
    Program(Seq<char>),
    Pipeline(Seq<char>),
    NativeModule(Seq<char>),
    NoCap,
}

impl View for Principal {
    type V = PrincipalView;

    open spec fn view(&self) -> PrincipalView {
        match self {
            Principal::InternalSuperUser => PrincipalView::InternalSuperUser,
            Principal::Participant(id) => PrincipalView::Participant(*id),
            Principal::Program(name) => PrincipalView::Program(name@),
            Principal::Pipeline(name) => PrincipalView::Pipeline(name@),
            Principal::NativeModule(name) => PrincipalView::NativeModule(name@),
            Principal::NoCap => PrincipalView::NoCap,
        }
    }
}

impl PartialEq for Principal {
    /// Structural equality over the tag and the payload.
    fn eq(&self, other: &Principal) -> (r: bool)
        ensures
            r == (self@ == other@),
    {
        match (self, other) {
            (Principal::InternalSuperUser, Principal::InternalSuperUser) => true,
            (Principal::Participant(a), Principal::Participant(b)) => *a == *b,
            (Principal::Program(a), Principal::Program(b)) => *a == *b,
            (Principal::Pipeline(a), Principal::Pipeline(b)) => *a == *b,
            (Principal::NativeModule(a), Principal::NativeModule(b)) => *a == *b,
            (Principal::NoCap, Principal::NoCap) => true,
            _ => false,
        }
    }
}

impl vstd::std_specs::cmp::PartialEqSpecImpl for Principal {
    open spec fn obeys_eq_spec() -> bool {
        true
    }

    open spec fn eq_spec(&self, other: &Principal) -> bool {
        self@ == other@
    }
}

impl Eq for Principal {

}

/// Principals of different kinds never compare equal, whatever they wrap:
/// `Program(n)`, `Pipeline(n)` and `NativeModule(n)` are three distinct keys,
/// and so are `Participant(i)`, `InternalSuperUser` and `NoCap`.
pub proof fn lemma_kinds_are_distinct(name: Seq<char>, id: u64)
    ensures
        PrincipalView::Program(name) != PrincipalView::Pipeline(name),
        PrincipalView::Program(name) != PrincipalView::NativeModule(name),
        PrincipalView::Pipeline(name) != PrincipalView::NativeModule(name),
        PrincipalView::Participant(id) != PrincipalView::InternalSuperUser,
        PrincipalView::Participant(id) != PrincipalView::NoCap,
        PrincipalView::InternalSuperUser != PrincipalView::NoCap,
{
}

/// How a program is executed.
#[derive(Clone, Copy, Debug, PartialEq, Eq, Structural, Hash)]
pub enum ExecutionStrategy {
    /// The WASM binary is interpreted.
    Interpretation,
    /// The WASM binary is compiled just in time.
    JIT,
}

} // verus!
