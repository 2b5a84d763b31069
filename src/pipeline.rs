//! Pipelines: named conditional execution scripts over programs, whose
//! parsed form is computed once and cached.
//!
//! The script grammar belongs to the pipeline parser, which callers hand in:
//! this module never looks inside the abstract syntax tree (of type `A`).

use vstd::prelude::*;

use crate::error::PolicyError;
use crate::file_rights::{rights_map_of, FileRights, RightsMap};

verus! {

/// A named pipeline script with its rights over files. It is either unparsed
/// (only the script is held) or parsed (the tree is cached as well).
#[derive(Clone, Debug)]
pub struct Pipeline<A> {
    name: String,
    preparsed_pipeline: String,
    parsed_pipeline: Option<Box<A>>,
    id: u32,
    file_rights: Vec<FileRights>,
}

/// What one call of `parse` does, with `parser` for the grammar. A parsed
/// pipeline stays exactly as it is and the call succeeds. An unparsed one
/// keeps its name, id, script and rights; it becomes parsed, with a tree that
/// the parser gives for its script, when the call succeeds, and stays unparsed,
/// the parser having refused the script, when the call fails.
pub open spec fn parse_outcome<A, E, F: FnOnce(&String) -> Result<A, E>>(
    before: Pipeline<A>,
    after: Pipeline<A>,
    r: Result<(), PolicyError>,
    parser: F,
) -> bool {
    &&& before.spec_parsed() is Some ==> r is Ok && after == before
    &&& before.spec_parsed() is None ==> {
        &&& after.spec_name() == before.spec_name()
        &&& after.spec_id() == before.spec_id()
        &&& after.spec_source() == before.spec_source()
        &&& after.spec_file_rights() == before.spec_file_rights()
        &&& r matches Ok(_) ==> after.spec_parsed() matches Some(t) && parser.ensures(
            (&before.spec_source(),),
            Ok(t),
        )
        &&& r matches Err(e) ==> e == PolicyError::PipelineSyntaxError && after.spec_parsed() is None
            && exists|pe: E| parser.ensures((&before.spec_source(),), Err(pe))
    }
}

/// Parsing twice is parsing once: after a call of `parse` that succeeded, a
/// second call, with any parser, succeeds and leaves the pipeline, its cached
/// tree included, exactly as the first call left it.
pub proof fn lemma_parse_idempotent<A, E1, F1, E2, F2>(
    p0: Pipeline<A>,
    p1: Pipeline<A>,
    p2: Pipeline<A>,
    r1: Result<(), PolicyError>,
    r2: Result<(), PolicyError>,
    first: F1,
    second: F2,
)
    where
        F1: FnOnce(&String) -> Result<A, E1>,
        F2: FnOnce(&String) -> Result<A, E2>,
    requires
        parse_outcome(p0, p1, r1, first),
        parse_outcome(p1, p2, r2, second),
        r1 is Ok,
    ensures
        r2 is Ok,
        p2 == p1,
        p2.spec_parsed() is Some,
        p2.spec_parsed() == p1.spec_parsed(),
{
}

impl<A> Pipeline<A> {
    /// The pipeline's name.
    pub closed spec fn spec_name(&self) -> Seq<char> {
        self.name@
    }

    /// The script text.
    pub closed spec fn spec_source(&self) -> String {
        self.preparsed_pipeline
    }

    /// The cached tree, if the pipeline is parsed.
    pub closed spec fn spec_parsed(&self) -> Option<A> {
        match self.parsed_pipeline {
            Some(b) => Some(*b),
            None => None,
        }
    }

    /// The pipeline's id.
    pub closed spec fn spec_id(&self) -> u32 {
        self.id
    }

    /// The pipeline's file rights, in policy order.
    pub closed spec fn spec_file_rights(&self) -> Seq<FileRights> {
        self.file_rights@
    }

    /// Creates a pipeline and parses its script at once. A script that does
    /// not parse fails the whole construction.
    pub fn new<E, F>(
        name: String,
        id: u32,
        preparsed_pipeline: String,
        file_rights: Vec<FileRights>,
        parser: F,
    ) -> (r: Result<Pipeline<A>, PolicyError>)
        where
            F: FnOnce(&String) -> Result<A, E>,
        requires
            forall|s: &String| parser.requires((s,)),
        ensures
            r matches Ok(p) ==> {
                &&& p.spec_name() == name@
                &&& p.spec_id() == id
                &&& p.spec_source() == preparsed_pipeline
                &&& p.spec_file_rights() == file_rights@
                &&& p.spec_parsed() matches Some(t) && parser.ensures((&preparsed_pipeline,), Ok(t))
            },
            r matches Err(e) ==> {
                &&& e == PolicyError::PipelineSyntaxError
                &&& exists|pe: E| parser.ensures((&preparsed_pipeline,), Err(pe))
            },
    {
        match parser(&preparsed_pipeline) {
            Ok(tree) => Ok(Pipeline {
                name,
                preparsed_pipeline,
                parsed_pipeline: Some(Box::new(tree)),
                id,
                file_rights,
            }),
            Err(_) => Err(PolicyError::PipelineSyntaxError),
        }
    }

    /// Creates an unparsed pipeline, as one read back from storage is: its
    /// tree must be computed by `parse` before first use.
    pub fn new_unparsed(
        name: String,
        id: u32,
        preparsed_pipeline: String,
        file_rights: Vec<FileRights>,
    ) -> (r: Pipeline<A>)
        ensures
            r.spec_name() == name@,
            r.spec_id() == id,
            r.spec_source() == preparsed_pipeline,
            r.spec_file_rights() == file_rights@,
            r.spec_parsed() is None,
    {
        Pipeline { name, preparsed_pipeline, parsed_pipeline: None, id, file_rights }
    }

    /// Parses the script unless a tree is cached already. On a parsed pipeline
    /// this succeeds and changes nothing, and the parser is not called. On a
    /// script that does not parse the pipeline is left unparsed.
    pub fn parse<E, F>(&mut self, parser: F) -> (r: Result<(), PolicyError>)
        where
            F: FnOnce(&String) -> Result<A, E>,
        requires
            forall|s: &String| parser.requires((s,)),
        ensures
            parse_outcome(*old(self), *final(self), r, parser),
    {
        if self.parsed_pipeline.is_none() {
            match parser(&self.preparsed_pipeline) {
                Ok(tree) => {
                    self.parsed_pipeline = Some(Box::new(tree));
                },
                Err(_) => {
                    return Err(PolicyError::PipelineSyntaxError);
                },
            }
        }
        Ok(())
    }

    /// Whether the tree is cached.
    pub fn is_parsed(&self) -> (r: bool)
        ensures
            r == self.spec_parsed() is Some,
    {
        self.parsed_pipeline.is_some()
    }

    /// Returns the pipeline's name.
    pub fn name(&self) -> (r: &str)
        ensures
            r@ == self.spec_name(),
    {
        self.name.as_str()
    }

    /// Returns the pipeline's id.
    pub fn id(&self) -> (r: u32)
        ensures
            r == self.spec_id(),
    {
        self.id
    }

    /// Returns the script text.
    pub fn preparsed_pipeline(&self) -> (r: &str)
        ensures
            r@ == self.spec_source()@,
    {
        self.preparsed_pipeline.as_str()
    }

    /// Returns the pipeline's file rights.
    pub fn file_rights(&self) -> (r: &Vec<FileRights>)
        ensures
            r@ == self.spec_file_rights(),
    {
        &self.file_rights
    }

    /// The pipeline's rights, keyed by file name; the last entry of a name wins.
    pub fn file_rights_map(&self) -> (r: RightsMap)
        ensures
            r@ == rights_map_of(self.spec_file_rights()),
    {
        FileRights::compute_right_map(self.file_rights.as_slice())
    }

    /// Returns the cached tree. Reading an unparsed pipeline fails: it never
    /// parses on its own.
    pub fn get_parsed_pipeline(&self) -> (r: Result<&Box<A>, PolicyError>)
        ensures
            self.spec_parsed() is None <==> r is Err,
            r matches Err(e) ==> e == PolicyError::PipelineNotParsed,
            r matches Ok(t) ==> self.spec_parsed() == Some(**t),
    {
        match &self.parsed_pipeline {
            Some(tree) => Ok(tree),
            None => Err(PolicyError::PipelineNotParsed),
        }
    }
}

} // verus!
