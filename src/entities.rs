//! Capability-bearing entities: programs and native modules, and the
//! expected hash of a provisioned file.

use vstd::prelude::*;

use crate::file_rights::{rights_map_of, FileRights, RightsMap};

verus! {

/// A WASM program that the execution engine can load, with the rights it
/// holds over files.
#[derive(Clone, Debug)]
pub struct Program {
    program_file_name: String,
    id: u32,
    file_rights: Vec<FileRights>,
}

impl Program {
    /// The program's file name.
    pub closed spec fn spec_program_file_name(&self) -> Seq<char> {
        self.program_file_name@
    }

    /// The program's id.
    pub closed spec fn spec_id(&self) -> u32 {
        self.id
    }

    /// The program's file rights, in policy order.
    pub closed spec fn spec_file_rights(&self) -> Seq<FileRights> {
        self.file_rights@
    }

    /// Creates a program. The id is the caller's to keep unique.
    pub fn new(program_file_name: String, id: u32, file_rights: Vec<FileRights>) -> (r: Program)
        ensures
            r.spec_program_file_name() == program_file_name@,
            r.spec_id() == id,
            r.spec_file_rights() == file_rights@,
    {
        Program { program_file_name, id, file_rights }
    }

    /// Returns the program's file name.
    pub fn program_file_name(&self) -> (r: &str)
        ensures
            r@ == self.spec_program_file_name(),
    {
        self.program_file_name.as_str()
    }

    /// Returns the program's id.
    pub fn id(&self) -> (r: u32)
        ensures
            r == self.spec_id(),
    {
        self.id
    }

    /// Returns the program's file rights.
    pub fn file_rights(&self) -> (r: &Vec<FileRights>)
        ensures
            r@ == self.spec_file_rights(),
    {
        &self.file_rights
    }

    /// The program's rights, keyed by file name; the last entry of a name wins.
    pub fn file_rights_map(&self) -> (r: RightsMap)
        ensures
            r@ == rights_map_of(self.spec_file_rights()),
    {
        FileRights::compute_right_map(self.file_rights.as_slice())
    }
}

/// A native helper module. An empty entry point marks a static module, built
/// into the runtime and found by name; any other entry point is the path of
/// the separate executable of a dynamic module.
#[derive(Clone, Debug)]
pub struct NativeModule {
    name: String,
    entry_point_path: String,
    special_file_path: String,
    id: u32,
}

/// How a native module is rendered for tracing: its name, its special file,
/// and its entry point, or the word `static` where it has none.
pub open spec fn module_description(name: Seq<char>, special_file: Seq<char>, entry_point: Seq<char>) -> Seq<char> {
    "\""@ + name + "\" special_file=\""@ + special_file + "\" entry_point="@ + if entry_point.len() == 0 {
        "static"@
    } else {
        "\""@ + entry_point + "\""@
    }
}

impl NativeModule {
    /// The module's name.
    pub closed spec fn spec_name(&self) -> Seq<char> {
        self.name@
    }

    /// The module's entry point, empty for a static module.
    pub closed spec fn spec_entry_point_path(&self) -> Seq<char> {
        self.entry_point_path@
    }

    /// The path of the file whose writes trigger the module.
    pub closed spec fn spec_special_file_path(&self) -> Seq<char> {
        self.special_file_path@
    }

    /// The module's id.
    pub closed spec fn spec_id(&self) -> u32 {
        self.id
    }

    /// Creates a native module.
    pub fn new(name: String, entry_point_path: String, special_file_path: String, id: u32) -> (r: NativeModule)
        ensures
            r.spec_name() == name@,
            r.spec_entry_point_path() == entry_point_path@,
            r.spec_special_file_path() == special_file_path@,
            r.spec_id() == id,
    {
        NativeModule { name, entry_point_path, special_file_path, id }
    }

    /// Returns the module's name.
    pub fn name(&self) -> (r: &str)
        ensures
            r@ == self.spec_name(),
    {
        self.name.as_str()
    }

    /// Returns the module's entry point.
    pub fn entry_point_path(&self) -> (r: &str)
        ensures
            r@ == self.spec_entry_point_path(),
    {
        self.entry_point_path.as_str()
    }

    /// Returns the path of the module's special file.
    pub fn special_file_path(&self) -> (r: &str)
        ensures
            r@ == self.spec_special_file_path(),
    {
        self.special_file_path.as_str()
    }

    /// Returns the module's id.
    pub fn id(&self) -> (r: u32)
        ensures
            r == self.spec_id(),
    {
        self.id
    }

    /// Whether the module is static, that is, its entry point is empty.
    pub fn is_static(&self) -> (r: bool)
        ensures
            r == (self.spec_entry_point_path().len() == 0),
    {
        self.entry_point_path.as_str().is_empty()
    }

    /// A one-line rendering for traces, which shows the entry point of a
    /// dynamic module only.
    pub fn describe(&self) -> (r: String)
        ensures
            r@ == module_description(self.spec_name(), self.spec_special_file_path(), self.spec_entry_point_path()),
    {
        let mut out = String::from_str("\"");
        out.append(self.name.as_str());
        out.append("\" special_file=\"");
        out.append(self.special_file_path.as_str());
        out.append("\" entry_point=");
        if self.is_static() {
            out.append("static");
        } else {
            out.append("\"");
            out.append(self.entry_point_path.as_str());
            out.append("\"");
        }
        proof {
            assert(out@ =~= module_description(self.spec_name(), self.spec_special_file_path(), self.spec_entry_point_path()));
        }
        out
    }
}

/// A file and the hash its contents are expected to have.
#[derive(Clone, Debug)]
pub struct FileHash {
    file_path: String,
    hash: String,
}

impl FileHash {
    /// The file's path.
    pub closed spec fn spec_file_path(&self) -> Seq<char> {
        self.file_path@
    }

    /// The expected hash.
    pub closed spec fn spec_hash(&self) -> Seq<char> {
        self.hash@
    }

    /// Creates a file hash.
    pub fn new(file_path: String, hash: String) -> (r: FileHash)
        ensures
            r.spec_file_path() == file_path@,
            r.spec_hash() == hash@,
    {
        FileHash { file_path, hash }
    }

    /// Returns the file's path.
    pub fn file_path(&self) -> (r: &str)
        ensures
            r@ == self.spec_file_path(),
    {
        self.file_path.as_str()
    }

    /// Returns the expected hash.
    pub fn hash(&self) -> (r: &str)
        ensures
            r@ == self.spec_hash(),
    {
        self.hash.as_str()
    }
}

} // verus!
