//! Decisions behind starting a Nitro enclave; the process and socket work
//! that carries them out lies outside the library.

use vstd::prelude::*;

verus! {

/// Errors of the Nitro enclave components.
#[derive(Clone, Copy, Debug, PartialEq, Eq, Structural, Hash)]
pub enum NitroError {
    /// An error occurred while serializing or deserializing.
    SerdeError,
}

/// Where the Nitro command-line tool is installed: under `/usr/sbin` on some
/// machine images, under `/usr/bin` on the others.
pub fn nitro_cli_path(nitro_sbin: bool) -> (r: &'static str)
    ensures
        nitro_sbin ==> r@ == "/usr/sbin/nitro-cli"@,
        !nitro_sbin ==> r@ == "/usr/bin/nitro-cli"@,
{
    if nitro_sbin {
        "/usr/sbin/nitro-cli"
    } else {
        "/usr/bin/nitro-cli"
    }
}

} // verus!
