//! Rules for launching several copies of a game directly: the working
//! directory and environment of each copy, how a failed Proton lookup is
//! reported, and which executables are accepted. Spawning the processes happens outside the library.

use vstd::prelude::*;
use crate::proton_integration::ProtonError;
use crate::errors::HydraError;
use crate::text::{concat, decimal, owned, with_number};

verus! {

/// A failure while launching game instances.
#[derive(Debug)]
pub enum InstanceManagerError {
    IoError(std::io::Error),
    ProtonError(ProtonError),
    GenericError(String),
    ProtonPathNotFound,
    WindowsBinaryCheckError(ProtonError),
}

impl From<std::io::Error> for InstanceManagerError {
    fn from(err: std::io::Error) -> (r: Self) {
        InstanceManagerError::IoError(err)
    }
}

impl vstd::std_specs::convert::FromSpecImpl<std::io::Error> for InstanceManagerError {
    open spec fn obeys_from_spec() -> bool {
        true
    }

    open spec fn from_spec(v: std::io::Error) -> Self {
        InstanceManagerError::IoError(v)
    }
}

impl From<ProtonError> for InstanceManagerError {
    fn from(err: ProtonError) -> (r: Self) {
        InstanceManagerError::ProtonError(err)
    }
}

impl vstd::std_specs::convert::FromSpecImpl<ProtonError> for InstanceManagerError {
    open spec fn obeys_from_spec() -> bool {
        true
    }

    open spec fn from_spec(v: ProtonError) -> Self {
        InstanceManagerError::ProtonError(v)
    }
}

/// The error reported when looking Proton up failed: a Proton that was not
/// found is reported as such, any other failure is passed on.
pub fn proton_lookup_failure(e: ProtonError) -> (r: InstanceManagerError)
    ensures
        match e {
            ProtonError::ProtonNotFound(_) => r is ProtonPathNotFound,
            _ => r == InstanceManagerError::ProtonError(e),
        },
{
    match e {
        ProtonError::ProtonNotFound(_) => InstanceManagerError::ProtonPathNotFound,
        other => InstanceManagerError::ProtonError(other),
    }
}

/// The working directory (relative to the current one) of instance `i`:
/// "instance_" followed by `i`.
pub fn instance_dir_name(i: usize) -> (r: String)
    ensures
        r@ == "instance_"@ + decimal(i as nat),
{
    with_number("instance_", i as u64)
}

/// The environment variables given to instance `i`, in the order they are
/// set: a natively launched instance gets `HYDRA_INSTANCE_PORT` = "808"
/// followed by `i`, and every instance gets `HYDRA_INSTANCE_INDEX` = `i`.
pub fn instance_environment(i: usize, native: bool) -> (env: Vec<(String, String)>)
    ensures
        native ==> env@.len() == 2
            && env@[0].0@ == "HYDRA_INSTANCE_PORT"@
            && env@[0].1@ == "808"@ + decimal(i as nat)
            && env@[1].0@ == "HYDRA_INSTANCE_INDEX"@
            && env@[1].1@ == decimal(i as nat),
        !native ==> env@.len() == 1
            && env@[0].0@ == "HYDRA_INSTANCE_INDEX"@
            && env@[0].1@ == decimal(i as nat),
{
    let mut env: Vec<(String, String)> = Vec::new();
    if native {
        env.push((owned("HYDRA_INSTANCE_PORT"), with_number("808", i as u64)));
    }
    let index = with_number("", i as u64);
    proof {
        reveal_strlit("");
        assert(""@ + decimal(i as nat) =~= decimal(i as nat));
    }
    env.push((owned("HYDRA_INSTANCE_INDEX"), index));
    env
}

/// Checks an executable from what the filesystem says of it: it must
/// exist, be a file, and have an execute permission bit, checked in that
/// order; `path` is the path as displayed in the error.
pub fn check_executable(path: &str, exists: bool, is_file: bool, executable: bool) -> (r: Result<(), HydraError>)
    ensures
        !exists ==> (r matches Err(HydraError::Validation(m)) && m@ == "Executable not found: "@ + path@),
        exists && !is_file ==> (r matches Err(HydraError::Validation(m)) && m@ == "Path is not a file: "@ + path@),
        exists && is_file && !executable ==> (r matches Err(HydraError::Validation(m)) && m@
            == "File is not executable: "@ + path@),
        exists && is_file && executable ==> r is Ok,
{
    if !exists {
        return Err(HydraError::validation(concat("Executable not found: ", path)));
    }
    if !is_file {
        return Err(HydraError::validation(concat("Path is not a file: ", path)));
    }
    if !executable {
        return Err(HydraError::validation(concat("File is not executable: ", path)));
    }
    Ok(())
}

} // verus!
