//! The decisions of the upward searches for the fleet registry file and the fleet
//! root. The caller walks from the working directory towards the filesystem root,
//! reports what each directory holds, and acts on the step returned.

use vstd::prelude::*;

verus! {

/// Which registry file a directory offers.
#[derive(PartialEq, Eq, Structural, Clone, Copy, Debug)]
pub enum RegistryFile {
    /// `Systems/Runtimes/control-plane.json` below the directory.
    Nested,
    /// `control-plane.json` in the directory itself, which is a `Runtimes` directory.
    Local,
}

/// The registry file to take from one directory of the upward search: the nested
/// one when it exists, else the local one when it exists and the directory is
/// named `Runtimes`; `None` means go up one level.
pub fn registry_step(nested_exists: bool, local_exists: bool, dir_is_runtimes: bool) -> (r: Option<RegistryFile>)
    ensures
        r == (if nested_exists {
            Some(RegistryFile::Nested)
        } else if local_exists && dir_is_runtimes {
            Some(RegistryFile::Local)
        } else {
            None
        }),
{
    if nested_exists {
        Some(RegistryFile::Nested)
    } else if local_exists && dir_is_runtimes {
        Some(RegistryFile::Local)
    } else {
        None
    }
}

/// Whether a directory of the upward search is the fleet root: it holds both a
/// `Systems/Runtimes` directory and a `Products` directory.
pub fn is_fleet_root(has_systems_runtimes: bool, has_products: bool) -> (r: bool)
    ensures
        r == (has_systems_runtimes && has_products),
{
    has_systems_runtimes && has_products
}

/// The error for a registry path override that names no file.
pub fn missing_override_message(path: &str) -> (r: String)
    ensures
        r@ == "S2_CONTROL_PLANE_PATH="@ + path@ + " does not exist"@,
{
    let mut out = "S2_CONTROL_PLANE_PATH=".to_owned();
    out.append(path);
    out.append(" does not exist");
    out
}

} // verus!
