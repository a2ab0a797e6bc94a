//! The folders by which access to the whole disk is told.

use vstd::prelude::*;
use vstd::string::StringExecFns;

verus! {

/// A folder of the system that only a program with access to the whole
/// disk can list.
pub const SYSTEM_PROBE: &'static str = "/Library/Application Support/com.apple.TCC";

/// A folder below the user's home that only a program with access to the
/// whole disk can list.
pub const HOME_PROBE: &'static str = "/Library/Safari";

/// The folders to try, in order, for a user whose home is `home`.
pub open spec fn probe_paths(home: Seq<char>) -> Seq<Seq<char>> {
    seq![SYSTEM_PROBE@, home + HOME_PROBE@]
}

/// The folders to try, in order: access to the whole disk is granted if one
/// of them is a folder that can be listed.
pub fn full_disk_probe_paths(home: &str) -> (paths: Vec<String>)
    ensures
        paths.deep_view() == probe_paths(home@),
{
    let mut in_home = String::from_str(home);
    in_home.append(HOME_PROBE);
    let mut paths: Vec<String> = Vec::new();
    paths.push(String::from_str(SYSTEM_PROBE));
    paths.push(in_home);
    paths
}

} // verus!
