//! Paths on disk, held as text.
//!
//! Joining follows the rules of `std::path::PathBuf::push` on Unix: a component
//! that starts at the root replaces the path; otherwise it is appended, with a
//! separator unless the path is empty or already ends in one.

use vstd::prelude::*;

verus! {

/// The path `base` extended by `part`.
pub open spec fn joined(base: Seq<char>, part: Seq<char>) -> Seq<char> {
    if part.len() > 0 && part[0] == '/' {
        part
    } else if base.len() == 0 || base.last() == '/' {
        base + part
    } else {
        base + seq!['/'] + part
    }
}

/// Extends `base` by `part`, as `PathBuf::push` does.
pub fn join(base: &str, part: &str) -> (p: String)
    ensures
        p@ == joined(base@, part@),
{
    let plen = part.unicode_len();
    if plen > 0 && part.get_char(0) == '/' {
        return part.to_owned();
    }
    let blen = base.unicode_len();
    if blen == 0 || base.get_char(blen - 1) == '/' {
        base.to_owned().concat(part)
    } else {
        let sep = "/";
        proof {
            reveal_strlit("/");
        }
        base.to_owned().concat(sep).concat(part)
    }
}

/// Directories of a running Holodekk instance.
#[derive(Clone, Debug)]
pub struct HolodekkPaths {
    /// Root of persistent data
    pub data_root: String,
    /// Root of runtime state (pidfiles, sockets)
    pub exec_root: String,
    /// Directory holding the Holodekk binaries
    pub bin_root: String,
}

impl HolodekkPaths {
    /// Directory under which each scene keeps its runtime state.
    pub open spec fn scenes_root_spec(&self) -> Seq<char> {
        joined(self.exec_root@, "scenes"@)
    }

    /// Directory under which each projector keeps its runtime state.
    pub open spec fn projectors_root_spec(&self) -> Seq<char> {
        joined(self.exec_root@, "projectors"@)
    }

    /// Directory under which each scene keeps its runtime state.
    pub fn scenes_root(&self) -> (p: String)
        ensures
            p@ == self.scenes_root_spec(),
    {
        join(&self.exec_root, "scenes")
    }

    /// Directory under which each projector keeps its runtime state.
    pub fn projectors_root(&self) -> (p: String)
        ensures
            p@ == self.projectors_root_spec(),
    {
        join(&self.exec_root, "projectors")
    }
}

} // verus!
