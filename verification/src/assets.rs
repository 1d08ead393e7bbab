//! Planning for the sandbox materializer. The asset bundle — an
//! interpreter binary, the renderer and its support files — is a list of
//! entries keyed by relative path. Extracting it into a sandbox directory
//! means writing each entry to `sandbox/relative_path` and restoring the
//! executable bit on the two binaries; this module computes that plan as
//! pure, verified logic, while the caller performs the filesystem writes.

use vstd::prelude::*;
use crate::paths::{join_path, spec_join, str_ends_with, spec_ends_with};
use crate::classifier::str_eq;

verus! {

/// One file of the embedded asset bundle: a relative path and its bytes.
pub struct AssetEntry {
    pub rel_path: String,
    pub data: Vec<u8>,
}

/// One planned write: the entry to copy, the absolute destination path,
/// and whether the destination must be marked executable.
pub struct ExtractStep {
    pub entry_index: usize,
    pub dest_path: String,
    pub make_executable: bool,
}

/// The interpreter binary sits at the bundle root under this name.
pub fn interpreter_file_name() -> (r: &'static str)
    ensures
        r@ == "node"@,
{
    "node"
}

/// The renderer executable's file name, used as a suffix test because it
/// sits below a dependency directory inside the bundle.
pub fn renderer_binary_suffix() -> (r: &'static str)
    ensures
        r@ == "mmdc"@,
{
    "mmdc"
}

/// The renderer executable's full relative path inside the bundle.
pub fn renderer_binary_path() -> (r: &'static str)
    ensures
        r@ == "node_modules/.bin/mmdc"@,
{
    "node_modules/.bin/mmdc"
}

/// An entry needs the executable bit exactly when it is the interpreter
/// binary at the bundle root or the renderer executable.
pub open spec fn spec_needs_exec(rel_path: Seq<char>) -> bool {
    rel_path == "node"@ || spec_ends_with(rel_path, "mmdc"@)
}

/// Executable test for [`spec_needs_exec`].
pub fn needs_exec_bit(rel_path: &str) -> (r: bool)
    ensures
        r == spec_needs_exec(rel_path@),
{
    str_eq(rel_path, "node") || str_ends_with(rel_path, "mmdc")
}

/// Computes the extraction plan for the whole bundle: one step per entry,
/// in bundle order, each writing to `dest_dir/rel_path`, with the
/// executable bit restored exactly on the interpreter and the renderer.
pub fn plan_extraction(entries: &Vec<AssetEntry>, dest_dir: &str) -> (plan: Vec<ExtractStep>)
    ensures
        plan@.len() == entries@.len(),
        forall|i: int|
            0 <= i < plan@.len() ==> {
                &&& (#[trigger] plan@[i]).entry_index == i
                &&& plan@[i].dest_path@ == spec_join(dest_dir@, entries@[i].rel_path@)
                &&& plan@[i].make_executable == spec_needs_exec(entries@[i].rel_path@)
            },
{
    let mut plan: Vec<ExtractStep> = Vec::new();
    let mut idx: usize = 0;
    while idx < entries.len()
        invariant
            0 <= idx <= entries@.len(),
            plan@.len() == idx,
            forall|i: int|
                0 <= i < idx ==> {
                    &&& (#[trigger] plan@[i]).entry_index == i
                    &&& plan@[i].dest_path@ == spec_join(dest_dir@, entries@[i].rel_path@)
                    &&& plan@[i].make_executable == spec_needs_exec(entries@[i].rel_path@)
                },
        decreases entries@.len() - idx,
    {
        let entry = &entries[idx];
        let step = ExtractStep {
            entry_index: idx,
            dest_path: join_path(dest_dir, entry.rel_path.as_str()),
            make_executable: needs_exec_bit(entry.rel_path.as_str()),
        };
        plan.push(step);
        idx += 1;
    }
    plan
}

} // verus!
