//! Where profiles are kept.

use vstd::prelude::*;
use crate::paths::{global_file, join_path2, join_path3, project_file};

verus! {

pub fn global_policy_profiles_path(codex_home: &str) -> (r: String)
    ensures
        r@ == global_file(codex_home@, "policy_profiles.json"@),
{
    join_path2(codex_home, "printrevolt", "policy_profiles.json")
}

pub fn project_policy_profiles_path(project_root: &str) -> (r: String)
    ensures
        r@ == project_file(project_root@, "policy_profiles.json"@),
{
    join_path3(project_root, ".codex", "printrevolt", "policy_profiles.json")
}

pub fn global_guideline_profiles_path(codex_home: &str) -> (r: String)
    ensures
        r@ == global_file(codex_home@, "guideline_profiles.json"@),
{
    join_path2(codex_home, "printrevolt", "guideline_profiles.json")
}

pub fn project_guideline_profiles_path(project_root: &str) -> (r: String)
    ensures
        r@ == project_file(project_root@, "guideline_profiles.json"@),
{
    join_path3(project_root, ".codex", "printrevolt", "guideline_profiles.json")
}

} // verus!
