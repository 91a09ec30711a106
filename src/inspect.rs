//! Describing what kind of filesystem object a path names.
use vstd::prelude::*;

verus! {

/// What a path names, as reported to the user interface.
#[derive(Clone, Debug, PartialEq, Eq)]
pub struct PathKind {
    pub is_file: bool,
    pub is_directory: bool,
    pub path: String,
}

/// Describes `path` from what was observed about it; a path that does not
/// exist is an error.
pub fn check_path_type(path: String, exists: bool, is_file: bool, is_directory: bool) -> (r: Result<
    PathKind,
    String,
>)
    ensures
        exists <==> r is Ok,
        r matches Ok(k) ==> k.path@ == path@ && k.is_file == is_file && k.is_directory == is_directory,
        r matches Err(m) ==> m@ == "路径不存在"@,
{
    if !exists {
        return Err(String::from_str("路径不存在"));
    }
    Ok(PathKind { is_file, is_directory, path })
}

} // verus!
