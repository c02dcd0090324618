//! The per-project settings file `.whisphub.toml` and the slug suggested for a
//! new project.

use vstd::prelude::*;
use vstd::string::StringExecFns;
use crate::paths::{file_name_of, final_component, join_path, joined_in, portable_path, PathStyle};
pub use crate::slug::slugify;
use crate::slug::spec_slugify;

verus! {

/// The settings that `whisphub init` writes and `whisphub push` reads.
#[derive(Debug)]
pub struct ProjectConfig {
    pub project_id: String,
    pub username: String,
    pub slug: String,
}

/// The name of the settings file, in the project's root directory.
pub const CONFIG_FILENAME: &'static str = ".whisphub.toml";

/// The comment lines written above the settings in `.whisphub.toml`.
pub const CONFIG_HEADER: &'static str = "# WhispHub project config \u{2014} do not edit manually.\n# Created by `whisphub init`, used by `whisphub push`.\n\n";

/// Errors of this module.
#[derive(Debug, PartialEq, Eq, Structural)]
pub enum ProjectError {
    /// The directory has no final name component to derive a slug from.
    NoDirectoryName,
}

/// The path of the settings file of the project rooted at `dir`, joined in
/// the platform's path style.
pub fn config_path(style: PathStyle, dir: &str) -> (r: String)
    ensures
        r@ == joined_in(style, dir@, CONFIG_FILENAME@),
{
    proof {
        reveal_strlit(".whisphub.toml");
    }
    join_path(style, dir, CONFIG_FILENAME)
}

/// The text of `.whisphub.toml`: the comment header followed by the serialized
/// settings.
pub fn config_file_text(serialized: &str) -> (r: String)
    ensures
        r@ == CONFIG_HEADER@ + serialized@,
{
    let mut r = String::from_str(CONFIG_HEADER);
    r.append(serialized);
    r
}

/// The slug suggested for a directory whose final name component is `name`:
/// the slug of that name, or an error when there is none.
pub fn slug_from_dir_name(name: Option<String>) -> (r: Result<String, ProjectError>)
    ensures
        match name {
            Some(n) => r matches Ok(s) && s@ == spec_slugify(n@),
            None => r == Err::<String, ProjectError>(ProjectError::NoDirectoryName),
        },
{
    match name {
        Some(n) => Ok(slugify(n.as_str())),
        None => Err(ProjectError::NoDirectoryName),
    }
}

/// Suggests a slug from the name of the directory `dir`: the slug of its final
/// path component. Which component that is follows the platform's path rules;
/// whatever it is, it is a non-empty piece of `dir`. For a `portable_path`
/// (drive paths such as `D:/projects/My App` included) the result is exact:
/// the slug of
/// `file_name_of(dir)`, or `NoDirectoryName` when there is no final name (`/`,
/// a path ending in `..`). The rules of `file_name_of` are spelled out in the
/// lemmas of `paths`: `dir/name` names `name`, a trailing `/` or `/.` changes
/// nothing, and `..`, `/`, `.` and the empty path name nothing.
pub fn suggest_slug_from_dir(dir: &str) -> (r: Result<String, ProjectError>)
    ensures
        portable_path(dir@) && file_name_of(dir@) is Some ==> r is Ok && r->Ok_0@ == spec_slugify(
            file_name_of(dir@)->0,
        ),
        portable_path(dir@) && file_name_of(dir@) is None ==> r == Err::<String, ProjectError>(
            ProjectError::NoDirectoryName,
        ),
        r matches Ok(s) ==> exists|i: int, j: int|
            0 <= i < j <= dir@.len() && s@ == #[trigger] spec_slugify(dir@.subrange(i, j)),
        r matches Err(e) ==> e == ProjectError::NoDirectoryName,
{
    let name = final_component(dir);
    let ghost found = name;
    let r = slug_from_dir_name(name);
    proof {
        if let Some(n) = found {
            let i = choose|i: int| 0 <= i && i + n@.len() <= dir@.len()
                && #[trigger] dir@.subrange(i, i + n@.len()) == n@;
            assert(spec_slugify(dir@.subrange(i, i + n@.len())) == spec_slugify(n@));
        }
    }
    r
}

} // verus!
