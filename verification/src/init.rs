//! The checks `whisphub init` makes on what the user typed, and the settings
//! it keeps from the created project.

use vstd::prelude::*;
use crate::api::ProjectSummary;
use crate::project::ProjectConfig;
use crate::text::{blank, trim, trimmed};

verus! {

/// Why `whisphub init` stops.
#[derive(Debug, PartialEq, Eq, Structural)]
pub enum InitError {
    /// The user chose not to overwrite an existing `.whisphub.toml`.
    Cancelled,
    /// The title is empty once trimmed.
    EmptyTitle,
    /// The slug is empty once trimmed.
    EmptySlug,
}

/// Whether init may go on: when a settings file already exists, only if the
/// user agreed to overwrite it.
pub fn check_overwrite(config_exists: bool, overwrite_confirmed: bool) -> (r: Result<(), InitError>)
    ensures
        r is Ok <==> (!config_exists || overwrite_confirmed),
        r matches Err(e) ==> e == InitError::Cancelled,
{
    if config_exists && !overwrite_confirmed {
        Err(InitError::Cancelled)
    } else {
        Ok(())
    }
}

/// The project title: the input trimmed, which may not be empty.
pub fn clean_title(raw: &str) -> (r: Result<String, InitError>)
    ensures
        match r {
            Ok(t) => t@ == trimmed(raw@) && t@.len() > 0,
            Err(e) => e == InitError::EmptyTitle && trimmed(raw@).len() == 0,
        },
{
    let t = trim(raw);
    if t.as_str().is_empty() {
        Err(InitError::EmptyTitle)
    } else {
        Ok(t)
    }
}

/// The project slug: the input trimmed, which may not be empty.
pub fn clean_slug(raw: &str) -> (r: Result<String, InitError>)
    ensures
        match r {
            Ok(s) => s@ == trimmed(raw@) && s@.len() > 0,
            Err(e) => e == InitError::EmptySlug && trimmed(raw@).len() == 0,
        },
{
    let s = trim(raw);
    if s.as_str().is_empty() {
        Err(InitError::EmptySlug)
    } else {
        Ok(s)
    }
}

/// The tagline typed at the prompt: none when it is blank, else the input as
/// typed.
pub fn tagline_from_input(input: String) -> (r: Option<String>)
    ensures
        blank(input@) ==> r is None,
        !blank(input@) ==> (r matches Some(t) && t@ == input@),
{
    let t = trim(input.as_str());
    if t.as_str().is_empty() {
        None
    } else {
        Some(input)
    }
}

/// The settings kept for a newly created project: its id, its author and its
/// slug, as the server reported them.
pub fn project_config_from(summary: &ProjectSummary) -> (c: ProjectConfig)
    ensures
        c.project_id@ == summary.id@,
        c.username@ == summary.author_username@,
        c.slug@ == summary.slug@,
{
    ProjectConfig {
        project_id: summary.id.clone(),
        username: summary.author_username.clone(),
        slug: summary.slug.clone(),
    }
}

} // verus!
