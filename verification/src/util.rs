//! Configuration resolution and the status-only response classifier.

use vstd::prelude::*;

use crate::args::Cli;
use crate::args::Config;
use crate::args::Project;
use crate::cli::CliError;
use crate::cli::HttpError;

verus! {

/// Why no configuration could be resolved: the file was not there, or it did
/// not parse.
#[derive(Debug, Clone, Copy, PartialEq, Eq, Structural)]
pub enum ConfigError {
    MissingFile,
    InvalidFile,
}

/// The status-only classification: which statuses succeed, and the coarse
/// error class of each failing one.
pub open spec fn spec_status_outcome(status: u16) -> Result<(), CliError> {
    if status == 200 || status == 201 {
        Ok(())
    } else if status == 400 {
        Err(CliError::HTTPError(HttpError::Validation))
    } else if status == 401 || status == 403 {
        Err(CliError::HTTPError(HttpError::Auth))
    } else if status == 404 {
        Err(CliError::HTTPError(HttpError::NotFound))
    } else if status == 500 {
        Err(CliError::HTTPError(HttpError::Server))
    } else {
        Err(CliError::HTTPError(HttpError::Unexpected))
    }
}

/// Classifies a response by its status code alone; the mapping is total.
pub fn handle_response_status(status: u16) -> (r: Result<(), CliError>)
    ensures
        r == spec_status_outcome(status),
{
    if status == 200 || status == 201 {
        Ok(())
    } else if status == 400 {
        Err(CliError::HTTPError(HttpError::Validation))
    } else if status == 401 || status == 403 {
        Err(CliError::HTTPError(HttpError::Auth))
    } else if status == 404 {
        Err(CliError::HTTPError(HttpError::NotFound))
    } else if status == 500 {
        Err(CliError::HTTPError(HttpError::Server))
    } else {
        Err(CliError::HTTPError(HttpError::Unexpected))
    }
}

/// The projects standing at selected positions among the first n, in their
/// original order.
pub open spec fn spec_selected_prefix(projects: Seq<Project>, selected: Seq<usize>, n: int) -> Seq<
    Project,
>
    decreases n,
{
    if n <= 0 {
        Seq::empty()
    } else if selected.contains((n - 1) as usize) {
        spec_selected_prefix(projects, selected, n - 1).push(projects[n - 1])
    } else {
        spec_selected_prefix(projects, selected, n - 1)
    }
}

/// What a selection keeps: everything when none was made, else the projects at
/// the chosen positions, in order.
pub open spec fn spec_select_projects(projects: Seq<Project>, selected: Option<Seq<usize>>) -> Seq<
    Project,
> {
    match selected {
        None => projects,
        Some(sel) => spec_selected_prefix(projects, sel, projects.len() as int),
    }
}

/// The mathematical value of an optional list of positions.
pub open spec fn opt_indexes_view(selected: Option<Vec<usize>>) -> Option<Seq<usize>> {
    match selected {
        Some(v) => Some(v@),
        None => None,
    }
}

fn contains_index(selected: &Vec<usize>, i: usize) -> (r: bool)
    ensures
        r == selected@.contains(i),
{
    let mut j: usize = 0;
    while j < selected.len()
        invariant
            j <= selected@.len(),
            forall|k: int| 0 <= k < j ==> selected@[k] != i,
        decreases selected@.len() - j,
    {
        if selected[j] == i {
            return true;
        }
        j = j + 1;
    }
    false
}

/// Keeps the projects a selection chose: all of them when no selection was
/// made, else exactly those at the selected positions, in their original
/// order.
pub fn select_projects(projects: Vec<Project>, selected: Option<Vec<usize>>) -> (r: Vec<Project>)
    ensures
        r@ == spec_select_projects(projects@, opt_indexes_view(selected)),
{
    match selected {
        None => projects,
        Some(sel) => {
            let mut kept: Vec<Project> = Vec::new();
            let mut i: usize = 0;
            while i < projects.len()
                invariant
                    i <= projects@.len(),
                    kept@ == spec_selected_prefix(projects@, sel@, i as int),
                decreases projects@.len() - i,
            {
                if contains_index(&sel, i) {
                    let p = projects[i].clone();
                    kept.push(p);
                }
                i = i + 1;
            }
            kept
        },
    }
}

/// Resolves the run's configuration. Command-line flags, when given, name the
/// one release target and win outright; otherwise the configuration file is
/// the source, thinned to the selected projects. With neither, the file's
/// error stands.
pub fn build_config(
    cli: Option<Cli>,
    file: Result<Config, ConfigError>,
    selected: Option<Vec<usize>>,
) -> (r: Result<Config, ConfigError>)
    ensures
        cli matches Some(c) ==> r matches Ok(cfg) && cfg.private_token == c.private_token
            && cfg.gitlab_url == c.gitlab_url && cfg.projects@.len() == 1 && cfg.projects@[0] == (
        Project {
            project_id: c.project_id,
            base_branch: c.base_branch,
            target_branch: c.target_branch,
        }),
        cli is None ==> match file {
            Ok(f) => r matches Ok(cfg) && cfg.private_token == f.private_token && cfg.gitlab_url
                == f.gitlab_url && cfg.projects@ == spec_select_projects(
                f.projects@,
                opt_indexes_view(selected),
            ),
            Err(e) => r == Err::<Config, ConfigError>(e),
        },
{
    match cli {
        Some(c) => {
            let mut projects: Vec<Project> = Vec::new();
            projects.push(
                Project {
                    project_id: c.project_id,
                    base_branch: c.base_branch,
                    target_branch: c.target_branch,
                },
            );
            Ok(Config { private_token: c.private_token, gitlab_url: c.gitlab_url, projects })
        },
        None => match file {
            Ok(f) => {
                let Config { private_token, gitlab_url, projects } = f;
                Ok(
                    Config {
                        private_token,
                        gitlab_url,
                        projects: select_projects(projects, selected),
                    },
                )
            },
            Err(e) => Err(e),
        },
    }
}

proof fn lemma_selected_prefix_subset(projects: Seq<Project>, selected: Seq<usize>, n: int)
    requires
        n <= projects.len(),
    ensures
        spec_selected_prefix(projects, selected, n).len() <= (if n >= 0 {
            n
        } else {
            0
        }),
        forall|i: int|
            0 <= i < spec_selected_prefix(projects, selected, n).len() ==> projects.contains(
                #[trigger] spec_selected_prefix(projects, selected, n)[i],
            ),
    decreases n,
{
    if n > 0 {
        lemma_selected_prefix_subset(projects, selected, n - 1);
    }
}

/// A selection never invents a project: whatever it keeps stands in the
/// configured list, and no more projects come out than went in.
pub proof fn lemma_select_projects_subset(projects: Seq<Project>, selected: Option<Seq<usize>>)
    ensures
        spec_select_projects(projects, selected).len() <= projects.len(),
        forall|i: int|
            0 <= i < spec_select_projects(projects, selected).len() ==> projects.contains(
                #[trigger] spec_select_projects(projects, selected)[i],
            ),
{
    match selected {
        None => {
            assert forall|i: int|
                0 <= i < spec_select_projects(projects, selected).len() implies projects.contains(
                #[trigger] spec_select_projects(projects, selected)[i],
            ) by {
                assert(projects[i] == projects[i]);
            }
        },
        Some(sel) => {
            lemma_selected_prefix_subset(projects, sel, projects.len() as int);
        },
    }
}

} // verus!
