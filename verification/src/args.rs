//! Configuration data for the multi-project mode: the single-project
//! command-line flags, one configured project, and the resolved configuration.

use vstd::prelude::*;

verus! {

/// The single-project command-line flags: one release target given entirely on
/// the command line.
#[derive(Debug)]
pub struct Cli {
    pub private_token: String,
    pub project_id: String,
    pub base_branch: String,
    pub target_branch: String,
    pub gitlab_url: String,
}

impl Clone for Cli {
    fn clone(&self) -> (r: Self)
        ensures
            r == *self,
    {
        Cli {
            private_token: self.private_token.clone(),
            project_id: self.project_id.clone(),
            base_branch: self.base_branch.clone(),
            target_branch: self.target_branch.clone(),
            gitlab_url: self.gitlab_url.clone(),
        }
    }
}

/// One release target: which project, which branch to cut from, and the name
/// of the branch to cut.
#[derive(Debug, PartialEq, Eq)]
pub struct Project {
    pub project_id: String,
    pub base_branch: String,
    pub target_branch: String,
}

impl Clone for Project {
    fn clone(&self) -> (r: Self)
        ensures
            r == *self,
    {
        Project {
            project_id: self.project_id.clone(),
            base_branch: self.base_branch.clone(),
            target_branch: self.target_branch.clone(),
        }
    }
}

/// The resolved configuration: credentials, the instance URL, and the release
/// targets to process.
#[derive(Debug)]
pub struct Config {
    pub private_token: String,
    pub gitlab_url: String,
    pub projects: Vec<Project>,
}

impl Clone for Config {
    fn clone(&self) -> (r: Self)
        ensures
            r.private_token == self.private_token,
            r.gitlab_url == self.gitlab_url,
            r.projects@ == self.projects@,
    {
        let projects = self.projects.clone();
        proof {
            assert(projects@ =~= self.projects@);
        }
        Config {
            private_token: self.private_token.clone(),
            gitlab_url: self.gitlab_url.clone(),
            projects,
        }
    }
}

} // verus!
