//! The subcommand-driven command line: its data, and the decision of which API
//! call a parsed command line asks for.

use vstd::prelude::*;
use vstd::string::StringExecFns;

use crate::gitlab::CreateBranchArgs;
use crate::gitlab::CreateMergeRequestArgs;
use crate::gitlab::create_branch_endpoint;
use crate::gitlab::create_merge_request_endpoint;
use crate::gitlab::spec_branch_endpoint;
use crate::gitlab::spec_merge_request_endpoint;
use crate::http::Resource;

verus! {

/// The token value the parser fills in when none was given: never a real
/// token, so a run that still carries it must stop.
pub const INVALID_TOKEN_DEFAULT_VALUE: &'static str = "INVALID";

/// A parsed command line: one create action plus the shared connection flags.
#[derive(Debug)]
pub struct CmdArgs {
    pub action: ActionSubcommand,
    pub source: Source,
}

/// The top-level action.
#[derive(Debug)]
pub enum ActionSubcommand {
    Create(CreateSubCommand),
}

/// What to create.
#[derive(Debug)]
pub enum CreateSubCommand {
    Branch(Branch),
    MergeRequest(MergeRequest),
}

/// The shared connection flags: where the instance lives and how to
/// authenticate against it.
#[derive(Debug)]
pub struct Source {
    pub gitlab_url: String,
    pub access_token: String,
}

/// Flags for cutting a release branch: its name and the branch it cuts from.
#[derive(Debug)]
pub struct Branch {
    pub name: String,
    pub base: String,
    pub project: Project,
}

/// Flags for opening a release merge request.
#[derive(Debug)]
pub struct MergeRequest {
    pub title: String,
    pub target: String,
    pub source: String,
    pub project: Project,
}

/// The project a create action works on.
#[derive(Debug, Clone, Copy, PartialEq, Eq, Structural)]
pub struct Project {
    pub id: u32,
}

/// The coarse failure classes the status-only handler reports.
#[derive(Debug, Clone, Copy, PartialEq, Eq, Structural)]
pub enum HttpError {
    Auth,
    NotFound,
    Validation,
    Server,
    Unexpected,
}

/// A fatal failure of one run.
#[derive(Debug, Clone, Copy, PartialEq, Eq, Structural)]
pub enum CliError {
    HTTPError(HttpError),
}

/// One planned API call: where to post, and which resource it creates.
#[derive(Debug)]
pub struct PlannedRequest {
    pub endpoint: String,
    pub resource: Resource,
}

/// Decides what a parsed command line asks for: nothing when the access token
/// was left at its unusable default, otherwise the one call to make, with its
/// URL fully assembled from the flags.
pub fn plan_request(args: &CmdArgs) -> (r: Option<PlannedRequest>)
    ensures
        r is Some <==> args.source.access_token@ != INVALID_TOKEN_DEFAULT_VALUE@,
        r matches Some(p) ==> match args.action {
            ActionSubcommand::Create(CreateSubCommand::Branch(b)) => p.resource
                == Resource::Branch && p.endpoint@ == spec_branch_endpoint(
                args.source.gitlab_url@,
                b.project.id,
                b.name@,
                b.base@,
            ),
            ActionSubcommand::Create(CreateSubCommand::MergeRequest(m)) => p.resource
                == Resource::MergeRequest && p.endpoint@ == spec_merge_request_endpoint(
                args.source.gitlab_url@,
                m.project.id,
                m.source@,
                m.target@,
                m.title@,
            ),
        },
{
    let invalid = String::from_str(INVALID_TOKEN_DEFAULT_VALUE);
    if args.source.access_token.eq(&invalid) {
        None
    } else {
        match &args.action {
            ActionSubcommand::Create(CreateSubCommand::Branch(b)) => {
                let payload = CreateBranchArgs {
                    gitlab_url: args.source.gitlab_url.as_str(),
                    project_id: &b.project.id,
                    branch: b.name.as_str(),
                    source_branch: b.base.as_str(),
                };
                Some(
                    PlannedRequest {
                        endpoint: create_branch_endpoint(&payload),
                        resource: Resource::Branch,
                    },
                )
            },
            ActionSubcommand::Create(CreateSubCommand::MergeRequest(m)) => {
                let payload = CreateMergeRequestArgs {
                    gitlab_url: args.source.gitlab_url.as_str(),
                    project_id: &m.project.id,
                    source_branch: m.source.as_str(),
                    target_branch: m.target.as_str(),
                    title: m.title.as_str(),
                };
                Some(
                    PlannedRequest {
                        endpoint: create_merge_request_endpoint(&payload),
                        resource: Resource::MergeRequest,
                    },
                )
            },
        }
    }
}

} // verus!
