//! The remote API's data: what the two create calls return on success, the
//! arguments each call takes, and the exact request URL each call posts to.

use vstd::prelude::*;
use vstd::string::StringExecFns;

use crate::decimal::dec_digits;
use crate::decimal::u32_to_string;

verus! {

/// The error body the remote system sends with a validation failure.
#[derive(Debug, PartialEq, Eq)]
pub struct GitlabError {
    pub message: String,
}

/// What the remote system returns when a branch was created.
#[derive(Debug, PartialEq, Eq)]
pub struct CreatedBranchResponse {
    pub name: String,
    pub web_url: String,
}

/// What the remote system returns when a merge request was created.
#[derive(Debug, PartialEq, Eq, Clone)]
pub struct CreatedMergeRequestResponse {
    pub source_branch: String,
    pub target_branch: String,
    pub web_url: String,
}

/// The mathematical value of a created-branch payload.
pub struct CreatedBranchView {
    pub name: Seq<char>,
    pub web_url: Seq<char>,
}

/// The mathematical value of a created-merge-request payload.
pub struct CreatedMergeRequestView {
    pub source_branch: Seq<char>,
    pub target_branch: Seq<char>,
    pub web_url: Seq<char>,
}

impl View for CreatedBranchResponse {
    type V = CreatedBranchView;

    open spec fn view(&self) -> CreatedBranchView {
        CreatedBranchView { name: self.name@, web_url: self.web_url@ }
    }
}

impl View for CreatedMergeRequestResponse {
    type V = CreatedMergeRequestView;

    open spec fn view(&self) -> CreatedMergeRequestView {
        CreatedMergeRequestView {
            source_branch: self.source_branch@,
            target_branch: self.target_branch@,
            web_url: self.web_url@,
        }
    }
}

/// Everything the create-branch call needs.
#[derive(Debug, Clone)]
pub struct CreateBranchArgs<'a> {
    pub gitlab_url: &'a str,
    pub project_id: &'a u32,
    pub branch: &'a str,
    pub source_branch: &'a str,
}

/// Everything the create-merge-request call needs.
#[derive(Debug, Clone)]
pub struct CreateMergeRequestArgs<'a> {
    pub gitlab_url: &'a str,
    pub project_id: &'a u32,
    pub source_branch: &'a str,
    pub target_branch: &'a str,
    pub title: &'a str,
}

/// The URL the create-branch call posts to.
pub open spec fn spec_branch_endpoint(
    gitlab_url: Seq<char>,
    project_id: u32,
    branch: Seq<char>,
    source_branch: Seq<char>,
) -> Seq<char> {
    gitlab_url + "/api/v4/projects/"@ + dec_digits(project_id as nat)
        + "/repository/branches?branch="@ + branch + "&ref="@ + source_branch
}

/// The URL the create-merge-request call posts to.
pub open spec fn spec_merge_request_endpoint(
    gitlab_url: Seq<char>,
    project_id: u32,
    source_branch: Seq<char>,
    target_branch: Seq<char>,
    title: Seq<char>,
) -> Seq<char> {
    gitlab_url + "/api/v4/projects/"@ + dec_digits(project_id as nat)
        + "/merge_requests?source_branch="@ + source_branch + "&target_branch="@ + target_branch
        + "&title="@ + title
}

/// Builds the URL the create-branch call posts to.
pub fn create_branch_endpoint(args: &CreateBranchArgs) -> (r: String)
    ensures
        r@ == spec_branch_endpoint(
            args.gitlab_url@,
            *args.project_id,
            args.branch@,
            args.source_branch@,
        ),
{
    let mut s = args.gitlab_url.to_owned();
    s.append("/api/v4/projects/");
    let id = u32_to_string(*args.project_id);
    s.append(id.as_str());
    s.append("/repository/branches?branch=");
    s.append(args.branch);
    s.append("&ref=");
    s.append(args.source_branch);
    proof {
        assert(s@ =~= spec_branch_endpoint(
            args.gitlab_url@,
            *args.project_id,
            args.branch@,
            args.source_branch@,
        ));
    }
    s
}

/// Builds the URL the create-merge-request call posts to.
pub fn create_merge_request_endpoint(args: &CreateMergeRequestArgs) -> (r: String)
    ensures
        r@ == spec_merge_request_endpoint(
            args.gitlab_url@,
            *args.project_id,
            args.source_branch@,
            args.target_branch@,
            args.title@,
        ),
{
    let mut s = args.gitlab_url.to_owned();
    s.append("/api/v4/projects/");
    let id = u32_to_string(*args.project_id);
    s.append(id.as_str());
    s.append("/merge_requests?source_branch=");
    s.append(args.source_branch);
    s.append("&target_branch=");
    s.append(args.target_branch);
    s.append("&title=");
    s.append(args.title);
    proof {
        assert(s@ =~= spec_merge_request_endpoint(
            args.gitlab_url@,
            *args.project_id,
            args.source_branch@,
            args.target_branch@,
            args.title@,
        ));
    }
    s
}

} // verus!
