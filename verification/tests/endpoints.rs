use shears_cli::cli::plan_request;
use shears_cli::cli::ActionSubcommand;
use shears_cli::cli::Branch;
use shears_cli::cli::CmdArgs;
use shears_cli::cli::CreateSubCommand;
use shears_cli::cli::MergeRequest;
use shears_cli::cli::Project;
use shears_cli::cli::Source;
use shears_cli::decimal::u32_to_string;
use shears_cli::gitlab::create_branch_endpoint;
use shears_cli::gitlab::create_merge_request_endpoint;
use shears_cli::gitlab::CreateBranchArgs;
use shears_cli::gitlab::CreateMergeRequestArgs;
use shears_cli::http::Resource;

#[test]
fn decimal_rendering_is_exact() {
    assert_eq!(u32_to_string(0), "0");
    assert_eq!(u32_to_string(7), "7");
    assert_eq!(u32_to_string(10), "10");
    assert_eq!(u32_to_string(4217), "4217");
    assert_eq!(u32_to_string(4294967295), "4294967295");
}

#[test]
fn branch_endpoint_is_assembled_exactly() {
    let args = CreateBranchArgs {
        gitlab_url: "https://gitlab.com",
        project_id: &4217,
        branch: "release-1.2",
        source_branch: "develop",
    };
    assert_eq!(
        create_branch_endpoint(&args),
        "https://gitlab.com/api/v4/projects/4217/repository/branches?branch=release-1.2&ref=develop"
    );
}

#[test]
fn merge_request_endpoint_is_assembled_exactly() {
    let args = CreateMergeRequestArgs {
        gitlab_url: "https://gitlab.example.com",
        project_id: &1,
        source_branch: "develop",
        target_branch: "release-1.2",
        title: "Release 1.2",
    };
    assert_eq!(
        create_merge_request_endpoint(&args),
        "https://gitlab.example.com/api/v4/projects/1/merge_requests?source_branch=develop&target_branch=release-1.2&title=Release 1.2"
    );
}

fn branch_command(token: &str) -> CmdArgs {
    CmdArgs {
        action: ActionSubcommand::Create(CreateSubCommand::Branch(Branch {
            name: String::from("release-1.2"),
            base: String::from("develop"),
            project: Project { id: 4217 },
        })),
        source: Source {
            gitlab_url: String::from("https://gitlab.com"),
            access_token: String::from(token),
        },
    }
}

#[test]
fn planning_refuses_the_default_token() {
    let planned = plan_request(&branch_command("INVALID"));
    assert!(planned.is_none());
}

#[test]
fn planning_a_branch_yields_its_endpoint() {
    let planned = plan_request(&branch_command("real-token")).expect("a real token must plan");
    assert_eq!(planned.resource, Resource::Branch);
    assert_eq!(
        planned.endpoint,
        "https://gitlab.com/api/v4/projects/4217/repository/branches?branch=release-1.2&ref=develop"
    );
}

#[test]
fn planning_a_merge_request_yields_its_endpoint() {
    let args = CmdArgs {
        action: ActionSubcommand::Create(CreateSubCommand::MergeRequest(MergeRequest {
            title: String::from("Release 1.2"),
            target: String::from("release-1.2"),
            source: String::from("develop"),
            project: Project { id: 9 },
        })),
        source: Source {
            gitlab_url: String::from("https://gitlab.com"),
            access_token: String::from("real-token"),
        },
    };
    let planned = plan_request(&args).expect("a real token must plan");
    assert_eq!(planned.resource, Resource::MergeRequest);
    assert_eq!(
        planned.endpoint,
        "https://gitlab.com/api/v4/projects/9/merge_requests?source_branch=develop&target_branch=release-1.2&title=Release 1.2"
    );
}
