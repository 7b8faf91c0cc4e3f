use shears_cli::args::Cli;
use shears_cli::args::Config;
use shears_cli::args::Project;
use shears_cli::util::build_config;
use shears_cli::util::select_projects;
use shears_cli::util::ConfigError;

fn sample_cli() -> Cli {
    Cli {
        private_token: String::from("cli-token"),
        project_id: String::from("4217"),
        base_branch: String::from("develop"),
        target_branch: String::from("release-1.2"),
        gitlab_url: String::from("https://gitlab.com"),
    }
}

fn sample_projects() -> Vec<Project> {
    vec![
        Project {
            project_id: String::from("1"),
            base_branch: String::from("develop"),
            target_branch: String::from("release-a"),
        },
        Project {
            project_id: String::from("2"),
            base_branch: String::from("main"),
            target_branch: String::from("release-b"),
        },
        Project {
            project_id: String::from("3"),
            base_branch: String::from("trunk"),
            target_branch: String::from("release-c"),
        },
    ]
}

fn sample_file() -> Config {
    Config {
        private_token: String::from("file-token"),
        gitlab_url: String::from("https://gitlab.example.com"),
        projects: sample_projects(),
    }
}

#[test]
fn cli_flags_yield_exactly_one_matching_project() {
    let cfg = build_config(Some(sample_cli()), Err(ConfigError::MissingFile), None)
        .expect("flags must resolve");
    assert_eq!(cfg.private_token, "cli-token");
    assert_eq!(cfg.gitlab_url, "https://gitlab.com");
    assert_eq!(cfg.projects.len(), 1);
    assert_eq!(
        cfg.projects[0],
        Project {
            project_id: String::from("4217"),
            base_branch: String::from("develop"),
            target_branch: String::from("release-1.2"),
        }
    );
}

#[test]
fn cli_flags_win_over_a_present_file() {
    let cfg = build_config(Some(sample_cli()), Ok(sample_file()), Some(vec![0, 1, 2]))
        .expect("flags must resolve");
    assert_eq!(cfg.gitlab_url, "https://gitlab.com");
    assert_eq!(cfg.projects.len(), 1);
}

#[test]
fn file_selection_keeps_the_chosen_subset_in_order() {
    let cfg = build_config(None, Ok(sample_file()), Some(vec![2, 0]))
        .expect("the file must resolve");
    assert_eq!(cfg.private_token, "file-token");
    assert_eq!(cfg.gitlab_url, "https://gitlab.example.com");
    let ids: Vec<&str> = cfg.projects.iter().map(|p| p.project_id.as_str()).collect();
    assert_eq!(ids, vec!["1", "3"]);
}

#[test]
fn no_selection_keeps_every_project() {
    let cfg = build_config(None, Ok(sample_file()), None).expect("the file must resolve");
    assert_eq!(cfg.projects, sample_projects());
}

#[test]
fn empty_selection_keeps_nothing() {
    let cfg = build_config(None, Ok(sample_file()), Some(vec![]))
        .expect("the file must resolve");
    assert!(cfg.projects.is_empty());
}

#[test]
fn out_of_range_positions_are_ignored() {
    let kept = select_projects(sample_projects(), Some(vec![1, 7, 100]));
    assert_eq!(kept.len(), 1);
    assert_eq!(kept[0].project_id, "2");
}

#[test]
fn repeated_positions_keep_a_project_once() {
    let kept = select_projects(sample_projects(), Some(vec![1, 1, 1]));
    assert_eq!(kept.len(), 1);
    assert_eq!(kept[0].project_id, "2");
}

#[test]
fn a_missing_file_is_fatal_without_flags() {
    let r = build_config(None, Err(ConfigError::MissingFile), None);
    assert_eq!(r.unwrap_err(), ConfigError::MissingFile);
}

#[test]
fn an_unparseable_file_is_fatal_without_flags() {
    let r = build_config(None, Err(ConfigError::InvalidFile), Some(vec![0]));
    assert_eq!(r.unwrap_err(), ConfigError::InvalidFile);
}
