use git_command_test::run::{
    plan_run, plan_with_home, BatchRun, RunPlan, SearchStep, StatusOutcome,
};

#[test]
fn launch_failure_plans_no_status_checks() {
    let p = plan_with_home("/home/user", &SearchStep::LaunchFailed);
    assert!(matches!(p, RunPlan::SearchError));
}

#[test]
fn search_failure_plans_no_status_checks() {
    let search = SearchStep::Exited {
        success: false,
        stdout: "repoA/.git/\n".to_string(),
    };
    let p = plan_with_home("/home/user", &search);
    assert!(matches!(p, RunPlan::SearchError));
}

#[test]
fn empty_search_output_ends_informationally() {
    let search = SearchStep::Exited {
        success: true,
        stdout: String::new(),
    };
    let p = plan_with_home("/home/user", &search);
    assert!(matches!(p, RunPlan::NoEntries));
}

#[test]
fn whitespace_search_output_ends_informationally() {
    let search = SearchStep::Exited {
        success: true,
        stdout: " \n\t ".to_string(),
    };
    let p = plan_with_home("/home/user", &search);
    assert!(matches!(p, RunPlan::NoEntries));
}

#[test]
fn two_results_are_checked_in_search_order() {
    let search = SearchStep::Exited {
        success: true,
        stdout: "repoA/.git/\nrepoB/.git/\n".to_string(),
    };
    let p = plan_with_home("/home/user", &search);
    match p {
        RunPlan::CheckRepos(paths) => {
            assert_eq!(
                paths,
                vec![
                    "/home/user/projects/repoA".to_string(),
                    "/home/user/projects/repoB".to_string(),
                ]
            );
        }
        _ => panic!("expected a plan that checks both repositories"),
    }
}

#[test]
fn one_path_per_search_result() {
    let search = SearchStep::Exited {
        success: true,
        stdout: "a/.git/\nb/.git/\nc/.git/".to_string(),
    };
    let p = plan_with_home("/h", &search);
    match p {
        RunPlan::CheckRepos(paths) => {
            assert_eq!(paths.len(), 3);
            assert_eq!(paths[0], "/h/projects/a");
            assert_eq!(paths[1], "/h/projects/b");
            assert_eq!(paths[2], "/h/projects/c");
        }
        _ => panic!("expected a plan that checks all three repositories"),
    }
}

#[test]
fn failed_entry_does_not_stop_the_next_entry() {
    let paths = vec!["/h/projects/a".to_string(), "/h/projects/b".to_string()];
    let mut batch = BatchRun::new(paths);
    let first = batch.current();
    assert_eq!(first, Some("/h/projects/a".to_string()));
    batch.advance(&StatusOutcome::Exited { success: false });
    let second = batch.current();
    assert_eq!(second, Some("/h/projects/b".to_string()));
    batch.advance(&StatusOutcome::LaunchFailed);
    assert_eq!(batch.current(), None);
}

#[test]
fn batch_order_matches_plan_order() {
    let paths = vec!["x".to_string(), "y".to_string(), "z".to_string()];
    let mut batch = BatchRun::new(paths);
    let mut seen: Vec<String> = Vec::new();
    while let Some(p) = batch.current() {
        seen.push(p);
        batch.advance(&StatusOutcome::Exited { success: true });
    }
    assert_eq!(
        seen,
        vec!["x".to_string(), "y".to_string(), "z".to_string()]
    );
}

#[test]
fn plan_run_aborts_on_search_failure() {
    let p = plan_run(&SearchStep::LaunchFailed);
    assert!(matches!(p, RunPlan::SearchError));
    let search = SearchStep::Exited {
        success: false,
        stdout: String::new(),
    };
    assert!(matches!(plan_run(&search), RunPlan::SearchError));
}

#[test]
fn plan_run_resolves_against_the_real_home_directory() {
    let search = SearchStep::Exited {
        success: true,
        stdout: "repoA/.git/\n".to_string(),
    };
    match plan_run(&search) {
        RunPlan::CheckRepos(paths) => {
            assert_eq!(paths.len(), 1);
            assert!(paths[0].ends_with("/projects/repoA"));
        }
        RunPlan::HomeError => {
            panic!("a home directory should be available in the test environment")
        }
        _ => panic!("expected a plan that checks the one repository"),
    }
}
