use actions_runner::command::{CaptureOutcome, Command, DirectoryOutcome, Priority, RunOutcome};
use actions_runner::error::Step;
use actions_runner::http::{DownloadOutcome, HttpOutcome, HttpRequest, Method};
use actions_runner::install_runner::{
    install_runner_if_needed, is_runner_uptodate, version_command, DirectoryCreation, VersionCheck,
};
use actions_runner::Error;

const PATH: &str = "/Users/drew/github-actions-runner/drewcrawford_objr";

fn listing(name: &str) -> HttpOutcome {
    let body = format!(
        r#"[{{"name": "{}", "assets": [{{"name": "actions-runner-osx-x64.tar.gz", "url": "https://example.org/archive"}}]}}]"#,
        name
    );
    HttpOutcome::Responded { status: 200, body: body.into_bytes() }
}

fn printed(text: &str) -> CaptureOutcome {
    CaptureOutcome::Exited { success: true, stdout: text.as_bytes().to_vec() }
}

fn version_check(latest: &str, priority: Priority) -> (VersionCheck, Command) {
    let (stage, _) = install_runner_if_needed(PATH, priority);
    match stage.fetched(listing(latest)) {
        Step::Next(next) => next,
        Step::Done(result) => panic!("the release was not found: {:?}", result),
    }
}

fn directory_creation(priority: Priority) -> (DirectoryCreation, String) {
    let (stage, _) = version_check("v2.300.0", priority);
    match stage.captured(printed("2.299.0\n")) {
        Step::Next(next) => next,
        Step::Done(result) => panic!("the runner counts as up to date: {:?}", result),
    }
}

#[test]
fn is_runner_up2date() {
    let command = version_command("/Users/drew/github-actions-runner/drewcrawford_objr");
    assert_eq!(command.program, "/Users/drew/github-actions-runner/drewcrawford_objr/config.sh");
    let r = is_runner_uptodate(&CaptureOutcome::Failed, "2.280.3");
    println!("{:?}", r);
    let r2 = is_runner_uptodate(&printed("2.280.3\n"), "2.280.3");
    println!("{:?}", r2);
}

#[test]
fn version_is_asked_of_the_configuration_script() {
    assert_eq!(
        version_command(PATH),
        Command {
            program: "/Users/drew/github-actions-runner/drewcrawford_objr/config.sh".to_owned(),
            args: vec!["--version".to_owned()],
            working_dir: None,
            priority: Priority::UserWaiting,
        }
    );
}

#[test]
fn reported_version_with_any_suffix_is_up_to_date() {
    assert!(is_runner_uptodate(&printed("2.300.0"), "2.300.0"));
    assert!(is_runner_uptodate(&printed("2.300.0\n"), "2.300.0"));
    assert!(is_runner_uptodate(&printed("2.300.0-custom"), "2.300.0"));
    assert!(is_runner_uptodate(&printed("2.300.01"), "2.300.0"));
    assert!(is_runner_uptodate(&printed("2.300.0 (commit 1a2b3c)\nmore\n"), "2.300.0"));
}

#[test]
fn other_reported_version_is_stale() {
    assert!(!is_runner_uptodate(&printed("2.299.0"), "2.300.0"));
    assert!(!is_runner_uptodate(&printed("2.299.0\n"), "2.300.0"));
    assert!(!is_runner_uptodate(&printed("2.300"), "2.300.0"));
    assert!(!is_runner_uptodate(&printed("v2.300.0"), "2.300.0"));
    assert!(!is_runner_uptodate(&printed("\n2.300.0"), "2.300.0"));
    assert!(!is_runner_uptodate(&printed(""), "2.300.0"));
}

#[test]
fn runner_that_cannot_be_asked_is_stale() {
    assert!(!is_runner_uptodate(&CaptureOutcome::Failed, "2.300.0"));
    assert!(!is_runner_uptodate(&CaptureOutcome::Failed, ""));
}

#[test]
fn runner_that_exits_with_failure_is_stale() {
    let outcome = CaptureOutcome::Exited { success: false, stdout: b"2.300.0\n".to_vec() };
    assert!(!is_runner_uptodate(&outcome, "2.300.0"));
}

#[test]
fn runner_whose_answer_is_no_text_is_stale() {
    let outcome = CaptureOutcome::Exited { success: true, stdout: vec![b'2', b'.', 0xff] };
    assert!(!is_runner_uptodate(&outcome, "2."));
    let outcome = CaptureOutcome::Exited { success: true, stdout: vec![0xc3] };
    assert!(!is_runner_uptodate(&outcome, ""));
}

#[test]
fn installation_begins_with_the_release_list() {
    let (_, request) = install_runner_if_needed(PATH, Priority::Testing);
    assert_eq!(
        request,
        HttpRequest {
            method: Method::Get,
            url: "https://api.github.com/repos/actions/runner/releases".to_owned(),
            headers: vec![("Accept".to_owned(), "application/vnd.github.v3+json".to_owned())],
        }
    );
}

#[test]
fn found_release_leads_to_the_version_check() {
    let (_, command) = version_check("v2.300.0", Priority::Testing);
    assert_eq!(command, version_command(PATH));
}

#[test]
fn failed_lookup_ends_the_installation() {
    let (stage, _) = install_runner_if_needed(PATH, Priority::Testing);
    assert!(matches!(
        stage.fetched(HttpOutcome::Failed),
        Step::Done(Err(Error::FetchingGithubRunner))
    ));
    let (stage, _) = install_runner_if_needed(PATH, Priority::Testing);
    assert!(matches!(stage.fetched(HttpOutcome::Rejected), Step::Done(Err(Error::InputError))));
    let (stage, _) = install_runner_if_needed(PATH, Priority::Testing);
    assert!(matches!(
        stage.fetched(HttpOutcome::Responded { status: 503, body: Vec::new() }),
        Step::Done(Err(Error::FetchingGithubRunnerStatus { code: 503 }))
    ));
    let (stage, _) = install_runner_if_needed(PATH, Priority::Testing);
    assert!(matches!(
        stage.fetched(HttpOutcome::Responded { status: 200, body: b"<html>".to_vec() }),
        Step::Done(Err(Error::FetchingGithubRunnerDecode))
    ));
    let (stage, _) = install_runner_if_needed(PATH, Priority::Testing);
    assert!(matches!(
        stage.fetched(HttpOutcome::Responded { status: 200, body: b"[]".to_vec() }),
        Step::Done(Err(Error::FetchingGithubRunnerNoReleases))
    ));
    let (stage, _) = install_runner_if_needed(PATH, Priority::Testing);
    assert!(matches!(
        stage.fetched(listing("2.300.0")),
        Step::Done(Err(Error::FetchingGithubRunnerVersion))
    ));
}

#[test]
fn up_to_date_runner_is_left_alone() {
    let (stage, _) = version_check("v2.300.0", Priority::Testing);
    assert!(matches!(stage.captured(printed("2.300.0")), Step::Done(Ok(()))));
    let (stage, _) = version_check("v2.300.0", Priority::Testing);
    assert!(matches!(stage.captured(printed("2.300.0\n")), Step::Done(Ok(()))));
    let (stage, _) = version_check("v2.300.0", Priority::Testing);
    assert!(matches!(stage.captured(printed("2.300.0-custom")), Step::Done(Ok(()))));
}

#[test]
fn stale_runner_is_downloaded_and_unpacked() {
    let (stage, _) = version_check("v2.300.0", Priority::Testing);
    let (stage, directory) = match stage.captured(printed("2.299.0")) {
        Step::Next(next) => next,
        Step::Done(result) => panic!("no download after a stale version: {:?}", result),
    };
    assert_eq!(directory, PATH);
    let (stage, request) = match stage.created(DirectoryOutcome::Created) {
        Step::Next(next) => next,
        Step::Done(result) => panic!("no download after the directory: {:?}", result),
    };
    assert_eq!(
        request,
        HttpRequest {
            method: Method::Get,
            url: "https://example.org/archive".to_owned(),
            headers: vec![("Accept".to_owned(), "application/octet-stream".to_owned())],
        }
    );
    let saved = DownloadOutcome::Saved { path: "/tmp/runner.tar.gz".to_owned() };
    let (stage, command) = match stage.downloaded(saved) {
        Step::Next(next) => next,
        Step::Done(result) => panic!("no extraction after the download: {:?}", result),
    };
    assert_eq!(
        command,
        Command {
            program: "tar".to_owned(),
            args: vec!["xzf".to_owned(), "/tmp/runner.tar.gz".to_owned()],
            working_dir: Some(PATH.to_owned()),
            priority: Priority::Testing,
        }
    );
    assert_eq!(stage.ran(RunOutcome::Exited { success: true }), Ok(()));
}

#[test]
fn missing_runner_is_installed() {
    let (stage, _) = version_check("v2.300.0", Priority::UserWaiting);
    assert!(matches!(stage.captured(CaptureOutcome::Failed), Step::Next(_)));
    let (stage, _) = version_check("v2.300.0", Priority::UserWaiting);
    let failed = CaptureOutcome::Exited { success: false, stdout: b"2.300.0".to_vec() };
    assert!(matches!(stage.captured(failed), Step::Next(_)));
}

#[test]
fn existing_directory_is_as_good_as_a_new_one() {
    let (stage, _) = directory_creation(Priority::Testing);
    assert!(matches!(stage.created(DirectoryOutcome::AlreadyExists), Step::Next(_)));
    let (stage, _) = directory_creation(Priority::Testing);
    assert!(matches!(stage.created(DirectoryOutcome::Created), Step::Next(_)));
}

#[test]
fn directory_that_cannot_be_created_ends_the_installation() {
    let (stage, _) = directory_creation(Priority::Testing);
    assert!(matches!(
        stage.created(DirectoryOutcome::Failed),
        Step::Done(Err(Error::MakeDirectoryError))
    ));
}

#[test]
fn failed_download_ends_the_installation() {
    let (stage, _) = directory_creation(Priority::Testing);
    let (stage, _) = match stage.created(DirectoryOutcome::Created) {
        Step::Next(next) => next,
        Step::Done(result) => panic!("no download after the directory: {:?}", result),
    };
    assert!(matches!(
        stage.downloaded(DownloadOutcome::Failed),
        Step::Done(Err(Error::FetchingGithubRunner))
    ));
    let (stage, _) = directory_creation(Priority::Testing);
    let (stage, _) = match stage.created(DirectoryOutcome::Created) {
        Step::Next(next) => next,
        Step::Done(result) => panic!("no download after the directory: {:?}", result),
    };
    assert!(matches!(
        stage.downloaded(DownloadOutcome::Rejected),
        Step::Done(Err(Error::InputError))
    ));
}

#[test]
fn extraction_fails_only_if_the_tool_cannot_be_run() {
    let extraction = |priority: Priority| {
        let (stage, _) = directory_creation(priority);
        let (stage, _) = match stage.created(DirectoryOutcome::Created) {
            Step::Next(next) => next,
            Step::Done(result) => panic!("no download after the directory: {:?}", result),
        };
        match stage.downloaded(DownloadOutcome::Saved { path: "a".to_owned() }) {
            Step::Next((stage, command)) => {
                assert_eq!(command.priority, priority);
                stage
            },
            Step::Done(result) => panic!("no extraction after the download: {:?}", result),
        }
    };
    assert_eq!(extraction(Priority::Testing).ran(RunOutcome::Failed), Err(Error::Untar));
    assert_eq!(extraction(Priority::Testing).ran(RunOutcome::Exited { success: false }), Ok(()));
    assert_eq!(extraction(Priority::UserWaiting).ran(RunOutcome::Exited { success: true }), Ok(()));
}
