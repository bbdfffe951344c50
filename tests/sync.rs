use cargo_cacher::sync::{
    advance, config_path, export_marker_path, git_arguments, mirror_file, repository_dir,
    served_config, start, SyncOutcome, SyncState, SyncStep,
};

fn run(mirror_present: bool, results: &[bool]) -> Vec<SyncStep> {
    let mut s = start(mirror_present);
    let mut steps = vec![s.step];
    for ok in results {
        s = advance(s, *ok);
        steps.push(s.step);
    }
    steps
}

#[test]
fn scenario_absent_mirror_is_cloned_and_prepared() {
    let steps = run(false, &[true, true, true, true, true]);
    assert_eq!(
        steps,
        vec![
            SyncStep::Clone,
            SyncStep::DisableSigning,
            SyncStep::WriteConfig,
            SyncStep::Commit,
            SyncStep::MarkExport,
            SyncStep::Done(SyncOutcome::Synced),
        ]
    );
    let mirror = "/srv/cache/index";
    assert_eq!(repository_dir(mirror), "/srv/cache/index/.git");
    assert_eq!(config_path(mirror), "/srv/cache/index/config.json");
    assert_eq!(export_marker_path(mirror), "/srv/cache/index/.git/git-daemon-export-ok");
    let config = served_config("http://mirror.local:8080");
    assert!(config.contains("\"dl\": \"http://mirror.local:8080/api/v1/crates\""));
    assert!(config.contains("\"api\": \"http://mirror.local:8080/\""));
}

#[test]
fn served_config_text() {
    assert_eq!(
        served_config("http://localhost:8080"),
        "{\n  \"dl\": \"http://localhost:8080/api/v1/crates\",\n  \"api\": \"http://localhost:8080/\"\n}\n"
    );
}

#[test]
fn present_mirror_is_pulled() {
    let steps = run(true, &[true, true, true, true]);
    assert_eq!(
        steps,
        vec![
            SyncStep::Pull,
            SyncStep::WriteConfig,
            SyncStep::Commit,
            SyncStep::MarkExport,
            SyncStep::Done(SyncOutcome::Synced),
        ]
    );
}

#[test]
fn failed_pull_leaves_the_mirror() {
    assert_eq!(run(true, &[false]), vec![SyncStep::Pull, SyncStep::Done(SyncOutcome::Failed)]);
}

#[test]
fn failed_clone_is_removed() {
    assert_eq!(
        run(false, &[false, true]),
        vec![SyncStep::Clone, SyncStep::RemoveMirror, SyncStep::Done(SyncOutcome::Failed)]
    );
    assert_eq!(
        run(false, &[true, false, false]),
        vec![
            SyncStep::Clone,
            SyncStep::DisableSigning,
            SyncStep::RemoveMirror,
            SyncStep::Done(SyncOutcome::Failed),
        ]
    );
}

#[test]
fn failures_after_the_fetch_are_warnings() {
    assert_eq!(
        run(true, &[true, true, false, true]),
        vec![
            SyncStep::Pull,
            SyncStep::WriteConfig,
            SyncStep::Commit,
            SyncStep::MarkExport,
            SyncStep::Done(SyncOutcome::SyncedWithWarnings),
        ]
    );
    assert_eq!(
        run(true, &[true, false, true]),
        vec![
            SyncStep::Pull,
            SyncStep::WriteConfig,
            SyncStep::MarkExport,
            SyncStep::Done(SyncOutcome::SyncedWithWarnings),
        ]
    );
    let done = SyncState { step: SyncStep::Done(SyncOutcome::Synced), warned: false };
    assert_eq!(advance(done, false), done);
}

#[test]
fn git_commands_of_each_step() {
    let up = "https://github.com/rust-lang/crates.io-index.git";
    let m = "/srv/cache/index";
    assert_eq!(git_arguments(SyncStep::Clone, up, m), vec!["clone", "-qq", up, m]);
    assert_eq!(
        git_arguments(SyncStep::DisableSigning, up, m),
        vec!["config", "commit.gpgsign", "false"]
    );
    assert_eq!(git_arguments(SyncStep::Pull, up, m), vec!["pull", "-q", "--rebase"]);
    assert_eq!(
        git_arguments(SyncStep::Commit, up, m),
        vec!["commit", "-q", "-a", "-m", "Updating config.json", "--no-gpg-sign"]
    );
    assert!(git_arguments(SyncStep::WriteConfig, up, m).is_empty());
    assert_eq!(mirror_file("a", "b"), "a/b");
}
