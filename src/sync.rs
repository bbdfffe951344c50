//! One run of the index synchronisation, as a sequence of steps on the mirror.
//! Each step is carried out by the caller, who reports whether it succeeded; the
//! next step follows from that report alone.
use vstd::prelude::*;

verus! {

/// How a run ended.
#[derive(PartialEq, Eq, Structural, Clone, Copy, Debug)]
pub enum SyncOutcome {
    /// The mirror follows upstream and serves this mirror's URLs.
    Synced,
    /// The mirror follows upstream, but rewriting, committing or exporting it failed.
    SyncedWithWarnings,
    /// Nothing was fetched; the mirror is as it was, or absent.
    Failed,
}

/// A step of a run.
#[derive(PartialEq, Eq, Structural, Clone, Copy, Debug)]
pub enum SyncStep {
    /// `git clone` the upstream index into the absent mirror.
    Clone,
    /// Turn commit signing off in the fresh clone.
    DisableSigning,
    /// `git pull --rebase` in the present mirror.
    Pull,
    /// Write the mirror's `config.json`.
    WriteConfig,
    /// Commit the rewritten `config.json`.
    Commit,
    /// Create the marker that lets the backend export the mirror.
    MarkExport,
    /// Remove what a failed clone left behind.
    RemoveMirror,
    Done(SyncOutcome),
}

/// Where a run stands: the step to carry out next, and whether a step after the
/// fetch has failed so far.
#[derive(PartialEq, Eq, Structural, Clone, Copy, Debug)]
pub struct SyncState {
    pub step: SyncStep,
    pub warned: bool,
}

/// The first step: a clone when the mirror is absent, a pull when it is present.
pub fn start(mirror_present: bool) -> (r: SyncState)
    ensures
        r.step == (if mirror_present {
            SyncStep::Pull
        } else {
            SyncStep::Clone
        }),
        !r.warned,
{
    if mirror_present {
        SyncState { step: SyncStep::Pull, warned: false }
    } else {
        SyncState { step: SyncStep::Clone, warned: false }
    }
}

pub open spec fn next_step(s: SyncState, ok: bool) -> SyncState {
    match s.step {
        SyncStep::Clone => if ok {
            SyncState { step: SyncStep::DisableSigning, ..s }
        } else {
            SyncState { step: SyncStep::RemoveMirror, ..s }
        },
        SyncStep::DisableSigning => if ok {
            SyncState { step: SyncStep::WriteConfig, ..s }
        } else {
            SyncState { step: SyncStep::RemoveMirror, ..s }
        },
        SyncStep::RemoveMirror => SyncState { step: SyncStep::Done(SyncOutcome::Failed), ..s },
        SyncStep::Pull => if ok {
            SyncState { step: SyncStep::WriteConfig, ..s }
        } else {
            SyncState { step: SyncStep::Done(SyncOutcome::Failed), ..s }
        },
        SyncStep::WriteConfig => if ok {
            SyncState { step: SyncStep::Commit, ..s }
        } else {
            SyncState { step: SyncStep::MarkExport, warned: true }
        },
        SyncStep::Commit => SyncState { step: SyncStep::MarkExport, warned: s.warned || !ok },
        SyncStep::MarkExport => if s.warned || !ok {
            SyncState { step: SyncStep::Done(SyncOutcome::SyncedWithWarnings), warned: true }
        } else {
            SyncState { step: SyncStep::Done(SyncOutcome::Synced), warned: false }
        },
        SyncStep::Done(_) => s,
    }
}

/// The step after `s`, given whether `s.step` succeeded.
///
/// A failed clone, or a failed attempt to turn signing off in it, is removed again.
/// A failed pull ends the run and leaves the mirror as it was. After a successful
/// fetch the rewrite, commit and export all come; a failure among them is remembered
/// as a warning and does not undo the fetch. A config file that could not be written
/// is not committed.
pub fn advance(s: SyncState, ok: bool) -> (r: SyncState)
    ensures
        r == next_step(s, ok),
{
    match s.step {
        SyncStep::Clone => if ok {
            SyncState { step: SyncStep::DisableSigning, warned: s.warned }
        } else {
            SyncState { step: SyncStep::RemoveMirror, warned: s.warned }
        },
        SyncStep::DisableSigning => if ok {
            SyncState { step: SyncStep::WriteConfig, warned: s.warned }
        } else {
            SyncState { step: SyncStep::RemoveMirror, warned: s.warned }
        },
        SyncStep::RemoveMirror => SyncState {
            step: SyncStep::Done(SyncOutcome::Failed),
            warned: s.warned,
        },
        SyncStep::Pull => if ok {
            SyncState { step: SyncStep::WriteConfig, warned: s.warned }
        } else {
            SyncState { step: SyncStep::Done(SyncOutcome::Failed), warned: s.warned }
        },
        SyncStep::WriteConfig => if ok {
            SyncState { step: SyncStep::Commit, warned: s.warned }
        } else {
            SyncState { step: SyncStep::MarkExport, warned: true }
        },
        SyncStep::Commit => SyncState { step: SyncStep::MarkExport, warned: s.warned || !ok },
        SyncStep::MarkExport => if s.warned || !ok {
            SyncState { step: SyncStep::Done(SyncOutcome::SyncedWithWarnings), warned: true }
        } else {
            SyncState { step: SyncStep::Done(SyncOutcome::Synced), warned: false }
        },
        SyncStep::Done(_) => s,
    }
}

/// The state reached from `s` when the steps report `results` in turn.
pub open spec fn run_from(s: SyncState, results: Seq<bool>) -> SyncState
    decreases results.len(),
{
    if results.len() == 0 {
        s
    } else {
        run_from(next_step(s, results[0]), results.drop_first())
    }
}

/// A run on a mirror that is present never removes it: whatever the steps report,
/// no state reached from a pull asks for the mirror to be removed.
pub proof fn lemma_present_mirror_kept(results: Seq<bool>)
    ensures
        run_from(SyncState { step: SyncStep::Pull, warned: false }, results).step
            != SyncStep::RemoveMirror,
{
    lemma_no_removal_past_clone(SyncState { step: SyncStep::Pull, warned: false }, results);
}

/// Every run ends within six steps, whatever the steps report.
pub proof fn lemma_run_ends(mirror_present: bool, results: Seq<bool>)
    requires
        results.len() >= 6,
    ensures
        run_from(
            SyncState {
                step: if mirror_present {
                    SyncStep::Pull
                } else {
                    SyncStep::Clone
                },
                warned: false,
            },
            results,
        ).step is Done,
{
    let s0 = SyncState {
        step: if mirror_present {
            SyncStep::Pull
        } else {
            SyncStep::Clone
        },
        warned: false,
    };
    lemma_steps_left(s0, results);
}

/// How many more steps a run takes from `s`, at most.
pub open spec fn steps_left(s: SyncState) -> nat {
    match s.step {
        SyncStep::Clone => 6,
        SyncStep::DisableSigning => 5,
        SyncStep::Pull => 5,
        SyncStep::WriteConfig => 4,
        SyncStep::Commit => 2,
        SyncStep::MarkExport => 1,
        SyncStep::RemoveMirror => 1,
        SyncStep::Done(_) => 0,
    }
}

proof fn lemma_steps_left(s: SyncState, results: Seq<bool>)
    requires
        results.len() >= steps_left(s),
    ensures
        run_from(s, results).step is Done,
    decreases results.len(),
{
    if results.len() > 0 {
        lemma_steps_left(next_step(s, results[0]), results.drop_first());
    }
}

/// The steps from which no removal can follow: a pull, what comes after a fetch,
/// and the end of a run.
pub open spec fn past_clone(s: SyncState) -> bool {
    match s.step {
        SyncStep::Clone | SyncStep::DisableSigning | SyncStep::RemoveMirror => false,
        _ => true,
    }
}

proof fn lemma_no_removal_past_clone(s: SyncState, results: Seq<bool>)
    requires
        past_clone(s),
    ensures
        run_from(s, results).step != SyncStep::RemoveMirror,
    decreases results.len(),
{
    if results.len() > 0 {
        lemma_no_removal_past_clone(next_step(s, results[0]), results.drop_first());
    }
}

/// The text of the mirror's `config.json`, which sends clients to `url` for downloads
/// and for the API.
pub open spec fn served_config_of(url: Seq<char>) -> Seq<char> {
    "{\n  \"dl\": \""@ + url + "/api/v1/crates\",\n  \"api\": \""@ + url + "/\"\n}\n"@
}

/// The `config.json` that the mirror serves, pointing clients at `extern_url`.
pub fn served_config(extern_url: &str) -> (r: String)
    ensures
        r@ == served_config_of(extern_url@),
{
    let mut r = String::from_str("{\n  \"dl\": \"");
    r.append(extern_url);
    r.append("/api/v1/crates\",\n  \"api\": \"");
    r.append(extern_url);
    r.append("/\"\n}\n");
    r
}

/// `{mirror}/{name}`
pub fn mirror_file(mirror: &str, name: &str) -> (r: String)
    ensures
        r@ == mirror@ + "/"@ + name@,
{
    let mut r = String::from_str(mirror);
    r.append("/");
    r.append(name);
    r
}

/// The path whose presence means that the mirror exists.
pub fn repository_dir(mirror: &str) -> (r: String)
    ensures
        r@ == mirror@ + "/"@ + ".git"@,
{
    mirror_file(mirror, ".git")
}

/// The path of the mirror's served `config.json`.
pub fn config_path(mirror: &str) -> (r: String)
    ensures
        r@ == mirror@ + "/"@ + "config.json"@,
{
    mirror_file(mirror, "config.json")
}

/// The path of the marker that lets the backend export the mirror.
pub fn export_marker_path(mirror: &str) -> (r: String)
    ensures
        r@ == mirror@ + "/"@ + ".git/git-daemon-export-ok"@,
{
    mirror_file(mirror, ".git/git-daemon-export-ok")
}

pub open spec fn strings_view(v: Seq<String>) -> Seq<Seq<char>> {
    v.map_values(|s: String| s@)
}

pub open spec fn git_arguments_of(step: SyncStep, upstream: Seq<char>, mirror: Seq<char>) -> Seq<
    Seq<char>,
> {
    match step {
        SyncStep::Clone => seq!["clone"@, "-qq"@, upstream, mirror],
        SyncStep::DisableSigning => seq!["config"@, "commit.gpgsign"@, "false"@],
        SyncStep::Pull => seq!["pull"@, "-q"@, "--rebase"@],
        SyncStep::Commit => seq![
            "commit"@,
            "-q"@,
            "-a"@,
            "-m"@,
            "Updating config.json"@,
            "--no-gpg-sign"@,
        ],
        _ => seq![],
    }
}

/// The arguments of the `git` command that carries out `step`, run in the mirror;
/// none for a step that is no `git` command.
pub fn git_arguments(step: SyncStep, upstream: &str, mirror: &str) -> (r: Vec<String>)
    ensures
        strings_view(r@) == git_arguments_of(step, upstream@, mirror@),
{
    let mut r: Vec<String> = Vec::new();
    match step {
        SyncStep::Clone => {
            r.push(String::from_str("clone"));
            r.push(String::from_str("-qq"));
            r.push(String::from_str(upstream));
            r.push(String::from_str(mirror));
        },
        SyncStep::DisableSigning => {
            r.push(String::from_str("config"));
            r.push(String::from_str("commit.gpgsign"));
            r.push(String::from_str("false"));
        },
        SyncStep::Pull => {
            r.push(String::from_str("pull"));
            r.push(String::from_str("-q"));
            r.push(String::from_str("--rebase"));
        },
        SyncStep::Commit => {
            r.push(String::from_str("commit"));
            r.push(String::from_str("-q"));
            r.push(String::from_str("-a"));
            r.push(String::from_str("-m"));
            r.push(String::from_str("Updating config.json"));
            r.push(String::from_str("--no-gpg-sign"));
        },
        _ => {},
    }
    assert(strings_view(r@) =~= git_arguments_of(step, upstream@, mirror@));
    r
}

} // verus!
