//! The upload orchestrator: files are handled one at a time in list order,
//! each outcome is folded into the run's report, and a terminal transport
//! failure stops the run unless errors are to be passed over.

use vstd::prelude::*;
use vstd::string::*;
use crate::cli::Args;
use crate::error::{error_text, UploadError};
use crate::models::{ImportResult, UploadResult};
use crate::response::{classify, outcome_of, UploadOutcome};

verus! {

/// The server's ingest path, appended to the base URL.
pub open spec fn ingest_path() -> Seq<char> {
    "/charts/import/ksh"@
}

/// `s` without its trailing slashes.
pub open spec fn trim_trailing_slashes(s: Seq<char>) -> Seq<char>
    decreases s.len(),
{
    if s.len() > 0 && s.last() == '/' {
        trim_trailing_slashes(s.drop_last())
    } else {
        s
    }
}

/// The upload URL for a server base URL.
pub open spec fn upload_url_of(server: Seq<char>) -> Seq<char> {
    trim_trailing_slashes(server) + ingest_path()
}

/// Builds the upload URL: the base URL without trailing slashes, then the
/// ingest path.
pub fn build_upload_url(server: &str) -> (r: String)
    ensures
        r@ == upload_url_of(server@),
{
    let n = server.unicode_len();
    let mut end: usize = n;
    assert(server@.subrange(0, n as int) =~= server@);
    loop
        invariant
            n == server@.len(),
            end <= n,
            trim_trailing_slashes(server@.subrange(0, end as int)) == trim_trailing_slashes(
                server@,
            ),
        ensures
            end <= n,
            trim_trailing_slashes(server@.subrange(0, end as int)) == trim_trailing_slashes(
                server@,
            ),
            end == 0 || server@[end - 1] != '/',
        decreases end,
    {
        if end == 0 || server.get_char(end - 1) != '/' {
            break;
        }
        assert(server@.subrange(0, end as int).drop_last() =~= server@.subrange(
            0,
            end - 1 as int,
        ));
        end = end - 1;
    }
    let base = server.substring_char(0, end);
    assert(end > 0 ==> base@.last() == server@[end - 1]);
    assert(trim_trailing_slashes(base@) == base@);
    let r = String::from_str(base);
    r.concat("/charts/import/ksh")
}

/// The settings of a run.
pub struct Uploader {
    pub upload_url: String,
    pub token: String,
    pub dry_run: bool,
    pub continue_on_error: bool,
    pub verbose: bool,
    pub max_retries: u32,
    /// Seconds to wait before each retry.
    pub retry_delay: u64,
    pub base_path: String,
}

impl Uploader {
    /// The settings for `args`, with the upload URL built from the server.
    pub fn new(args: &Args) -> (r: Self)
        ensures
            r.upload_url@ == upload_url_of(args.server@),
            r.token@ == args.token@,
            r.dry_run == args.dry_run,
            r.continue_on_error == args.continue_on_error,
            r.verbose == args.verbose,
            r.max_retries == args.max_retries,
            r.retry_delay == args.retry_delay,
            r.base_path@ == args.path@,
    {
        Uploader {
            upload_url: build_upload_url(args.server.as_str()),
            token: args.token.clone(),
            dry_run: args.dry_run,
            continue_on_error: args.continue_on_error,
            verbose: args.verbose,
            max_retries: args.max_retries,
            retry_delay: args.retry_delay,
            base_path: args.path.clone(),
        }
    }

    /// Starts a run over `files`, in their order. In dry-run mode every file
    /// is recorded as skipped at once and the run asks for no upload.
    pub fn start_run(&self, files: Vec<String>) -> (r: UploadRun)
        ensures
            r.wf(),
            r.files() == files@,
            !self.dry_run ==> r@ == run_initial(files@.len(), self.continue_on_error),
            !self.dry_run ==> r.report().results@.len() == 0,
            self.dry_run ==> r@.next == files@.len() && run_action(r@) is Done,
            self.dry_run ==> r.report().skip_count == files@.len(),
            self.dry_run ==> r.report().success_count == 0 && r.report().error_count == 0,
            self.dry_run ==> forall|j: int|
                0 <= j < files@.len() ==> is_dry_run_report(
                    #[trigger] r.report().results@[j],
                    files@[j]@,
                ),
    {
        let mut run = UploadRun {
            files,
            continue_on_error: self.continue_on_error,
            next: 0,
            stopped: false,
            results: UploadResults::new(),
        };
        if self.dry_run {
            let n = run.files.len();
            while run.next < n
                invariant
                    run.wf(),
                    n == run.files@.len(),
                    run.files@ == files@,
                    !run.stopped,
                    run.continue_on_error == self.continue_on_error,
                    run.results.success_count == 0,
                    run.results.error_count == 0,
                    run.results.skip_count == run.next,
                    forall|j: int|
                        0 <= j < run.next ==> is_dry_run_report(
                            #[trigger] run.results.results@[j],
                            files@[j]@,
                        ),
                decreases n - run.next,
            {
                let path = run.files[run.next].clone();
                run.results.results.push(
                    UploadResult {
                        path,
                        success: false,
                        message: String::from_str("skipped (dry run)"),
                    },
                );
                run.results.skip_count = run.results.skip_count + 1;
                run.next = run.next + 1;
            }
        }
        run
    }
}

/// The record of a file that dry-run mode skipped.
pub open spec fn is_dry_run_report(rep: UploadResult, path: Seq<char>) -> bool {
    &&& rep.path@ == path
    &&& !rep.success
    &&& rep.message@ == "skipped (dry run)"@
}

/// The record of a file whose uploading ended with `result`: success only
/// for an imported chart, with the server's message or the failure's text.
pub open spec fn is_report_of(
    rep: UploadResult,
    path: Seq<char>,
    result: Result<ImportResult, UploadError>,
) -> bool {
    &&& rep.path@ == path
    &&& match result {
        Ok(body) => rep.success == (outcome_of(body.status@) == UploadOutcome::Imported)
            && rep.message@ == body.message@,
        Err(e) => !rep.success && rep.message@ == error_text(e),
    }
}

/// Counts by outcome and the ordered per-file records of a run.
pub struct UploadResults {
    pub results: Vec<UploadResult>,
    pub success_count: usize,
    pub skip_count: usize,
    pub error_count: usize,
}

impl UploadResults {
    /// Every record is counted exactly once.
    pub open spec fn wf(&self) -> bool {
        self.success_count + self.skip_count + self.error_count == self.results@.len()
    }

    /// An empty report.
    pub fn new() -> (r: Self)
        ensures
            r.wf(),
            r.results@.len() == 0,
            r.success_count == 0 && r.skip_count == 0 && r.error_count == 0,
    {
        UploadResults { results: Vec::new(), success_count: 0, skip_count: 0, error_count: 0 }
    }

    /// Whether any file ended in error.
    pub fn has_errors(&self) -> (r: bool)
        ensures
            r == (self.error_count > 0),
    {
        self.error_count > 0
    }

    /// The process exit code: 1 when errors occurred and errors were not to
    /// be passed over, else 0.
    pub fn exit_code(&self, continue_on_error: bool) -> (r: i32)
        ensures
            r == (if self.error_count > 0 && !continue_on_error {
                1i32
            } else {
                0i32
            }),
    {
        if self.has_errors() && !continue_on_error {
            1
        } else {
            0
        }
    }
}

/// What the caller does next.
#[derive(PartialEq, Eq, Structural, Clone, Copy, Debug)]
pub enum RunAction {
    /// Upload the file at this index, with retries, and record the result.
    Upload(usize),
    /// The run is over.
    Done,
}

/// The abstract state of a run: how many files there are, how many were
/// handled, whether it stopped early, and its error policy.
pub struct RunView {
    pub total: nat,
    pub next: nat,
    pub stopped: bool,
    pub continue_on_error: bool,
}

/// The state of a run over `total` files before any was handled.
pub open spec fn run_initial(total: nat, continue_on_error: bool) -> RunView {
    RunView { total, next: 0, stopped: false, continue_on_error }
}

/// The next file in order, until all were handled or the run stopped.
pub open spec fn run_action(v: RunView) -> RunAction {
    if v.stopped || v.next >= v.total {
        RunAction::Done
    } else {
        RunAction::Upload(v.next as usize)
    }
}

/// The state after recording a file whose uploading ended in a transport
/// failure (`failed`) or in an outcome.
pub open spec fn run_record(v: RunView, failed: bool) -> RunView {
    RunView {
        total: v.total,
        next: v.next + 1,
        stopped: failed && !v.continue_on_error,
        continue_on_error: v.continue_on_error,
    }
}

/// The state reached when the `i`-th file handled from `v` ends in a
/// transport failure exactly when `failures[i]` holds.
pub open spec fn run_drive(v: RunView, failures: Seq<bool>) -> RunView
    decreases failures.len(),
{
    if failures.len() == 0 || run_action(v) is Done {
        v
    } else {
        run_drive(run_record(v, failures[0]), failures.drop_first())
    }
}

/// A run in progress: the files, the position reached, and the report.
pub struct UploadRun {
    files: Vec<String>,
    continue_on_error: bool,
    next: usize,
    stopped: bool,
    results: UploadResults,
}

impl View for UploadRun {
    type V = RunView;

    closed spec fn view(&self) -> RunView {
        RunView {
            total: self.files@.len(),
            next: self.next as nat,
            stopped: self.stopped,
            continue_on_error: self.continue_on_error,
        }
    }
}

impl UploadRun {
    /// The files of the run, in order.
    pub closed spec fn files(&self) -> Seq<String> {
        self.files@
    }

    /// The report so far.
    pub closed spec fn report(&self) -> UploadResults {
        self.results
    }

    /// Exactly the files handled so far have a record, in order, and every
    /// record is counted once.
    pub open spec fn wf(&self) -> bool {
        &&& self@.next <= self@.total
        &&& self@.total == self.files().len()
        &&& self.report().wf()
        &&& self.report().results@.len() == self@.next
        &&& forall|j: int|
            0 <= j < self@.next ==> (#[trigger] self.report().results@[j]).path@
                == self.files()[j]@
    }

    /// What the caller does next.
    pub fn next_action(&self) -> (r: RunAction)
        requires
            self.wf(),
        ensures
            r == run_action(self@),
    {
        if self.stopped || self.next >= self.files.len() {
            RunAction::Done
        } else {
            RunAction::Upload(self.next)
        }
    }

    /// The path of the file at `index`.
    pub fn file(&self, index: usize) -> (r: &String)
        requires
            index < self.files().len(),
        ensures
            *r == self.files()[index as int],
    {
        &self.files[index]
    }

    /// Records how uploading the current file ended: an imported chart
    /// counts as a success, a skipped one as a skip, a rejected one or a
    /// transport failure as an error; a transport failure stops the run
    /// unless errors are passed over.
    pub fn record(&mut self, result: Result<ImportResult, UploadError>)
        requires
            old(self).wf(),
            run_action(old(self)@) is Upload,
        ensures
            final(self).wf(),
            final(self)@ == run_record(old(self)@, result is Err),
            final(self).files() == old(self).files(),
            final(self).report().results@ == old(self).report().results@.push(
                final(self).report().results@.last(),
            ),
            is_report_of(
                final(self).report().results@.last(),
                old(self).files()[old(self)@.next as int]@,
                result,
            ),
            final(self).report().success_count == old(self).report().success_count + (
            if result matches Ok(b) && outcome_of(b.status@) == UploadOutcome::Imported {
                1int
            } else {
                0int
            }),
            final(self).report().skip_count == old(self).report().skip_count + (
            if result matches Ok(b) && outcome_of(b.status@) == UploadOutcome::Skipped {
                1int
            } else {
                0int
            }),
            final(self).report().error_count == old(self).report().error_count + (
            if result is Err || (result matches Ok(b) && outcome_of(b.status@)
                == UploadOutcome::Rejected) {
                1int
            } else {
                0int
            }),
    {
        let total = self.files.len();
        assert(self.next < total);
        let path = self.files[self.next].clone();
        match result {
            Ok(body) => {
                let outcome = classify(&body);
                match outcome {
                    UploadOutcome::Imported => {
                        self.results.success_count = self.results.success_count + 1;
                    },
                    UploadOutcome::Skipped => {
                        self.results.skip_count = self.results.skip_count + 1;
                    },
                    UploadOutcome::Rejected => {
                        self.results.error_count = self.results.error_count + 1;
                    },
                }
                let success = match outcome {
                    UploadOutcome::Imported => true,
                    _ => false,
                };
                self.results.results.push(UploadResult { path, success, message: body.message });
            },
            Err(e) => {
                self.results.error_count = self.results.error_count + 1;
                let message = e.message();
                self.results.results.push(UploadResult { path, success: false, message });
                if !self.continue_on_error {
                    self.stopped = true;
                }
            },
        }
        self.next = self.next + 1;
    }

    /// The report so far, for progress display.
    pub fn results(&self) -> (r: &UploadResults)
        ensures
            *r == self.report(),
    {
        &self.results
    }

    /// Ends the run and hands out its report.
    pub fn into_results(self) -> (r: UploadResults)
        requires
            self.wf(),
        ensures
            r == self.report(),
            r.success_count + r.skip_count + r.error_count == r.results@.len(),
            r.results@.len() == self@.next,
            forall|j: int| 0 <= j < self@.next ==> (#[trigger] r.results@[j]).path@ == self.files()[j]@,
    {
        self.results
    }
}

proof fn lemma_stop_at_failure(v: RunView, failures: Seq<bool>, k: nat)
    requires
        !v.continue_on_error,
        !v.stopped,
        v.next + k < v.total,
        k < failures.len(),
        forall|j: int| 0 <= j < k ==> !failures[j],
        failures[k as int],
    ensures
        run_drive(v, failures).next == v.next + k + 1,
        run_drive(v, failures).stopped,
        run_action(run_drive(v, failures)) is Done,
    decreases k,
{
    let rest = failures.drop_first();
    if k == 0 {
        assert(run_drive(v, failures) == run_drive(run_record(v, true), rest));
    } else {
        assert forall|j: int| 0 <= j < k - 1 implies !rest[j] by {
            assert(rest[j] == failures[j + 1]);
        }
        assert(rest[k - 1] == failures[k as int]);
        lemma_stop_at_failure(run_record(v, failures[0]), rest, (k - 1) as nat);
    }
}

/// When errors are not passed over and file `i` of `n` is the first to end
/// in a transport failure, exactly files `0..=i` are handled and the run
/// ends there.
pub proof fn run_stops_at_first_failure(n: nat, failures: Seq<bool>, i: nat)
    requires
        i < n,
        failures.len() == n,
        forall|j: int| 0 <= j < i ==> !failures[j],
        failures[i as int],
    ensures
        run_drive(run_initial(n, false), failures).next == i + 1,
        run_action(run_drive(run_initial(n, false), failures)) is Done,
{
    lemma_stop_at_failure(run_initial(n, false), failures, i);
}

proof fn lemma_continue_all(v: RunView, failures: Seq<bool>)
    requires
        v.continue_on_error,
        !v.stopped,
        v.next + failures.len() == v.total,
    ensures
        run_drive(v, failures).next == v.total,
        run_action(run_drive(v, failures)) is Done,
    decreases failures.len(),
{
    if failures.len() > 0 {
        lemma_continue_all(run_record(v, failures[0]), failures.drop_first());
    }
}

/// When errors are passed over, all `n` files are handled whatever their
/// results, and only then does the run end.
pub proof fn run_attempts_every_file(n: nat, failures: Seq<bool>)
    requires
        failures.len() == n,
    ensures
        run_drive(run_initial(n, true), failures).next == n,
        run_action(run_drive(run_initial(n, true), failures)) is Done,
{
    lemma_continue_all(run_initial(n, true), failures);
}

} // verus!
