use chart_uploader::cli::Args;
use chart_uploader::error::UploadError;
use chart_uploader::models::{ApiResponse, ImportResult};
use chart_uploader::response::evaluate_response;
use chart_uploader::upload::{RunAction, UploadResults, Uploader};

fn args(dry_run: bool, continue_on_error: bool) -> Args {
    Args {
        path: "charts".to_string(),
        server: "https://ir.example.org/".to_string(),
        token: "SECRET-REDACTED".to_string(),
        dry_run,
        yes: true,
        continue_on_error,
        verbose: false,
        max_retries: 3,
        retry_delay: 1,
    }
}

fn files(n: usize) -> Vec<String> {
    (0..n).map(|i| format!("charts/song{}.ksh", i)).collect()
}

fn body(status: &str, message: &str) -> ImportResult {
    ImportResult {
        chart_hash: "h".to_string(),
        title: "t".to_string(),
        artist: "a".to_string(),
        level: 1,
        difficulty: 0,
        status: status.to_string(),
        message: message.to_string(),
    }
}

/// Runs over `n` files, handing file `i` the result `outcome(i)`; returns
/// the report and the indices that were asked for.
fn run(
    a: &Args,
    n: usize,
    outcome: impl Fn(usize) -> Result<ImportResult, UploadError>,
) -> (UploadResults, Vec<usize>) {
    let uploader = Uploader::new(a);
    let mut r = uploader.start_run(files(n));
    let mut asked = Vec::new();
    while let RunAction::Upload(i) = r.next_action() {
        assert_eq!(r.file(i), &format!("charts/song{}.ksh", i));
        asked.push(i);
        r.record(outcome(i));
    }
    (r.into_results(), asked)
}

fn counts_match(r: &UploadResults) -> bool {
    r.success_count + r.skip_count + r.error_count == r.results.len()
}

#[test]
fn counts_add_up_to_records() {
    let (r, _) = run(&args(false, true), 5, |i| match i {
        0 => Ok(body("imported", "new")),
        1 => Ok(body("skipped", "exists")),
        2 => Ok(body("weird", "corrupt chart")),
        3 => Err(UploadError::Http("timeout".to_string())),
        _ => Ok(body("imported", "new")),
    });
    assert!(counts_match(&r));
    assert_eq!(r.success_count, 2);
    assert_eq!(r.skip_count, 1);
    assert_eq!(r.error_count, 2);
    assert_eq!(r.results.len(), 5);
}

#[test]
fn dry_run_skips_everything_without_uploading() {
    let (r, asked) = run(&args(true, false), 4, |_| panic!("no upload in dry run"));
    assert!(asked.is_empty());
    assert_eq!(r.skip_count, 4);
    assert_eq!(r.success_count, 0);
    assert_eq!(r.error_count, 0);
    assert!(counts_match(&r));
    for (i, rec) in r.results.iter().enumerate() {
        assert_eq!(rec.path, format!("charts/song{}.ksh", i));
        assert!(!rec.success);
        assert_eq!(rec.message, "skipped (dry run)");
    }
}

#[test]
fn failure_stops_run_without_continue() {
    let (r, asked) = run(&args(false, false), 5, |i| {
        if i == 2 { Err(UploadError::Other("HTTP error: 500".to_string())) } else { Ok(body("imported", "")) }
    });
    assert_eq!(asked, vec![0, 1, 2]);
    assert_eq!(r.results.len(), 3);
    assert_eq!(r.results[2].path, "charts/song2.ksh");
    assert_eq!(r.results[2].message, "HTTP error: 500");
    assert!(!r.results[2].success);
    assert_eq!(r.success_count, 2);
    assert_eq!(r.error_count, 1);
    assert!(counts_match(&r));
    assert_eq!(r.exit_code(false), 1);
}

#[test]
fn rejection_does_not_stop_run() {
    let (r, asked) = run(&args(false, false), 3, |i| {
        if i == 0 { Ok(body("weird", "corrupt chart")) } else { Ok(body("skipped", "exists")) }
    });
    assert_eq!(asked, vec![0, 1, 2]);
    assert_eq!(r.error_count, 1);
    assert_eq!(r.skip_count, 2);
    assert_eq!(r.results[0].message, "corrupt chart");
}

#[test]
fn continue_on_error_attempts_all_files() {
    let (r, asked) = run(&args(false, true), 4, |_| {
        Err(UploadError::ServerError { code: 40, message: "Unauthorized".to_string() })
    });
    assert_eq!(asked, vec![0, 1, 2, 3]);
    assert_eq!(r.error_count, 4);
    assert_eq!(r.results[3].message, "Server error (code 40): Unauthorized");
    assert_eq!(r.exit_code(true), 0);
    assert_eq!(r.exit_code(false), 1);
}

#[test]
fn code_twenty_five_outcomes_are_counted() {
    let (r, _) = run(&args(false, true), 3, |i| match i {
        0 => Ok(body("imported", "new")),
        1 => Ok(body("skipped", "already there")),
        _ => Ok(body("weird", "strange status")),
    });
    assert_eq!((r.success_count, r.skip_count, r.error_count), (1, 1, 1));
    assert!(r.results[0].success);
    assert!(!r.results[1].success);
    assert_eq!(r.results[1].message, "already there");
    assert!(!r.results[2].success);
    assert_eq!(r.results[2].message, "strange status");
}

#[test]
fn empty_run_is_done_at_once() {
    let (r, asked) = run(&args(false, false), 0, |_| panic!("no file"));
    assert!(asked.is_empty());
    assert!(r.results.is_empty());
    assert!(!r.has_errors());
    assert_eq!(r.exit_code(false), 0);
}

#[test]
fn uploader_builds_url_and_copies_settings() {
    let u = Uploader::new(&args(false, true));
    assert_eq!(u.upload_url, "https://ir.example.org/charts/import/ksh");
    assert_eq!(u.token, "SECRET-REDACTED");
    assert!(u.continue_on_error);
    assert_eq!(u.max_retries, 3);
    assert_eq!(u.retry_delay, 1);
    assert_eq!(u.base_path, "charts");
}

#[test]
fn envelope_with_code_twenty_five_is_counted_by_status() {
    let statuses = ["imported", "skipped", "weird"];
    let (r, _) = run(&args(false, true), 3, |i| {
        let env = ApiResponse {
            status_code: 25,
            description: "ok".to_string(),
            body: Some(body(statuses[i], "inner message")),
        };
        evaluate_response(200, Ok(env))
    });
    assert_eq!((r.success_count, r.skip_count, r.error_count), (1, 1, 1));
    assert_eq!(r.results[2].message, "inner message");
}

#[test]
fn envelope_with_code_forty_is_an_error_even_on_http_success() {
    let (r, asked) = run(&args(false, false), 2, |_| {
        let env = ApiResponse {
            status_code: 40,
            description: "Unauthorized".to_string(),
            body: Some(body("imported", "")),
        };
        evaluate_response(200, Ok(env))
    });
    assert_eq!(asked, vec![0]);
    assert_eq!(r.error_count, 1);
    assert_eq!(r.success_count, 0);
    assert_eq!(r.results[0].message, "Server error (code 40): Unauthorized");
}
