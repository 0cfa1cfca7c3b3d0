//! The run's configuration, with the defaults applied to what the command
//! line left out.

use vstd::prelude::*;
use crate::error::UploadError;
use vstd::string::*;

verus! {

/// Retries allowed after the first attempt when none is given.
pub const DEFAULT_MAX_RETRIES: u32 = 3;

/// Seconds between attempts when none is given.
pub const DEFAULT_RETRY_DELAY: u64 = 1;

/// The configuration of one run.
pub struct Args {
    pub path: String,
    pub server: String,
    pub token: String,
    pub dry_run: bool,
    pub yes: bool,
    pub continue_on_error: bool,
    pub verbose: bool,
    pub max_retries: u32,
    pub retry_delay: u64,
}

/// The values read from the command line; the numeric settings may be absent.
pub struct ArgValues {
    pub path: String,
    pub server: String,
    pub token: String,
    pub dry_run: bool,
    pub yes: bool,
    pub continue_on_error: bool,
    pub verbose: bool,
    pub max_retries: Option<u32>,
    pub retry_delay: Option<u64>,
}

/// Builds the configuration, taking 3 retries and a 1 second delay where
/// the command line gave none.
pub fn parse_args(values: ArgValues) -> (r: Result<Args, UploadError>)
    ensures
        r is Ok,
        r matches Ok(a) && {
            &&& a.path == values.path
            &&& a.server == values.server
            &&& a.token == values.token
            &&& a.dry_run == values.dry_run
            &&& a.yes == values.yes
            &&& a.continue_on_error == values.continue_on_error
            &&& a.verbose == values.verbose
            &&& a.max_retries == match values.max_retries {
                Some(n) => n,
                None => DEFAULT_MAX_RETRIES,
            }
            &&& a.retry_delay == match values.retry_delay {
                Some(n) => n,
                None => DEFAULT_RETRY_DELAY,
            }
        },
{
    let max_retries = match values.max_retries {
        Some(n) => n,
        None => DEFAULT_MAX_RETRIES,
    };
    let retry_delay = match values.retry_delay {
        Some(n) => n,
        None => DEFAULT_RETRY_DELAY,
    };
    Ok(
        Args {
            path: values.path,
            server: values.server,
            token: values.token,
            dry_run: values.dry_run,
            yes: values.yes,
            continue_on_error: values.continue_on_error,
            verbose: values.verbose,
            max_retries,
            retry_delay,
        },
    )
}

/// What `str::trim` makes of a string.
pub uninterp spec fn trimmed(s: Seq<char>) -> Seq<char>;

/// Relies on `str::trim` of std: the string without its leading and
/// trailing whitespace; the result depends on the characters alone.
#[verifier::external_body]
fn trim_str(s: &str) -> (r: &str)
    ensures
        r@ == trimmed(s@),
{
    s.trim()
}

/// Whether an answer says yes: `y` in either case, and nothing else.
pub open spec fn is_yes(answer: Seq<char>) -> bool {
    answer == seq!['y'] || answer == seq!['Y']
}

/// Whether an answer, already trimmed, says yes.
pub fn is_yes_answer(answer: &str) -> (r: bool)
    ensures
        r == is_yes(answer@),
{
    let n = answer.unicode_len();
    if n != 1 {
        return false;
    }
    let c = answer.get_char(0);
    assert(c == 'y' ==> answer@ =~= seq!['y']);
    assert(c == 'Y' ==> answer@ =~= seq!['Y']);
    c == 'y' || c == 'Y'
}

/// Whether a line typed at the confirmation prompt accepts the upload:
/// after trimming whitespace it is `y` in either case.
pub fn confirms(line: &str) -> (r: bool)
    ensures
        r == is_yes(trimmed(line@)),
{
    is_yes_answer(trim_str(line))
}

} // verus!
