//! Reading the cookie-fetching script's answer, and the retry schedule.

use vstd::prelude::*;

use crate::text::{chars_of, string_from_chars, trim, trim_exec};

verus! {

/// Why no cf_clearance cookie came back from the fetching script.
#[derive(Debug)]
pub enum FetchFailure {
    /// The script exited unsuccessfully; its error output.
    ScriptFailed(String),
    /// The script succeeded but printed no cookie.
    NoCookie,
}

/// The cookie that the fetching script reported, from whether it succeeded,
/// what it printed and what it printed as errors: its trimmed output, where
/// it succeeded and printed something.
pub fn cookie_from_script_output(success: bool, stdout: &str, stderr: &str) -> (r: Result<
    String,
    FetchFailure,
>)
    ensures
        match r {
            Ok(cookie) => success && trim(stdout@).len() > 0 && cookie@ == trim(stdout@),
            Err(FetchFailure::ScriptFailed(e)) => !success && e@ == stderr@,
            Err(FetchFailure::NoCookie) => success && trim(stdout@).len() == 0,
        },
{
    if !success {
        return Err(FetchFailure::ScriptFailed(stderr.to_string()));
    }
    let cookie = trim_exec(&chars_of(stdout));
    if cookie.len() == 0 {
        return Err(FetchFailure::NoCookie);
    }
    Ok(string_from_chars(&cookie))
}

/// The wait before the next attempt after `k + 1` failed attempts: 5 seconds
/// after the first, doubled after each further one, at most 30.
pub open spec fn retry_delay(k: nat) -> nat
    decreases k,
{
    if k == 0 {
        5
    } else {
        let d = 2 * retry_delay((k - 1) as nat);
        if d < 30 {
            d
        } else {
            30
        }
    }
}

/// Where a cookie fetch with retries stands: the number of the attempt that
/// comes next and the wait in seconds after it, should it fail.
#[derive(Clone, Copy, Debug, PartialEq, Eq)]
pub struct Backoff {
    pub attempt: u64,
    pub delay_secs: u64,
}

impl Backoff {
    /// The first attempt, with a 5 second wait after it.
    pub fn first() -> (b: Backoff)
        ensures
            b.attempt == 1,
            b.delay_secs == retry_delay(0),
    {
        Backoff { attempt: 1, delay_secs: 5 }
    }

    /// The next attempt after this one failed: the wait doubles, up to 30
    /// seconds.
    pub fn next(&self) -> (b: Backoff)
        requires
            self.attempt < u64::MAX,
            self.delay_secs <= u64::MAX / 2,
        ensures
            b.attempt == self.attempt + 1,
            b.delay_secs == (if 2 * self.delay_secs < 30 {
                2 * self.delay_secs
            } else {
                30
            }),
    {
        let doubled = self.delay_secs * 2;
        Backoff { attempt: self.attempt + 1, delay_secs: if doubled < 30 { doubled } else { 30 } }
    }
}

/// The waits between attempts grow 5, 10, 20 seconds and then stay at 30:
/// every wait lies between 5 and 30 seconds, no wait is shorter than the one
/// before, and from the fourth on each is 30.
pub proof fn retry_delay_schedule(k: nat)
    ensures
        5 <= retry_delay(k) <= 30,
        retry_delay(k) <= retry_delay(k + 1),
        k == 1 ==> retry_delay(k) == 10,
        k == 2 ==> retry_delay(k) == 20,
        k >= 3 ==> retry_delay(k) == 30,
    decreases k,
{
    if k > 0 {
        retry_delay_schedule((k - 1) as nat);
    }
    assert(retry_delay(k + 1) == (if 2 * retry_delay(k) < 30 {
        2 * retry_delay(k)
    } else {
        30
    }));
}

} // verus!
