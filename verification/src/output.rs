//! What the core prints when it rejects a configuration.

use crate::text::{find_text, rfind_char, spec_find_text, spec_rfind, to_chars};
use vstd::prelude::*;
use vstd::string::StringExecFns;

verus! {

/// The message of a log line such as
/// `time="..." level=error msg="proxy 0: missing type"`: what stands between
/// the quote that opens the message and the last quote of the output. The
/// message is the one behind `level=error msg=` where the output has that,
/// else the one behind the first `msg=`.
pub open spec fn spec_log_message(log: Seq<char>) -> Option<Seq<char>> {
    let time = spec_find_text(log, "time="@);
    let msg = spec_find_text(log, "msg="@);
    let quote = spec_rfind(log, '"');
    if time is Some && msg is Some && quote is Some && quote->0 > msg->0 {
        let from = match spec_find_text(log, "level=error msg="@) {
            Some(at) => at + 17,
            None => msg->0 + 5,
        };
        if from <= quote->0 {
            Some(log.subrange(from, quote->0))
        } else {
            None
        }
    } else {
        None
    }
}

/// The error of a plain report such as `error=... path=...`: what stands
/// between `error=` and the blank before `path=`, or before the end of the
/// output where it names no path.
pub open spec fn spec_plain_error(log: Seq<char>) -> Option<Seq<char>> {
    match spec_find_text(log, "error="@) {
        Some(left) => {
            let right = match spec_find_text(log, "path="@) {
                Some(right) => right,
                None => log.len() as int,
            };
            if left + 6 <= right - 1 {
                Some(log.subrange(left + 6, right - 1))
            } else {
                None
            }
        },
        None => None,
    }
}

/// The error that the output of a validate-only run reports: the message of
/// its log line, else its plain error, else the output as it is.
pub open spec fn spec_check_error(log: Seq<char>) -> Seq<char> {
    match spec_log_message(log) {
        Some(message) => message,
        None => match spec_plain_error(log) {
            Some(error) => error,
            None => log,
        },
    }
}

fn log_message(log: &str, chars: &Vec<char>) -> (message: Option<String>)
    requires
        chars@ == log@,
    ensures
        match message {
            Some(message) => spec_log_message(log@) == Some(message@),
            None => spec_log_message(log@) is None,
        },
{
    let time = find_text(chars, &to_chars("time="));
    let msg = find_text(chars, &to_chars("msg="));
    let quote = rfind_char(chars, '"');
    match (time, msg, quote) {
        (Some(_), Some(msg), Some(quote)) => {
            if quote <= msg {
                return None;
            }
            let from = match find_text(chars, &to_chars("level=error msg=")) {
                Some(at) => if quote >= 17 && at <= quote - 17 {
                    at + 17
                } else {
                    return None;
                },
                None => if quote >= 5 && msg <= quote - 5 {
                    msg + 5
                } else {
                    return None;
                },
            };
            Some(String::from_str(log.substring_char(from, quote)))
        },
        _ => None,
    }
}

fn plain_error(log: &str, chars: &Vec<char>) -> (error: Option<String>)
    requires
        chars@ == log@,
    ensures
        match error {
            Some(error) => spec_plain_error(log@) == Some(error@),
            None => spec_plain_error(log@) is None,
        },
{
    let total = chars.len();
    let word = to_chars("error=");
    proof {
        reveal_strlit("error=");
        assert(word@.len() == 6);
    }
    let left = match find_text(chars, &word) {
        Some(left) => left,
        None => {
            return None;
        },
    };
    let right = match find_text(chars, &to_chars("path=")) {
        Some(right) => right,
        None => total,
    };
    if right >= 1 && left + 6 <= right - 1 {
        Some(String::from_str(log.substring_char(left + 6, right - 1)))
    } else {
        None
    }
}

/// The error that the output of a validate-only run reports.
pub fn parse_check_output(log: &str) -> (error: String)
    ensures
        error@ == spec_check_error(log@),
{
    let chars = to_chars(log);
    match log_message(log, &chars) {
        Some(message) => message,
        None => match plain_error(log, &chars) {
            Some(error) => error,
            None => String::from_str(log),
        },
    }
}

} // verus!
