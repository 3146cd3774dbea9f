//! The pid file through which a back-end left over by an earlier run is
//! found and ended.

use vstd::prelude::*;
use crate::text::{
    all_digits, decimal, decimal_parse_round_trip, lemma_decimal_digits, decimal_string, is_digit, is_white,
    parse_u32, parsed_u32, trim, trim_end, trim_start, trimmed,
};

verus! {

/// The text written to the pid file for the process `pid`.
pub fn pid_file_text(pid: u32) -> (r: String)
    ensures
        r@ == decimal(pid as nat),
{
    decimal_string(pid as u64)
}

/// Whether shutting down must end a back-end through the pid file: exactly
/// when this run holds no back-end process, so one left by an update or a
/// failed start is still ended.
pub fn cleanup_by_pid_file(held_process: bool) -> (r: bool)
    ensures
        r == !held_process,
{
    !held_process
}

/// The pid a pid file's contents name, if any: the contents without
/// surrounding white space, read as a `u32` (`None` when the file could not
/// be read).
pub open spec fn recorded_pid(contents: Option<Seq<char>>) -> Option<u32> {
    match contents {
        Some(t) => parsed_u32(trimmed(t)),
        None => None,
    }
}

/// The process a pid file asks to end, given its contents when it could be
/// read.
pub fn kill_pid_file(contents: Option<&str>) -> (r: Option<u32>)
    ensures
        r == recorded_pid(
            match contents {
                Some(t) => Some(t@),
                None => None,
            },
        ),
{
    match contents {
        Some(t) => {
            let s = trim(t);
            parse_u32(s.as_str())
        },
        None => None,
    }
}

proof fn lemma_digits_untrimmed(s: Seq<char>)
    requires
        s.len() > 0,
        all_digits(s),
    ensures
        trimmed(s) == s,
{
    assert(is_digit(s[0]));
    assert(!is_white(s[0]));
    assert(trim_start(s) == s);
    assert(is_digit(s[s.len() - 1]));
    assert(trim_end(s) == s);
}

/// Law: the pid file written for a process names that process, so a
/// later start ends the back-end an earlier run left behind.
pub proof fn pid_file_round_trip(pid: u32)
    ensures
        recorded_pid(Some(decimal(pid as nat))) == Some(pid),
{
    lemma_decimal_digits(pid as nat);
    lemma_digits_untrimmed(decimal(pid as nat));
    decimal_parse_round_trip(pid);
}

} // verus!
