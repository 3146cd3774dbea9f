//! The decisions taken while the back-end starts and runs: which port to
//! try, when it is ready or has failed, and which progress events its
//! event stream carries.

use vstd::prelude::*;
use crate::json::{JsonDoc, json_parses, json_str_member, json_u64_member};
use crate::text::{signed_decimal, signed_decimal_string, strip_prefix, trim, trimmed};

verus! {

/// The first port tried for the back-end's web interface.
pub const BASE_PORT: u16 = 7765;

/// How many ports are tried, upward from `BASE_PORT`.
pub const MAX_PORT_TRY: u16 = 50;

/// How long the back-end may take to start, in seconds.
pub const READY_TIMEOUT_SECS: u64 = 30;

/// How long one readiness probe may take, in seconds.
pub const PROBE_TIMEOUT_SECS: u64 = 2;

/// The pause between readiness probes, in milliseconds.
pub const PROBE_INTERVAL_MILLIS: u64 = 300;

/// The next port to try, or `None` once all have been tried.
pub open spec fn scan_candidate(next: u16) -> Option<u16> {
    if next < BASE_PORT + MAX_PORT_TRY {
        Some(next)
    } else {
        None
    }
}

/// The search for a free port: ports are tried one at a time, upward from
/// `BASE_PORT`, until one is free or `MAX_PORT_TRY` have been tried.
pub struct PortScan {
    next: u16,
}

impl View for PortScan {
    type V = u16;

    closed spec fn view(&self) -> u16 {
        self.next
    }
}

/// What the port search does next.
pub enum ScanStep {
    /// Try to bind this port.
    Try(u16),
    /// Every port was taken; the message says so.
    GiveUp(String),
}

impl PortScan {
    /// A search that starts at `BASE_PORT`.
    pub fn new() -> (r: PortScan)
        ensures
            r@ == BASE_PORT,
    {
        PortScan { next: BASE_PORT }
    }

    /// The next port to try, or giving up once all have been tried.
    pub fn step(&self) -> (r: ScanStep)
        ensures
            scan_candidate(self@) matches Some(p) ==> r == ScanStep::Try(p),
            scan_candidate(self@) is None ==> (r matches ScanStep::GiveUp(m) && m@
                == "找不到可用的下载后台端口"@),
    {
        if self.next < BASE_PORT + MAX_PORT_TRY {
            ScanStep::Try(self.next)
        } else {
            ScanStep::GiveUp(String::from_str("找不到可用的下载后台端口"))
        }
    }

    /// The port just tried was taken: move to the next one.
    pub fn port_taken(&mut self)
        requires
            scan_candidate(old(self)@) is Some,
        ensures
            final(self)@ == old(self)@ + 1,
    {
        self.next = self.next + 1;
    }
}

/// The port the search settles on when `free(p)` tells whether port `p`
/// can be bound: the machine's own steps, from `next` on.
pub open spec fn scan_settles(next: u16, free: spec_fn(u16) -> bool) -> Option<u16>
    decreases (BASE_PORT + MAX_PORT_TRY) - next,
{
    match scan_candidate(next) {
        Some(p) => if free(p) {
            Some(p)
        } else {
            scan_settles((p + 1) as u16, free)
        },
        None => None,
    }
}

proof fn lemma_scan_settles_from(next: u16, free: spec_fn(u16) -> bool)
    requires
        BASE_PORT <= next <= BASE_PORT + MAX_PORT_TRY,
    ensures
        scan_settles(next, free) matches Some(p) ==> next <= p < BASE_PORT + MAX_PORT_TRY && free(
            p,
        ) && forall|q: u16| next <= q < p ==> !#[trigger] free(q),
        scan_settles(next, free) is None ==> forall|q: u16|
            next <= q < BASE_PORT + MAX_PORT_TRY ==> !#[trigger] free(q),
    decreases (BASE_PORT + MAX_PORT_TRY) - next,
{
    if next < BASE_PORT + MAX_PORT_TRY && !free(next) {
        lemma_scan_settles_from((next + 1) as u16, free);
    }
}

/// Law: the search settles on the lowest port of its range that is free,
/// and gives up only when every port of the range is taken.
pub proof fn scan_finds_lowest_free_port(free: spec_fn(u16) -> bool)
    ensures
        scan_settles(BASE_PORT, free) matches Some(p) ==> BASE_PORT <= p < BASE_PORT
            + MAX_PORT_TRY && free(p) && forall|q: u16| BASE_PORT <= q < p ==> !#[trigger] free(q),
        scan_settles(BASE_PORT, free) is None ==> forall|q: u16|
            BASE_PORT <= q < BASE_PORT + MAX_PORT_TRY ==> !#[trigger] free(q),
{
    lemma_scan_settles_from(BASE_PORT, free);
}

/// What was learnt of the back-end's process while waiting for it.
pub enum ChildState {
    /// Still running.
    Running,
    /// Ended, with its exit code when it has one.
    Exited { code: Option<i32> },
    /// Its state could not be read; the message says why.
    Unknown { error: String },
}

/// Whether the back-end counts as running: its process has not ended, or
/// its state could not be read; with no process held, it does not.
pub open spec fn counts_as_running(child: Option<ChildState>) -> bool {
    match child {
        Some(ChildState::Exited { .. }) => false,
        Some(_) => true,
        None => false,
    }
}

/// Whether the back-end counts as running (see `counts_as_running`).
pub fn process_alive(child: Option<&ChildState>) -> (r: bool)
    ensures
        r == counts_as_running(
            match child {
                Some(c) => Some(*c),
                None => None,
            },
        ),
{
    match child {
        Some(ChildState::Exited { .. }) => false,
        Some(_) => true,
        None => false,
    }
}

/// The message when the process ended while starting.
pub open spec fn exited_message(code: Option<i32>) -> Seq<char> {
    "下载后台启动失败（进程已退出，退出码 "@ + signed_decimal(
        match code {
            Some(c) => c as int,
            None => -1,
        },
    ) + "）"@
}

/// The error that ends the wait, if the process's state gives one: an
/// ended process (exit code -1 when it has none), or the error reading
/// its state.
pub fn child_exit_error(child: &ChildState) -> (r: Option<String>)
    ensures
        *child matches ChildState::Running ==> r is None,
        *child matches ChildState::Exited { code } ==> (r matches Some(m) && m@ == exited_message(
            code,
        )),
        *child matches ChildState::Unknown { error } ==> (r matches Some(m) && m@ == error@),
{
    match child {
        ChildState::Running => None,
        ChildState::Exited { code } => {
            let c: i64 = match code {
                Some(c) => *c as i64,
                None => -1,
            };
            let mut m = String::from_str("下载后台启动失败（进程已退出，退出码 ");
            let d = signed_decimal_string(c);
            m.append(d.as_str());
            m.append("）");
            Some(m)
        },
        ChildState::Unknown { error } => Some(error.clone()),
    }
}

/// What the wait does after a readiness probe.
pub enum ReadyStep {
    /// The web interface answered 200: the back-end is ready.
    Ready,
    /// The deadline passed; the message says so.
    TimedOut(String),
    /// Probe again after a pause.
    Retry,
}

/// Decides after a probe: ready on status 200, else timed out once the
/// deadline has passed, else retry. `status` is `None` when the probe got
/// no answer.
pub fn ready_step(status: Option<u16>, past_deadline: bool) -> (r: ReadyStep)
    ensures
        status == Some(200u16) ==> r matches ReadyStep::Ready,
        status != Some(200u16) && past_deadline ==> (r matches ReadyStep::TimedOut(m) && m@
            == "下载后台启动超时"@),
        status != Some(200u16) && !past_deadline ==> r matches ReadyStep::Retry,
{
    if status == Some(200u16) {
        ReadyStep::Ready
    } else if past_deadline {
        ReadyStep::TimedOut(String::from_str("下载后台启动超时"))
    } else {
        ReadyStep::Retry
    }
}

/// One progress event of a download: chapters done and in all.
#[derive(PartialEq, Eq, Structural, Debug, Clone, Copy)]
pub struct DownloadProgress {
    pub total: u64,
    pub index: u64,
}

/// The progress event a line of the event stream carries, once the
/// response headers are past: a `data:` line whose JSON has
/// `type` = `download-progress`; missing counts read as 0.
pub open spec fn progress_event(line: Seq<char>) -> Option<DownloadProgress> {
    if "data:"@.is_prefix_of(line) {
        let payload = trimmed(line.skip("data:"@.len() as int));
        if json_parses(payload) && json_str_member(payload, "type"@) == Some(
            "download-progress"@,
        ) {
            Some(
                DownloadProgress {
                    total: match json_u64_member(payload, "total"@) {
                        Some(t) => t,
                        None => 0,
                    },
                    index: match json_u64_member(payload, "index"@) {
                        Some(i) => i,
                        None => 0,
                    },
                },
            )
        } else {
            None
        }
    } else {
        None
    }
}

/// Reads the back-end's download-progress event stream line by line: the
/// response headers, up to the first empty line, are skipped; after them
/// each line may carry a progress event.
pub struct ProgressReader {
    headers_done: bool,
}

impl View for ProgressReader {
    type V = bool;

    closed spec fn view(&self) -> bool {
        self.headers_done
    }
}

impl ProgressReader {
    /// A reader at the start of the response.
    pub fn new() -> (r: ProgressReader)
        ensures
            !r@,
    {
        ProgressReader { headers_done: false }
    }

    /// Reads one line (without its line break).
    pub fn feed_line(&mut self, line: &str) -> (r: Option<DownloadProgress>)
        ensures
            !old(self)@ ==> r is None && final(self)@ == (line@.len() == 0),
            old(self)@ ==> final(self)@ && r == progress_event(line@),
    {
        if !self.headers_done {
            if line.is_empty() {
                self.headers_done = true;
            }
            return None;
        }
        let rest = match strip_prefix(line, "data:") {
            Some(rest) => rest,
            None => return None,
        };
        let payload = trim(rest.as_str());
        let doc = match JsonDoc::parse(payload.as_str()) {
            Ok(doc) => doc,
            Err(_) => return None,
        };
        let kind = doc.str_member("type");
        let is_progress = match kind {
            Some(k) => k == String::from_str("download-progress"),
            None => false,
        };
        if !is_progress {
            return None;
        }
        let total = match doc.u64_member("total") {
            Some(t) => t,
            None => 0,
        };
        let index = match doc.u64_member("index") {
            Some(i) => i,
            None => 0,
        };
        Some(DownloadProgress { total, index })
    }
}

/// Law: which lines carry a progress event, and what it holds. A line
/// `data:<payload>` whose trimmed payload parses with `type` equal to
/// `download-progress` carries an event whose total and index are exactly
/// the payload's unsigned `total` and `index` members, 0 for one that is
/// missing or not an unsigned integer; no other line carries one.
pub proof fn progress_events_carry_counts(line: Seq<char>)
    ensures
        !seq!['d', 'a', 't', 'a', ':'].is_prefix_of(line) ==> progress_event(line) is None,
        seq!['d', 'a', 't', 'a', ':'].is_prefix_of(line) && !(json_parses(trimmed(line.skip(5)))
            && json_str_member(trimmed(line.skip(5)), "type"@) == Some("download-progress"@))
            ==> progress_event(line) is None,
        seq!['d', 'a', 't', 'a', ':'].is_prefix_of(line) && json_parses(trimmed(line.skip(5)))
            && json_str_member(trimmed(line.skip(5)), "type"@) == Some("download-progress"@)
            ==> {
            &&& progress_event(line) is Some
            &&& json_u64_member(trimmed(line.skip(5)), "total"@) matches Some(t) ==> progress_event(
                line,
            )->0.total == t
            &&& json_u64_member(trimmed(line.skip(5)), "total"@) is None ==> progress_event(
                line,
            )->0.total == 0
            &&& json_u64_member(trimmed(line.skip(5)), "index"@) matches Some(i) ==> progress_event(
                line,
            )->0.index == i
            &&& json_u64_member(trimmed(line.skip(5)), "index"@) is None ==> progress_event(
                line,
            )->0.index == 0
        },
{
    reveal_strlit("data:");
    assert("data:"@ =~= seq!['d', 'a', 't', 'a', ':']);
}

} // verus!
