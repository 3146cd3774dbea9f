//! The state the application keeps about its download back-end: whether
//! one was started, on which port, and whether a book is being fetched
//! (one at a time).

use vstd::prelude::*;

verus! {

/// Whether the back-end runs, and its port (0 when none was started).
#[derive(PartialEq, Eq, Structural, Debug, Clone, Copy)]
pub struct BackendStatus {
    pub running: bool,
    pub port: u16,
}

/// A started back-end: its port and whether a download is under way.
#[derive(PartialEq, Eq, Structural, Debug, Clone, Copy)]
pub struct BackendRecord {
    pub port: u16,
    pub fetching: bool,
}

/// The back-end slot: empty, or the record of the started back-end.
pub struct BackendSlot {
    current: Option<BackendRecord>,
}

impl View for BackendSlot {
    type V = Option<BackendRecord>;

    closed spec fn view(&self) -> Option<BackendRecord> {
        self.current
    }
}

/// The message when no back-end was started.
pub open spec fn not_ready_message() -> Seq<char> {
    "下载后台未就绪"@
}

/// The message when the back-end's process has ended.
pub open spec fn stopped_message() -> Seq<char> {
    "下载后台已停止"@
}

/// The message when a download is already under way.
pub open spec fn busy_message() -> Seq<char> {
    "已有下载任务正在进行"@
}

/// The port a request goes to, given whether the back-end's process is
/// alive.
pub open spec fn request_port(s: Option<BackendRecord>, alive: bool) -> Result<u16, Seq<char>> {
    match s {
        Some(b) => if alive {
            Ok(b.port)
        } else {
            Err(stopped_message())
        },
        None => Err(not_ready_message()),
    }
}

/// The status reported, given whether the back-end's process is alive.
pub open spec fn status_of(s: Option<BackendRecord>, alive: bool) -> BackendStatus {
    match s {
        Some(b) => BackendStatus { running: alive, port: b.port },
        None => BackendStatus { running: false, port: 0 },
    }
}

/// Why a download may not start now, if it may not.
pub open spec fn fetch_refusal(s: Option<BackendRecord>) -> Option<Seq<char>> {
    match s {
        Some(b) => if b.fetching {
            Some(busy_message())
        } else {
            None
        },
        None => Some(not_ready_message()),
    }
}

/// The slot once a download starts (unchanged when it is refused).
pub open spec fn fetch_started(s: Option<BackendRecord>) -> Option<BackendRecord> {
    match s {
        Some(b) => Some(BackendRecord { port: b.port, fetching: true }),
        None => None,
    }
}

/// The slot once a download has ended.
pub open spec fn fetch_ended(s: Option<BackendRecord>) -> Option<BackendRecord> {
    match s {
        Some(b) => Some(BackendRecord { port: b.port, fetching: false }),
        None => None,
    }
}

/// The slot once a back-end has been started on `port`.
pub open spec fn installed(port: u16) -> Option<BackendRecord> {
    Some(BackendRecord { port, fetching: false })
}

impl BackendSlot {
    /// An empty slot.
    pub fn new() -> (r: BackendSlot)
        ensures
            r@ is None,
    {
        BackendSlot { current: None }
    }

    /// Records a back-end started on `port`, replacing any earlier record.
    pub fn install(&mut self, port: u16)
        ensures
            final(self)@ == installed(port),
    {
        self.current = Some(BackendRecord { port, fetching: false });
    }

    /// Empties the slot; tells whether a back-end was recorded.
    pub fn shut_down(&mut self) -> (had: bool)
        ensures
            had == old(self)@ is Some,
            final(self)@ is None,
    {
        let had = self.current.is_some();
        self.current = None;
        had
    }

    /// The port requests go to, given whether the back-end's process is
    /// alive.
    pub fn port_for_request(&self, alive: bool) -> (r: Result<u16, String>)
        ensures
            match r {
                Ok(p) => request_port(self@, alive) == Ok::<u16, Seq<char>>(p),
                Err(e) => request_port(self@, alive) == Err::<u16, Seq<char>>(e@),
            },
    {
        match self.current {
            Some(b) => if alive {
                Ok(b.port)
            } else {
                Err(String::from_str("下载后台已停止"))
            },
            None => Err(String::from_str("下载后台未就绪")),
        }
    }

    /// The status to report, given whether the back-end's process is alive.
    pub fn status(&self, alive: bool) -> (r: BackendStatus)
        ensures
            r == status_of(self@, alive),
    {
        match self.current {
            Some(b) => BackendStatus { running: alive, port: b.port },
            None => BackendStatus { running: false, port: 0 },
        }
    }

    /// Starts a download when none is under way; refuses otherwise, leaving
    /// the slot as it was.
    pub fn begin_fetch(&mut self) -> (r: Result<(), String>)
        ensures
            r is Ok <==> fetch_refusal(old(self)@) is None,
            r matches Err(e) ==> fetch_refusal(old(self)@) == Some(e@),
            r is Ok ==> final(self)@ == fetch_started(old(self)@),
            r is Err ==> final(self)@ == old(self)@,
    {
        match self.current {
            Some(b) => {
                if b.fetching {
                    Err(String::from_str("已有下载任务正在进行"))
                } else {
                    self.current = Some(BackendRecord { port: b.port, fetching: true });
                    Ok(())
                }
            },
            None => Err(String::from_str("下载后台未就绪")),
        }
    }

    /// Marks the download as ended.
    pub fn end_fetch(&mut self)
        ensures
            final(self)@ == fetch_ended(old(self)@),
    {
        match self.current {
            Some(b) => {
                self.current = Some(BackendRecord { port: b.port, fetching: false });
            },
            None => {},
        }
    }
}

/// Law: one book at a time. Once a download has started, another is
/// refused as busy until the first one ends.
pub proof fn downloads_exclusive(s: Option<BackendRecord>)
    requires
        fetch_refusal(s) is None,
    ensures
        fetch_refusal(fetch_started(s)) == Some(busy_message()),
        fetch_refusal(fetch_ended(fetch_started(s))) is None,
{
}

/// Law: a freshly started back-end accepts a download, reports its port,
/// and takes requests on that port while its process is alive.
pub proof fn started_backend_serves(port: u16, alive: bool)
    ensures
        fetch_refusal(installed(port)) is None,
        status_of(installed(port), alive) == (BackendStatus { running: alive, port }),
        alive ==> request_port(installed(port), alive) == Ok::<u16, Seq<char>>(port),
        !alive ==> request_port(installed(port), alive) == Err::<u16, Seq<char>>(stopped_message()),
{
}

/// Law: after shutting down, requests and downloads are refused as "not
/// ready" and the status is "not running on port 0".
pub proof fn shut_down_refuses(alive: bool)
    ensures
        request_port(None, alive) == Err::<u16, Seq<char>>(not_ready_message()),
        fetch_refusal(None) == Some(not_ready_message()),
        status_of(None, alive) == (BackendStatus { running: false, port: 0 }),
{
}

/// Law: ending a download keeps the back-end's port.
pub proof fn fetch_keeps_port(s: Option<BackendRecord>, alive: bool)
    ensures
        request_port(fetch_started(s), alive) == request_port(s, alive),
        request_port(fetch_ended(s), alive) == request_port(s, alive),
        status_of(fetch_started(s), alive) == status_of(s, alive),
{
}

} // verus!
