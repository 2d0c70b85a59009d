use vstd::prelude::*;
use vstd::string::*;

verus! {

/// The engine's tag for a line of information about the running command.
pub const NOTIFY_CMD_INFO: u32 = 4;

/// The engine's tag for the size of a transfer.
pub const NOTIFY_TRANS_SIZE: u32 = 7;

/// The engine's tag for the position reached in a transfer.
pub const NOTIFY_TRANS_POS: u32 = 8;

/// Transfers smaller than this show no progress.
pub const PROGRESS_FLOOR: u64 = 40;

/// The text kept when the engine sends information without any text.
pub const NULL_INFO: &'static str = "<NULL_INFO>";

/// An event that the engine sends while it runs a command.
#[derive(Debug)]
pub enum Notification {
    /// A transfer starts, of this many units.
    TransferSize(u64),
    /// The transfer has reached this unit.
    TransferPosition(u64),
    /// A line of information, or `None` when the engine sent no text.
    CommandInfo(Option<String>),
    /// Any other event, with the engine's tag for it.
    Other(u32),
}

/// The engine's tag for the event.
pub open spec fn kind_of(n: Notification) -> u32 {
    match n {
        Notification::TransferSize(_) => NOTIFY_TRANS_SIZE,
        Notification::TransferPosition(_) => NOTIFY_TRANS_POS,
        Notification::CommandInfo(_) => NOTIFY_CMD_INFO,
        Notification::Other(k) => k,
    }
}

/// What the console shows after an event.
#[derive(Debug)]
pub enum Output {
    /// Nothing.
    Nothing,
    /// The progress of the transfer, in percent; a complete transfer ends its
    /// line, an incomplete one is overwritten by the next.
    Progress { percent: u128, complete: bool },
    /// The engine's text, as it is.
    Info(String),
}

/// The running state of the engine's progress and status.
#[derive(Debug)]
pub struct NotificationHandler {
    pub total: u64,
    pub current: u64,
    pub notification_type: u32,
    pub last_notification_type: u32,
    pub info: String,
}

/// The handler's state as plain values.
pub struct HandlerView {
    pub total: u64,
    pub current: u64,
    pub kind: u32,
    pub last_kind: u32,
    pub info: Seq<char>,
}

impl View for NotificationHandler {
    type V = HandlerView;

    open spec fn view(&self) -> HandlerView {
        HandlerView {
            total: self.total,
            current: self.current,
            kind: self.notification_type,
            last_kind: self.last_notification_type,
            info: self.info@,
        }
    }
}

/// `floor(current * 100 / total)`.
pub open spec fn percent_of(current: u64, total: u64) -> int
    recommends
        total > 0,
{
    (current as int * 100) / (total as int)
}

/// Whether the state shows progress: after a position in a transfer of at
/// least `PROGRESS_FLOOR` units.
pub open spec fn shows_progress(h: HandlerView) -> bool {
    h.kind == NOTIFY_TRANS_POS && h.total >= PROGRESS_FLOOR
}

/// Whether the state shows the engine's text.
pub open spec fn shows_info(h: HandlerView) -> bool {
    h.kind == NOTIFY_CMD_INFO && h.info.len() > 0
}

/// Whether `r` is what the console shows for the state `h`: the progress,
/// the text after non-empty information, and nothing otherwise.
pub open spec fn is_output_of(r: Output, h: HandlerView) -> bool {
    if shows_progress(h) {
        r == Output::Progress {
            percent: percent_of(h.current, h.total) as u128,
            complete: percent_of(h.current, h.total) >= 100,
        }
    } else if shows_info(h) {
        r is Info && r->Info_0@ == h.info
    } else {
        r is Nothing
    }
}

/// The handler's state after the event `n`: the previous kind is the kind
/// that was current, the current kind is `n`'s, and the payload is stored.
pub open spec fn notified(h: HandlerView, n: Notification) -> HandlerView {
    let h1 = HandlerView { last_kind: h.kind, kind: kind_of(n), ..h };
    match n {
        Notification::TransferSize(t) => HandlerView { total: t, ..h1 },
        Notification::TransferPosition(c) => HandlerView { current: c, ..h1 },
        Notification::CommandInfo(Some(s)) => HandlerView { info: s@, ..h1 },
        Notification::CommandInfo(None) => HandlerView { info: NULL_INFO@, ..h1 },
        Notification::Other(_) => h1,
    }
}

impl NotificationHandler {
    /// A handler that has seen no event.
    pub fn new() -> (r: NotificationHandler)
        ensures
            r.total == 0,
            r.current == 0,
            r.notification_type == 0,
            r.last_notification_type == 0,
            r@.info.len() == 0,
    {
        NotificationHandler {
            total: 0,
            current: 0,
            notification_type: 0,
            last_notification_type: 0,
            info: String::new(),
        }
    }

    /// What the console shows for the current state.
    pub fn print(&self) -> (r: Output)
        ensures
            is_output_of(r, self@),
    {
        if self.notification_type == NOTIFY_TRANS_POS {
            if self.total < PROGRESS_FLOOR {
                Output::Nothing
            } else {
                let percent = (self.current as u128 * 100) / (self.total as u128);
                Output::Progress { percent, complete: percent >= 100 }
            }
        } else if self.notification_type == NOTIFY_CMD_INFO {
            if self.info.as_str().is_empty() {
                Output::Nothing
            } else {
                Output::Info(self.info.clone())
            }
        } else {
            Output::Nothing
        }
    }

    /// Takes in the event `n` and says what the console shows for it.
    pub fn notify(&mut self, n: Notification) -> (r: Output)
        ensures
            final(self)@ == notified(old(self)@, n),
            is_output_of(r, final(self)@),
    {
        self.last_notification_type = self.notification_type;
        match n {
            Notification::TransferSize(t) => {
                self.notification_type = NOTIFY_TRANS_SIZE;
                self.total = t;
            },
            Notification::TransferPosition(c) => {
                self.notification_type = NOTIFY_TRANS_POS;
                self.current = c;
            },
            Notification::CommandInfo(s) => {
                self.notification_type = NOTIFY_CMD_INFO;
                self.info = match s {
                    Some(s) => s,
                    None => String::from_str(NULL_INFO),
                };
            },
            Notification::Other(k) => {
                self.notification_type = k;
            },
        }
        self.print()
    }
}

} // verus!
