//! The polling scheduler's decisions. The interactive side hands every
//! message of its queue to `PollingScheduler::handle` and carries out the
//! commands that come back; the worker asks `wait_step` on every tick
//! whether to sleep on, to stop, or to ask for the next fetch.

use vstd::prelude::*;
use crate::bandwidth_utils::{rates_at, sampled, BandwidthCounter, TrafficMode, TrafficStatistics};
use crate::modem_utils::{ModemError, ModemStatus};

verus! {

/// How long the worker sleeps between two looks at the clock and at the
/// cancellation signal, in milliseconds.
pub const POLL_TICK_MS: u64 = 100;

/// The number of poll intervals on offer.
pub const POLL_TIMEOUT_COUNT: usize = 7;

/// The poll intervals on offer, in seconds.
pub open spec fn poll_timeout(index: int) -> u64 {
    if index == 0 {
        1
    } else if index == 1 {
        2
    } else if index == 2 {
        5
    } else if index == 3 {
        10
    } else if index == 4 {
        15
    } else if index == 5 {
        30
    } else {
        60
    }
}

/// The poll interval at `index` of the list of choices.
pub fn get_poll_timeout(index: usize) -> (r: u64)
    requires
        index < POLL_TIMEOUT_COUNT,
    ensures
        r == poll_timeout(index as int),
{
    if index == 0 {
        1
    } else if index == 1 {
        2
    } else if index == 2 {
        5
    } else if index == 3 {
        10
    } else if index == 4 {
        15
    } else if index == 5 {
        30
    } else {
        60
    }
}

/// The vendors whose modems can be polled.
#[derive(Copy, Clone, PartialEq, Eq, Structural, Debug)]
pub enum Vendor {
    Netgear,
    Huawei,
}

/// The vendor behind a manufacturer number; none for a number that
/// stands for no vendor, which a fetch answers with `ModemError::Unknown`.
pub fn vendor_by_id(manufacturer_id: i32) -> (r: Option<Vendor>)
    ensures
        r == if manufacturer_id == 0 {
            Some(Vendor::Netgear)
        } else if manufacturer_id == 1 {
            Some(Vendor::Huawei)
        } else {
            None
        },
{
    if manufacturer_id == 0 {
        Some(Vendor::Netgear)
    } else if manufacturer_id == 1 {
        Some(Vendor::Huawei)
    } else {
        None
    }
}

/// What travels through the interactive side's queue.
#[derive(Clone, Debug, PartialEq, Eq)]
pub enum Message {
    /// A fetch is asked for.
    GetInfo,
    /// Polling is switched on or off.
    StartStopPolling,
    /// A fetch gave this record.
    ReceivedInfo(Box<ModemStatus>),
    /// A fetch went well.
    InfoOk,
    /// A fetch failed.
    InfoError(ModemError),
    /// The program is to end.
    Quit,
}

/// A message without what it carries.
#[derive(Copy, Clone, PartialEq, Eq, Structural, Debug)]
pub enum MessageKind {
    GetInfo,
    StartStopPolling,
    ReceivedInfo,
    InfoOk,
    InfoError(ModemError),
    Quit,
}

impl Message {
    /// The message without what it carries.
    pub open spec fn kind(&self) -> MessageKind {
        match self {
            Message::GetInfo => MessageKind::GetInfo,
            Message::StartStopPolling => MessageKind::StartStopPolling,
            Message::ReceivedInfo(_) => MessageKind::ReceivedInfo,
            Message::InfoOk => MessageKind::InfoOk,
            Message::InfoError(e) => MessageKind::InfoError(*e),
            Message::Quit => MessageKind::Quit,
        }
    }
}

/// What the interactive side is to do, in the order given.
#[derive(Copy, Clone, PartialEq, Eq, Structural, Debug)]
pub enum Command {
    /// Put `Message::GetInfo` into the queue.
    RequestFetch,
    /// Start a worker for the scheduler's host, vendor and interval.
    SpawnWorker,
    /// Signal cancellation to the worker.
    SignalCancel,
    /// Wait until the worker has ended.
    JoinWorker,
    /// Show that polling is on.
    PollStarted,
    /// Show that polling is off.
    PollStopped,
    /// Show the record that the message carries.
    ShowStatus,
    /// Show that the last fetch went well.
    ClearError,
    /// Show why the last fetch failed.
    ShowError(ModemError),
    /// Leave the message loop.
    Shutdown,
}

/// What the user has chosen at the moment.
#[derive(Clone, Debug, PartialEq, Eq)]
pub struct PollSettings {
    pub manufacturer_id: i32,
    pub host: String,
    pub interval_secs: u64,
}

/// The scheduler's state as plain values.
pub struct SchedulerView {
    /// Whether polling is on.
    pub running: bool,
    /// The host captured when polling was switched on.
    pub host: Seq<char>,
    pub manufacturer_id: i32,
    pub interval_secs: u64,
    /// Whether a worker was started and not joined since.
    pub worker: bool,
}

/// What is commanded to end a worker: nothing where there is none.
pub open spec fn end_worker(s: SchedulerView) -> Seq<Command> {
    if s.worker {
        seq![Command::SignalCancel, Command::JoinWorker]
    } else {
        Seq::empty()
    }
}

/// The commands that answer a message.
///
/// Switching polling on captures the settings and asks for a fetch at
/// once. Switching it off, and quitting, cancel the worker and wait for
/// it before anything else. A fetch is only started while polling is on,
/// and only after the worker before it was waited for.
pub open spec fn commands(s: SchedulerView, message: MessageKind) -> Seq<Command> {
    match message {
        MessageKind::StartStopPolling => if s.running {
            end_worker(s).push(Command::PollStopped)
        } else {
            seq![Command::RequestFetch, Command::PollStarted]
        },
        MessageKind::GetInfo => if !s.running {
            Seq::empty()
        } else if s.worker {
            seq![Command::JoinWorker, Command::SpawnWorker]
        } else {
            seq![Command::SpawnWorker]
        },
        MessageKind::ReceivedInfo => seq![Command::ShowStatus],
        MessageKind::InfoOk => seq![Command::ClearError],
        MessageKind::InfoError(e) => seq![Command::ShowError(e)],
        MessageKind::Quit => end_worker(s).push(Command::Shutdown),
    }
}

/// The state after a message.
pub open spec fn next_state(
    s: SchedulerView,
    message: MessageKind,
    host: Seq<char>,
    manufacturer_id: i32,
    interval_secs: u64,
) -> SchedulerView {
    match message {
        MessageKind::StartStopPolling => if s.running {
            SchedulerView { running: false, worker: false, ..s }
        } else {
            SchedulerView { running: true, host, manufacturer_id, interval_secs, worker: s.worker }
        },
        MessageKind::GetInfo => if s.running {
            SchedulerView { worker: true, ..s }
        } else {
            s
        },
        MessageKind::Quit => SchedulerView { running: false, worker: false, ..s },
        _ => s,
    }
}

/// Decides when fetches start and stop.
pub struct PollingScheduler {
    run_poller: bool,
    host_address: String,
    manufacturer_id: i32,
    poller_timeout_secs: u64,
    worker: bool,
}

impl View for PollingScheduler {
    type V = SchedulerView;

    closed spec fn view(&self) -> SchedulerView {
        SchedulerView {
            running: self.run_poller,
            host: self.host_address@,
            manufacturer_id: self.manufacturer_id,
            interval_secs: self.poller_timeout_secs,
            worker: self.worker,
        }
    }
}

impl PollingScheduler {
    /// A scheduler at rest, set to two seconds between fetches.
    pub fn new() -> (r: Self)
        ensures
            r@ == (SchedulerView {
                running: false,
                host: Seq::<char>::empty(),
                manufacturer_id: 0,
                interval_secs: 2,
                worker: false,
            }),
    {
        PollingScheduler {
            run_poller: false,
            host_address: String::new(),
            manufacturer_id: 0,
            poller_timeout_secs: 2,
            worker: false,
        }
    }

    pub fn is_running(&self) -> (r: bool)
        ensures
            r == self@.running,
    {
        self.run_poller
    }

    pub fn host(&self) -> (r: &str)
        ensures
            r@ == self@.host,
    {
        self.host_address.as_str()
    }

    pub fn manufacturer_id(&self) -> (r: i32)
        ensures
            r == self@.manufacturer_id,
    {
        self.manufacturer_id
    }

    pub fn interval_secs(&self) -> (r: u64)
        ensures
            r == self@.interval_secs,
    {
        self.poller_timeout_secs
    }

    fn push_end_worker(&self, out: &mut Vec<Command>)
        ensures
            final(out)@ == old(out)@ + end_worker(self@),
    {
        if self.worker {
            out.push(Command::SignalCancel);
            out.push(Command::JoinWorker);
        }
    }

    /// Takes one message from the queue and says what is to be done.
    pub fn handle(&mut self, message: &Message, settings: &PollSettings) -> (r: Vec<Command>)
        ensures
            r@ == commands(old(self)@, message.kind()),
            final(self)@ == next_state(
                old(self)@,
                message.kind(),
                settings.host@,
                settings.manufacturer_id,
                settings.interval_secs,
            ),
    {
        let mut out: Vec<Command> = Vec::new();
        match message {
            Message::StartStopPolling => {
                if self.run_poller {
                    self.push_end_worker(&mut out);
                    out.push(Command::PollStopped);
                    self.run_poller = false;
                    self.worker = false;
                } else {
                    self.run_poller = true;
                    self.manufacturer_id = settings.manufacturer_id;
                    self.host_address = settings.host.clone();
                    self.poller_timeout_secs = settings.interval_secs;
                    out.push(Command::RequestFetch);
                    out.push(Command::PollStarted);
                }
            },
            Message::GetInfo => {
                if self.run_poller {
                    if self.worker {
                        out.push(Command::JoinWorker);
                    }
                    out.push(Command::SpawnWorker);
                    self.worker = true;
                }
            },
            Message::ReceivedInfo(_) => {
                out.push(Command::ShowStatus);
            },
            Message::InfoOk => {
                out.push(Command::ClearError);
            },
            Message::InfoError(e) => {
                out.push(Command::ShowError(*e));
            },
            Message::Quit => {
                self.push_end_worker(&mut out);
                out.push(Command::Shutdown);
                self.run_poller = false;
                self.worker = false;
            },
        }
        out
    }
}

/// What a worker does after a tick of its wait.
#[derive(Copy, Clone, PartialEq, Eq, Structural, Debug)]
pub enum WaitStep {
    /// Sleep for another tick.
    Sleep,
    /// End without asking for anything.
    Stop,
    /// Ask for the next fetch, then end.
    NextFetch,
}

/// The worker's decision after a tick. Cancellation comes first: a
/// cancelled worker asks for nothing, whatever the clock says. Else the
/// next fetch is due once the interval has passed since the fetch was
/// started, and also where the clock cannot tell how long it has been.
pub open spec fn wait_decision(cancelled: bool, elapsed_ms: Option<u128>, interval_secs: u64)
    -> WaitStep {
    if cancelled {
        WaitStep::Stop
    } else {
        match elapsed_ms {
            Some(t) => if t >= interval_secs * 1000 {
                WaitStep::NextFetch
            } else {
                WaitStep::Sleep
            },
            None => WaitStep::NextFetch,
        }
    }
}

/// The worker's decision after a tick of its wait.
pub fn wait_step(cancelled: bool, elapsed_ms: Option<u128>, interval_secs: u64) -> (r: WaitStep)
    ensures
        r == wait_decision(cancelled, elapsed_ms, interval_secs),
{
    if cancelled {
        WaitStep::Stop
    } else {
        match elapsed_ms {
            Some(t) => {
                let interval_ms: u128 = (interval_secs as u128) * 1000;
                if t >= interval_ms {
                    WaitStep::NextFetch
                } else {
                    WaitStep::Sleep
                }
            },
            None => WaitStep::NextFetch,
        }
    }
}

/// The messages that a worker sends after a fetch: the record and then
/// the good news, or the error.
pub fn fetch_messages(result: Result<ModemStatus, ModemError>) -> (r: Vec<Message>)
    ensures
        match result {
            Ok(status) => r@ == seq![Message::ReceivedInfo(Box::new(status)), Message::InfoOk],
            Err(e) => r@ == seq![Message::InfoError(e)],
        },
{
    let mut out: Vec<Message> = Vec::new();
    match result {
        Ok(status) => {
            out.push(Message::ReceivedInfo(Box::new(status)));
            out.push(Message::InfoOk);
        },
        Err(e) => {
            out.push(Message::InfoError(e));
        },
    }
    out
}

/// The label under which an error is shown.
pub fn error_label(e: ModemError) -> (r: &'static str)
    ensures
        r@ == match e {
            ModemError::HttpConnection => "HTTP Error"@,
            ModemError::Access => "Access Error"@,
            ModemError::DataParsing => "Data Parsing Error"@,
            ModemError::Unknown => "Unknown error"@,
        },
{
    match e {
        ModemError::HttpConnection => "HTTP Error",
        ModemError::Access => "Access Error",
        ModemError::DataParsing => "Data Parsing Error",
        ModemError::Unknown => "Unknown error",
    }
}

/// The rates to show for a record taken at the time `now`: those that
/// the record holds where its traffic figures are rates, and those that
/// the counter derives where they are running totals. The counter is
/// only touched in the second case.
pub fn bandwidth_at(counter: &mut BandwidthCounter, status: &ModemStatus, now: u128) -> (r: Option<
    TrafficStatistics,
>)
    ensures
        r == match status.traffic_statistics {
            Some(traffic) => match status.traffic_mode {
                TrafficMode::Absolute => Some(traffic),
                TrafficMode::Cumulative => rates_at(old(counter)@, now, traffic),
            },
            None => None,
        },
        final(counter)@ == match status.traffic_statistics {
            Some(traffic) => match status.traffic_mode {
                TrafficMode::Absolute => old(counter)@,
                TrafficMode::Cumulative => sampled(now, traffic),
            },
            None => old(counter)@,
        },
{
    match status.traffic_statistics {
        Some(traffic_statistics) => match status.traffic_mode {
            TrafficMode::Absolute => Some(traffic_statistics),
            TrafficMode::Cumulative => counter.update_at(now, traffic_statistics),
        },
        None => None,
    }
}

/// The rates to show for a record that has just come in: as
/// `bandwidth_at` for what the clock reads.
pub fn bandwidth_now(counter: &mut BandwidthCounter, status: &ModemStatus) -> (r: Option<
    TrafficStatistics,
>)
    ensures
        match status.traffic_statistics {
            Some(traffic) => match status.traffic_mode {
                TrafficMode::Absolute => r == Some(traffic) && final(counter)@ == old(counter)@,
                TrafficMode::Cumulative => exists|now: u128|
                    r == rates_at(old(counter)@, now, traffic) && final(counter)@
                        == #[trigger] sampled(now, traffic),
            },
            None => r is None && final(counter)@ == old(counter)@,
        },
{
    match status.traffic_statistics {
        Some(traffic_statistics) => match status.traffic_mode {
            TrafficMode::Absolute => Some(traffic_statistics),
            TrafficMode::Cumulative => counter.update_with_total_values(traffic_statistics),
        },
        None => None,
    }
}

impl SchedulerView {
    /// A worker is only held while polling is on.
    pub open spec fn consistent(self) -> bool {
        self.worker ==> self.running
    }
}

/// No message brings the scheduler to hold a worker while polling is
/// off; and a worker is only started while polling is on, after the one
/// before it was waited for.
pub proof fn lemma_worker_only_while_polling(
    s: SchedulerView,
    message: MessageKind,
    host: Seq<char>,
    manufacturer_id: i32,
    interval_secs: u64,
)
    requires
        s.consistent(),
    ensures
        next_state(s, message, host, manufacturer_id, interval_secs).consistent(),
        commands(s, message).contains(Command::SpawnWorker) ==> s.running && message
            == MessageKind::GetInfo,
        commands(s, message).contains(Command::SpawnWorker) && s.worker ==> commands(s, message)
            == seq![Command::JoinWorker, Command::SpawnWorker],
{
    let c = commands(s, message);
    if c.contains(Command::SpawnWorker) {
        let i = choose|i: int| 0 <= i < c.len() && c[i] == Command::SpawnWorker;
        assert(c[i] == Command::SpawnWorker);
    }
}

/// Switching polling off ends the worker before anything else: the
/// worker is told to stop and is waited for. After that the scheduler
/// holds no worker, and a request for a fetch that is still in the queue
/// starts none.
pub proof fn lemma_stop_ends_all_fetching(
    s: SchedulerView,
    host: Seq<char>,
    manufacturer_id: i32,
    interval_secs: u64,
)
    requires
        s.running,
    ensures
        ({
            let stopped = next_state(
                s,
                MessageKind::StartStopPolling,
                host,
                manufacturer_id,
                interval_secs,
            );
            &&& !stopped.running
            &&& !stopped.worker
            &&& commands(s, MessageKind::StartStopPolling) == if s.worker {
                seq![Command::SignalCancel, Command::JoinWorker, Command::PollStopped]
            } else {
                seq![Command::PollStopped]
            }
            &&& commands(stopped, MessageKind::GetInfo) == Seq::<Command>::empty()
            &&& next_state(stopped, MessageKind::GetInfo, host, manufacturer_id, interval_secs)
                == stopped
        }),
{
    assert(seq![Command::SignalCancel, Command::JoinWorker].push(Command::PollStopped) =~= seq![
        Command::SignalCancel,
        Command::JoinWorker,
        Command::PollStopped,
    ]);
    assert(Seq::<Command>::empty().push(Command::PollStopped) =~= seq![Command::PollStopped]);
}

/// Polling that is switched on and off again at once has started no
/// worker and starts none: the request for the first fetch finds polling
/// off when it comes out of the queue.
pub proof fn lemma_start_then_stop_fetches_nothing(
    s: SchedulerView,
    host: Seq<char>,
    manufacturer_id: i32,
    interval_secs: u64,
)
    requires
        !s.running,
        !s.worker,
    ensures
        ({
            let started = next_state(
                s,
                MessageKind::StartStopPolling,
                host,
                manufacturer_id,
                interval_secs,
            );
            let stopped = next_state(
                started,
                MessageKind::StartStopPolling,
                host,
                manufacturer_id,
                interval_secs,
            );
            &&& commands(s, MessageKind::StartStopPolling) == seq![
                Command::RequestFetch,
                Command::PollStarted,
            ]
            &&& commands(started, MessageKind::StartStopPolling) == seq![Command::PollStopped]
            &&& !stopped.running && !stopped.worker
            &&& commands(stopped, MessageKind::GetInfo) == Seq::<Command>::empty()
        }),
{
    assert(Seq::<Command>::empty().push(Command::PollStopped) =~= seq![Command::PollStopped]);
}

/// A worker that sees the cancellation signal asks for no further fetch,
/// whatever the clock says.
pub proof fn lemma_cancelled_worker_stops(elapsed_ms: Option<u128>, interval_secs: u64)
    ensures
        wait_decision(true, elapsed_ms, interval_secs) == WaitStep::Stop,
{
}

} // verus!
