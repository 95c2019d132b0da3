use antenna_status::bandwidth_utils::{BandwidthCounter, TrafficMode, TrafficStatistics};
use antenna_status::modem_utils::{
    DeviceInformation, ModemError, ModemStatus, NetworkMode, PlmnStatus, SignalInfo,
};
use antenna_status::scheduler::{
    bandwidth_at, error_label, fetch_messages, get_poll_timeout, vendor_by_id, wait_step, Command,
    Message, PollSettings, PollingScheduler, Vendor, WaitStep, POLL_TICK_MS, POLL_TIMEOUT_COUNT,
};

fn settings(host: &str, interval_secs: u64) -> PollSettings {
    PollSettings { manufacturer_id: 1, host: String::from(host), interval_secs }
}

fn record(traffic: Option<TrafficStatistics>, traffic_mode: TrafficMode) -> ModemStatus {
    ModemStatus {
        mode: NetworkMode::Unknown,
        plmn: PlmnStatus::from_str("00000").unwrap(),
        rssi: 0,
        cell_id: 0,
        signal_info: SignalInfo::NoInfo,
        band: String::new(),
        device_info: DeviceInformation::from("HUAWEI", ""),
        battery_status: None,
        device_temp: None,
        traffic_statistics: traffic,
        traffic_mode,
    }
}

#[test]
fn poll_timeouts_on_offer() {
    let all: Vec<u64> = (0..POLL_TIMEOUT_COUNT).map(get_poll_timeout).collect();
    assert_eq!(all, vec![1, 2, 5, 10, 15, 30, 60]);
    assert_eq!(POLL_TICK_MS, 100);
}

#[test]
fn vendors_by_number() {
    assert_eq!(vendor_by_id(0), Some(Vendor::Netgear));
    assert_eq!(vendor_by_id(1), Some(Vendor::Huawei));
    assert_eq!(vendor_by_id(2), None);
    assert_eq!(vendor_by_id(-1), None);
}

#[test]
fn a_new_scheduler_is_at_rest() {
    let scheduler = PollingScheduler::new();
    assert!(!scheduler.is_running());
    assert_eq!(scheduler.interval_secs(), 2);
    assert_eq!(scheduler.host(), "");
    assert_eq!(scheduler.manufacturer_id(), 0);
}

#[test]
fn start_captures_the_settings_and_asks_for_a_fetch() {
    let mut scheduler = PollingScheduler::new();
    let commands = scheduler.handle(&Message::StartStopPolling, &settings("192.168.8.1", 5));
    assert_eq!(commands, vec![Command::RequestFetch, Command::PollStarted]);
    assert!(scheduler.is_running());
    assert_eq!(scheduler.host(), "192.168.8.1");
    assert_eq!(scheduler.manufacturer_id(), 1);
    assert_eq!(scheduler.interval_secs(), 5);
    // settings that change while polling is on are not taken up
    let commands = scheduler.handle(&Message::GetInfo, &settings("10.0.0.1", 60));
    assert_eq!(commands, vec![Command::SpawnWorker]);
    assert_eq!(scheduler.host(), "192.168.8.1");
    assert_eq!(scheduler.interval_secs(), 5);
}

#[test]
fn start_then_stop_at_once_starts_no_fetch() {
    let now = settings("192.168.8.1", 2);
    let mut scheduler = PollingScheduler::new();
    assert_eq!(
        scheduler.handle(&Message::StartStopPolling, &now),
        vec![Command::RequestFetch, Command::PollStarted]
    );
    // no worker was started yet: there is nothing to cancel or to wait for
    assert_eq!(scheduler.handle(&Message::StartStopPolling, &now), vec![Command::PollStopped]);
    assert!(!scheduler.is_running());
    // the fetch that was asked for comes out of the queue now, and is dropped
    assert_eq!(scheduler.handle(&Message::GetInfo, &now), vec![]);
    assert_eq!(scheduler.handle(&Message::GetInfo, &now), vec![]);
    assert!(!scheduler.is_running());
}

#[test]
fn stop_cancels_the_worker_and_waits_for_it() {
    let now = settings("192.168.8.1", 2);
    let mut scheduler = PollingScheduler::new();
    scheduler.handle(&Message::StartStopPolling, &now);
    assert_eq!(scheduler.handle(&Message::GetInfo, &now), vec![Command::SpawnWorker]);
    assert_eq!(
        scheduler.handle(&Message::StartStopPolling, &now),
        vec![Command::SignalCancel, Command::JoinWorker, Command::PollStopped]
    );
    assert_eq!(scheduler.handle(&Message::GetInfo, &now), vec![]);
    // started again, the scheduler has no worker to wait for
    assert_eq!(
        scheduler.handle(&Message::StartStopPolling, &now),
        vec![Command::RequestFetch, Command::PollStarted]
    );
    assert_eq!(scheduler.handle(&Message::GetInfo, &now), vec![Command::SpawnWorker]);
}

#[test]
fn the_next_fetch_waits_for_the_worker_before_it() {
    let now = settings("192.168.8.1", 2);
    let mut scheduler = PollingScheduler::new();
    scheduler.handle(&Message::StartStopPolling, &now);
    assert_eq!(scheduler.handle(&Message::GetInfo, &now), vec![Command::SpawnWorker]);
    assert_eq!(
        scheduler.handle(&Message::GetInfo, &now),
        vec![Command::JoinWorker, Command::SpawnWorker]
    );
    assert_eq!(
        scheduler.handle(&Message::GetInfo, &now),
        vec![Command::JoinWorker, Command::SpawnWorker]
    );
}

#[test]
fn results_are_shown_whether_polling_is_on_or_off() {
    let now = settings("192.168.8.1", 2);
    let status = Message::ReceivedInfo(Box::new(record(None, TrafficMode::Absolute)));
    let mut scheduler = PollingScheduler::new();
    assert_eq!(scheduler.handle(&status, &now), vec![Command::ShowStatus]);
    assert_eq!(scheduler.handle(&Message::InfoOk, &now), vec![Command::ClearError]);
    assert_eq!(
        scheduler.handle(&Message::InfoError(ModemError::Access), &now),
        vec![Command::ShowError(ModemError::Access)]
    );
    assert!(!scheduler.is_running());
    scheduler.handle(&Message::StartStopPolling, &now);
    assert_eq!(scheduler.handle(&status, &now), vec![Command::ShowStatus]);
    assert!(scheduler.is_running());
}

#[test]
fn quit_ends_the_worker_first() {
    let now = settings("192.168.8.1", 2);
    let mut scheduler = PollingScheduler::new();
    assert_eq!(scheduler.handle(&Message::Quit, &now), vec![Command::Shutdown]);
    scheduler.handle(&Message::StartStopPolling, &now);
    scheduler.handle(&Message::GetInfo, &now);
    assert_eq!(
        scheduler.handle(&Message::Quit, &now),
        vec![Command::SignalCancel, Command::JoinWorker, Command::Shutdown]
    );
    assert!(!scheduler.is_running());
    assert_eq!(scheduler.handle(&Message::GetInfo, &now), vec![]);
}

#[test]
fn the_worker_waits_until_cancelled_or_due() {
    assert_eq!(wait_step(false, Some(0), 2), WaitStep::Sleep);
    assert_eq!(wait_step(false, Some(100), 2), WaitStep::Sleep);
    assert_eq!(wait_step(false, Some(1999), 2), WaitStep::Sleep);
    assert_eq!(wait_step(false, Some(2000), 2), WaitStep::NextFetch);
    assert_eq!(wait_step(false, Some(2001), 2), WaitStep::NextFetch);
    assert_eq!(wait_step(false, Some(59_999), 60), WaitStep::Sleep);
    assert_eq!(wait_step(false, Some(60_000), 60), WaitStep::NextFetch);
    assert_eq!(wait_step(false, Some(0), 0), WaitStep::NextFetch);
    assert_eq!(wait_step(false, None, 2), WaitStep::NextFetch);
    assert_eq!(wait_step(false, Some(u128::MAX), u64::MAX), WaitStep::NextFetch);
    assert_eq!(wait_step(false, Some(18_446_744_073_709_551_614_999), u64::MAX), WaitStep::Sleep);
}

#[test]
fn a_cancelled_worker_asks_for_nothing() {
    assert_eq!(wait_step(true, Some(0), 2), WaitStep::Stop);
    assert_eq!(wait_step(true, Some(2000), 2), WaitStep::Stop);
    assert_eq!(wait_step(true, Some(5000), 2), WaitStep::Stop);
    assert_eq!(wait_step(true, None, 2), WaitStep::Stop);
}

#[test]
fn a_fetch_is_reported_in_order() {
    let status = record(None, TrafficMode::Absolute);
    assert_eq!(
        fetch_messages(Ok(status.clone())),
        vec![Message::ReceivedInfo(Box::new(status)), Message::InfoOk]
    );
    for e in [
        ModemError::HttpConnection,
        ModemError::Access,
        ModemError::DataParsing,
        ModemError::Unknown,
    ] {
        assert_eq!(fetch_messages(Err(e)), vec![Message::InfoError(e)]);
    }
}

#[test]
fn error_labels() {
    assert_eq!(error_label(ModemError::HttpConnection), "HTTP Error");
    assert_eq!(error_label(ModemError::Access), "Access Error");
    assert_eq!(error_label(ModemError::DataParsing), "Data Parsing Error");
    assert_eq!(error_label(ModemError::Unknown), "Unknown error");
}

const T: u128 = 1_700_000_000_000_000_000;

#[test]
fn absolute_figures_are_shown_as_they_are() {
    let mut counter = BandwidthCounter::new_at(T);
    let traffic = TrafficStatistics { dl: 8000, ul: 200 };
    let status = record(Some(traffic), TrafficMode::Absolute);
    assert_eq!(bandwidth_at(&mut counter, &status, T + 1), Some(traffic));
    assert_eq!(bandwidth_at(&mut counter, &status, T + 2), Some(traffic));
    // the counter was not touched: its first sample is still to come
    assert_eq!(counter.update_at(T + 3, traffic), None);
}

#[test]
fn cumulative_figures_go_through_the_counter() {
    let mut counter = BandwidthCounter::new_at(T);
    let first = record(Some(TrafficStatistics { dl: 1000, ul: 500 }), TrafficMode::Cumulative);
    let second = record(Some(TrafficStatistics { dl: 1800, ul: 900 }), TrafficMode::Cumulative);
    assert_eq!(bandwidth_at(&mut counter, &first, T), None);
    assert_eq!(
        bandwidth_at(&mut counter, &second, T + 1_000_000_000),
        Some(TrafficStatistics { dl: 800, ul: 400 })
    );
}

#[test]
fn a_record_without_traffic_figures_shows_none() {
    let mut counter = BandwidthCounter::new_at(T);
    assert_eq!(bandwidth_at(&mut counter, &record(None, TrafficMode::Cumulative), T + 1), None);
    assert_eq!(bandwidth_at(&mut counter, &record(None, TrafficMode::Absolute), T + 2), None);
    assert_eq!(counter.update_at(T + 3, TrafficStatistics { dl: 1, ul: 1 }), None);
}
