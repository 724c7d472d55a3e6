use vpn_status_monitor::cell::{get_vpn_status, NotAvailable, SharedStatusCell, NOT_AVAILABLE_MESSAGE};
use vpn_status_monitor::cycle::{commit_and_dispatch, run_cycle, CycleOutcome, ProbeError};
use vpn_status_monitor::dispatch::{
    dispatch, notify, update_tray_icon, DispatchPlan, IconStatus, IndicatorUpdate, Notification,
    COUNTRY_FALLBACK, STATUS_EVENT,
};
use vpn_status_monitor::scheduler::{
    Phase, PollScheduler, SchedulerAction, SchedulerEvent, POLL_INTERVAL_SECS,
};
use vpn_status_monitor::status::{clone_text, Status};
use vpn_status_monitor::table::TranslationTable;
use vpn_status_monitor::transition::{detect, Transition};
use vpn_status_monitor::translate::{set_language, Locale};

fn fixture() -> TranslationTable {
    let mut table = TranslationTable::new();
    table.insert("en", "tray.connected", "VPN connected");
    table.insert("en", "tray.disconnected", "VPN disconnected");
    table.insert("en", "notification.title", "Mullvad VPN");
    table.insert("en", "notification.connected", "Connected via {}");
    table.insert("en", "notification.disconnected", "Connection lost");
    table.insert("de", "tray.connected", "VPN verbunden");
    table.insert("de", "notification.connected", "Verbunden über {}");
    table
}

fn status(connected: bool, country: Option<&str>, server: Option<&str>, probed_at: u64) -> Status {
    Status {
        connected,
        country: country.map(String::from),
        server: server.map(String::from),
        probed_at,
    }
}

fn failure(message: &str) -> ProbeError {
    ProbeError { message: String::from(message) }
}

fn plan_of(outcome: CycleOutcome) -> DispatchPlan {
    match outcome {
        CycleOutcome::Dispatched(plan) => plan,
        CycleOutcome::Failed(error) => panic!("cycle failed: {}", error.message),
    }
}

#[test]
fn status_clone_keeps_every_field() {
    let first = status(true, Some("Sweden"), Some("se-got-wg-001"), 1700000000);
    assert_eq!(first.clone(), first);
    let bare = status(false, None, None, 0);
    assert_eq!(bare.clone(), bare);
    assert_eq!(clone_text(&Some(String::from("x"))), Some(String::from("x")));
    assert_eq!(clone_text(&None), None);
}

#[test]
fn cell_is_empty_until_written() {
    let cell = SharedStatusCell::new();
    assert_eq!(cell.read(), None);
    assert_eq!(get_vpn_status(&cell), Err(NotAvailable));
}

#[test]
fn cell_write_returns_what_it_replaced() {
    let mut cell = SharedStatusCell::new();
    let first = status(true, Some("Sweden"), None, 1);
    let second = status(false, None, None, 2);
    assert_eq!(cell.write(first.clone()), None);
    assert_eq!(cell.read(), Some(first.clone()));
    assert_eq!(cell.write(second.clone()), Some(first));
    assert_eq!(cell.read(), Some(second.clone()));
    assert_eq!(get_vpn_status(&cell), Ok(second));
}

#[test]
fn not_available_has_its_message() {
    assert_eq!(NotAvailable.message(), "Status not available yet");
    assert_eq!(NOT_AVAILABLE_MESSAGE, "Status not available yet");
}

#[test]
fn detect_first_observation_is_a_change() {
    let now = status(false, None, None, 1);
    assert_eq!(detect(None, &now), Transition { previous: None, current: false, changed: true });
    let now = status(true, None, None, 1);
    assert_eq!(detect(None, &now), Transition { previous: None, current: true, changed: true });
}

#[test]
fn detect_compares_connectivity_only() {
    let before = status(true, Some("Sweden"), Some("a"), 1);
    let same = status(true, Some("Norway"), Some("b"), 2);
    let other = status(false, Some("Sweden"), Some("a"), 1);
    assert_eq!(
        detect(Some(&before), &same),
        Transition { previous: Some(true), current: true, changed: false }
    );
    assert_eq!(
        detect(Some(&before), &other),
        Transition { previous: Some(true), current: false, changed: true }
    );
    assert_eq!(
        detect(Some(&other), &before),
        Transition { previous: Some(false), current: true, changed: true }
    );
    assert_eq!(
        detect(Some(&other), &other),
        Transition { previous: Some(false), current: false, changed: false }
    );
}

#[test]
fn indicator_follows_connectivity() {
    let table = fixture();
    assert_eq!(
        update_tray_icon(&table, &Locale::default(), true),
        IndicatorUpdate { state: IconStatus::Connected, tooltip: String::from("VPN connected") }
    );
    assert_eq!(
        update_tray_icon(&table, &Locale::default(), false),
        IndicatorUpdate {
            state: IconStatus::Disconnected,
            tooltip: String::from("VPN disconnected")
        }
    );
    assert_eq!(
        update_tray_icon(&table, &Locale::new("de"), true),
        IndicatorUpdate { state: IconStatus::Connected, tooltip: String::from("VPN verbunden") }
    );
    assert_eq!(
        update_tray_icon(&table, &Locale::new("de"), false),
        IndicatorUpdate {
            state: IconStatus::Disconnected,
            tooltip: String::from("VPN disconnected")
        }
    );
}

#[test]
fn notification_names_the_country() {
    let table = fixture();
    assert_eq!(
        notify(&table, &Locale::default(), &status(true, Some("Sweden"), None, 1)),
        Notification {
            title: String::from("Mullvad VPN"),
            body: String::from("Connected via Sweden")
        }
    );
    assert_eq!(
        notify(&table, &Locale::new("de"), &status(true, Some("Schweden"), None, 1)),
        Notification {
            title: String::from("Mullvad VPN"),
            body: String::from("Verbunden über Schweden")
        }
    );
}

#[test]
fn notification_without_country_names_the_fallback() {
    let table = fixture();
    assert_eq!(COUNTRY_FALLBACK, "Mullvad");
    assert_eq!(
        notify(&table, &Locale::default(), &status(true, None, Some("se-1"), 1)),
        Notification {
            title: String::from("Mullvad VPN"),
            body: String::from("Connected via Mullvad")
        }
    );
}

#[test]
fn notification_on_disconnect_ignores_the_country() {
    let table = fixture();
    assert_eq!(
        notify(&table, &Locale::default(), &status(false, Some("Sweden"), None, 1)),
        Notification { title: String::from("Mullvad VPN"), body: String::from("Connection lost") }
    );
}

#[test]
fn notification_with_untranslated_keys_shows_the_keys() {
    let table = TranslationTable::new();
    assert_eq!(
        notify(&table, &Locale::default(), &status(true, Some("Sweden"), None, 1)),
        Notification {
            title: String::from("notification.title"),
            body: String::from("notification.connected")
        }
    );
}

#[test]
fn dispatch_gates_the_notification_on_changed() {
    let table = fixture();
    let locale = Locale::default();
    let now = status(true, Some("Sweden"), Some("se-1"), 7);
    let changed = Transition { previous: Some(false), current: true, changed: true };
    let unchanged = Transition { previous: Some(true), current: true, changed: false };
    let plan = dispatch(&table, &locale, &now, &changed);
    assert_eq!(plan.indicator.state, IconStatus::Connected);
    assert_eq!(plan.indicator.tooltip, "VPN connected");
    assert_eq!(plan.event, now);
    assert_eq!(
        plan.notification,
        Some(Notification {
            title: String::from("Mullvad VPN"),
            body: String::from("Connected via Sweden")
        })
    );
    let plan = dispatch(&table, &locale, &now, &unchanged);
    assert_eq!(plan.indicator.state, IconStatus::Connected);
    assert_eq!(plan.indicator.tooltip, "VPN connected");
    assert_eq!(plan.event, now);
    assert_eq!(plan.notification, None);
}

#[test]
fn status_event_has_its_name() {
    assert_eq!(STATUS_EVENT, "vpn-status-changed");
}

#[test]
fn commit_and_dispatch_stores_and_plans() {
    let table = fixture();
    let locale = Locale::default();
    let mut cell = SharedStatusCell::new();
    let first = status(false, None, None, 1);
    let plan = commit_and_dispatch(&mut cell, &table, &locale, first.clone());
    assert_eq!(cell.read(), Some(first.clone()));
    assert_eq!(plan.event, first);
    assert_eq!(plan.indicator.state, IconStatus::Disconnected);
    assert_eq!(
        plan.notification,
        Some(Notification {
            title: String::from("Mullvad VPN"),
            body: String::from("Connection lost")
        })
    );
}

#[test]
fn failed_probe_changes_nothing() {
    let table = fixture();
    let locale = Locale::default();
    let mut cell = SharedStatusCell::new();
    let outcome = run_cycle(&mut cell, &table, &locale, Err(failure("timeout")));
    assert_eq!(outcome, CycleOutcome::Failed(failure("timeout")));
    assert_eq!(cell.read(), None);
    let stored = status(true, Some("Sweden"), None, 1);
    cell.write(stored.clone());
    let outcome = run_cycle(&mut cell, &table, &locale, Err(failure("dns")));
    assert_eq!(outcome, CycleOutcome::Failed(failure("dns")));
    assert_eq!(cell.read(), Some(stored));
}

#[test]
fn notification_fires_exactly_when_connectivity_differs() {
    let table = fixture();
    let locale = Locale::default();
    let mut cell = SharedStatusCell::new();
    let probes = [true, true, false, false, false, true, false, true, true];
    let expected = [true, false, true, false, false, true, true, true, false];
    let mut i = 0;
    while i < probes.len() {
        let plan = plan_of(run_cycle(&mut cell, &table, &locale, Ok(status(probes[i], None, None, i as u64))));
        assert_eq!(plan.notification.is_some(), expected[i]);
        i += 1;
    }
}

#[test]
fn failures_between_successes_do_not_reset_the_comparison() {
    let table = fixture();
    let locale = Locale::default();
    let mut cell = SharedStatusCell::new();
    let plan = plan_of(run_cycle(&mut cell, &table, &locale, Ok(status(true, None, None, 1))));
    assert!(plan.notification.is_some());
    assert_eq!(
        run_cycle(&mut cell, &table, &locale, Err(failure("a"))),
        CycleOutcome::Failed(failure("a"))
    );
    assert_eq!(
        run_cycle(&mut cell, &table, &locale, Err(failure("b"))),
        CycleOutcome::Failed(failure("b"))
    );
    let plan = plan_of(run_cycle(&mut cell, &table, &locale, Ok(status(true, None, None, 2))));
    assert_eq!(plan.notification, None);
    let plan = plan_of(run_cycle(&mut cell, &table, &locale, Ok(status(false, None, None, 3))));
    assert!(plan.notification.is_some());
}

#[test]
fn indicator_is_refreshed_on_every_successful_cycle() {
    let table = fixture();
    let locale = Locale::default();
    let mut cell = SharedStatusCell::new();
    let probes = [true, true, false, false, true];
    let mut i = 0;
    while i < probes.len() {
        let plan = plan_of(run_cycle(&mut cell, &table, &locale, Ok(status(probes[i], None, None, 0))));
        let expected = if probes[i] { IconStatus::Connected } else { IconStatus::Disconnected };
        assert_eq!(plan.indicator.state, expected);
        assert_eq!(plan.event.connected, probes[i]);
        i += 1;
    }
}

#[test]
fn query_fails_before_and_succeeds_after_the_first_success() {
    let table = fixture();
    let locale = Locale::default();
    let mut cell = SharedStatusCell::new();
    assert_eq!(get_vpn_status(&cell), Err(NotAvailable));
    run_cycle(&mut cell, &table, &locale, Err(failure("x")));
    assert_eq!(get_vpn_status(&cell), Err(NotAvailable));
    let first = status(false, None, None, 5);
    run_cycle(&mut cell, &table, &locale, Ok(first.clone()));
    assert_eq!(get_vpn_status(&cell), Ok(first.clone()));
    run_cycle(&mut cell, &table, &locale, Err(failure("y")));
    assert_eq!(get_vpn_status(&cell), Ok(first));
    let second = status(true, Some("Sweden"), Some("se-1"), 6);
    run_cycle(&mut cell, &table, &locale, Ok(second.clone()));
    assert_eq!(get_vpn_status(&cell), Ok(second));
}

#[test]
fn auxiliary_change_is_silent_but_stored() {
    let table = fixture();
    let locale = Locale::default();
    let mut cell = SharedStatusCell::new();
    run_cycle(&mut cell, &table, &locale, Ok(status(true, Some("Sweden"), Some("se-1"), 1)));
    let moved = status(true, Some("Norway"), Some("no-4"), 2);
    let plan = plan_of(run_cycle(&mut cell, &table, &locale, Ok(moved.clone())));
    assert_eq!(plan.notification, None);
    assert_eq!(plan.event, moved);
    assert_eq!(plan.indicator.state, IconStatus::Connected);
    assert_eq!(get_vpn_status(&cell), Ok(moved));
}

#[test]
fn scenario_failure_connect_move_disconnect() {
    let table = fixture();
    let locale = Locale::default();
    let mut cell = SharedStatusCell::new();
    let mut notifications: Vec<Notification> = Vec::new();
    let mut refreshes: Vec<IconStatus> = Vec::new();
    let probes = vec![
        Err(failure("unreachable")),
        Ok(status(true, Some("Sweden"), None, 1)),
        Ok(status(true, Some("Norway"), None, 2)),
        Ok(status(false, None, None, 3)),
    ];
    for probe in probes {
        match run_cycle(&mut cell, &table, &locale, probe) {
            CycleOutcome::Dispatched(plan) => {
                refreshes.push(plan.indicator.state);
                if let Some(notification) = plan.notification {
                    notifications.push(notification);
                }
            }
            CycleOutcome::Failed(_) => {}
        }
    }
    assert_eq!(
        notifications,
        vec![
            Notification {
                title: String::from("Mullvad VPN"),
                body: String::from("Connected via Sweden")
            },
            Notification {
                title: String::from("Mullvad VPN"),
                body: String::from("Connection lost")
            },
        ]
    );
    assert_eq!(
        refreshes,
        vec![IconStatus::Connected, IconStatus::Connected, IconStatus::Disconnected]
    );
    assert_eq!(get_vpn_status(&cell), Ok(status(false, None, None, 3)));
}

#[test]
fn locale_switch_applies_to_the_next_cycle() {
    let table = fixture();
    let mut locale = Locale::default();
    let mut cell = SharedStatusCell::new();
    let plan = plan_of(run_cycle(&mut cell, &table, &locale, Ok(status(false, None, None, 1))));
    assert_eq!(plan.indicator.tooltip, "VPN disconnected");
    assert_eq!(set_language(&mut locale, String::from("de")), Ok(String::from("Language set to: de")));
    let plan = plan_of(run_cycle(&mut cell, &table, &locale, Ok(status(true, Some("Schweden"), None, 2))));
    assert_eq!(plan.indicator.tooltip, "VPN verbunden");
    assert_eq!(
        plan.notification,
        Some(Notification {
            title: String::from("Mullvad VPN"),
            body: String::from("Verbunden über Schweden")
        })
    );
}

#[test]
fn poll_interval_is_fifteen_seconds() {
    assert_eq!(POLL_INTERVAL_SECS, 15);
}

#[test]
fn scheduler_walks_through_a_successful_cycle() {
    let table = fixture();
    let locale = Locale::default();
    let mut cell = SharedStatusCell::new();
    let mut scheduler = PollScheduler::new();
    assert_eq!(scheduler.phase(), Phase::Idle);
    assert_eq!(
        scheduler.handle(&mut cell, &table, &locale, SchedulerEvent::Tick),
        SchedulerAction::StartProbe
    );
    assert_eq!(scheduler.phase(), Phase::Probing);
    let probed = status(true, Some("Sweden"), None, 1);
    let action =
        scheduler.handle(&mut cell, &table, &locale, SchedulerEvent::ProbeCompleted(Ok(probed.clone())));
    assert_eq!(
        action,
        SchedulerAction::Dispatch(DispatchPlan {
            indicator: IndicatorUpdate {
                state: IconStatus::Connected,
                tooltip: String::from("VPN connected")
            },
            event: probed.clone(),
            notification: Some(Notification {
                title: String::from("Mullvad VPN"),
                body: String::from("Connected via Sweden")
            }),
        })
    );
    assert_eq!(scheduler.phase(), Phase::Dispatching);
    assert_eq!(cell.read(), Some(probed));
    assert_eq!(
        scheduler.handle(&mut cell, &table, &locale, SchedulerEvent::DispatchCompleted),
        SchedulerAction::AwaitTick
    );
    assert_eq!(scheduler.phase(), Phase::Idle);
}

#[test]
fn scheduler_survives_a_failed_probe() {
    let table = fixture();
    let locale = Locale::default();
    let mut cell = SharedStatusCell::new();
    let mut scheduler = PollScheduler::new();
    scheduler.handle(&mut cell, &table, &locale, SchedulerEvent::Tick);
    assert_eq!(
        scheduler.handle(&mut cell, &table, &locale, SchedulerEvent::ProbeCompleted(Err(failure("timeout")))),
        SchedulerAction::ReportFailure(failure("timeout"))
    );
    assert_eq!(scheduler.phase(), Phase::Idle);
    assert_eq!(cell.read(), None);
    assert_eq!(
        scheduler.handle(&mut cell, &table, &locale, SchedulerEvent::Tick),
        SchedulerAction::StartProbe
    );
}

#[test]
fn scheduler_ignores_a_tick_during_a_cycle() {
    let table = fixture();
    let locale = Locale::default();
    let mut cell = SharedStatusCell::new();
    let mut scheduler = PollScheduler::new();
    scheduler.handle(&mut cell, &table, &locale, SchedulerEvent::Tick);
    assert_eq!(
        scheduler.handle(&mut cell, &table, &locale, SchedulerEvent::Tick),
        SchedulerAction::Ignore
    );
    assert_eq!(scheduler.phase(), Phase::Probing);
    scheduler.handle(&mut cell, &table, &locale, SchedulerEvent::ProbeCompleted(Ok(status(true, None, None, 1))));
    assert_eq!(
        scheduler.handle(&mut cell, &table, &locale, SchedulerEvent::Tick),
        SchedulerAction::Ignore
    );
    assert_eq!(scheduler.phase(), Phase::Dispatching);
}

#[test]
fn scheduler_ignores_results_it_did_not_ask_for() {
    let table = fixture();
    let locale = Locale::default();
    let mut cell = SharedStatusCell::new();
    let mut scheduler = PollScheduler::new();
    assert_eq!(
        scheduler.handle(&mut cell, &table, &locale, SchedulerEvent::ProbeCompleted(Ok(status(true, None, None, 1)))),
        SchedulerAction::Ignore
    );
    assert_eq!(scheduler.phase(), Phase::Idle);
    assert_eq!(cell.read(), None);
    assert_eq!(
        scheduler.handle(&mut cell, &table, &locale, SchedulerEvent::DispatchCompleted),
        SchedulerAction::Ignore
    );
    assert_eq!(scheduler.phase(), Phase::Idle);
    scheduler.handle(&mut cell, &table, &locale, SchedulerEvent::Tick);
    assert_eq!(
        scheduler.handle(&mut cell, &table, &locale, SchedulerEvent::DispatchCompleted),
        SchedulerAction::Ignore
    );
    assert_eq!(scheduler.phase(), Phase::Probing);
    scheduler.handle(&mut cell, &table, &locale, SchedulerEvent::ProbeCompleted(Ok(status(false, None, None, 2))));
    let stored = cell.read();
    assert_eq!(
        scheduler.handle(&mut cell, &table, &locale, SchedulerEvent::ProbeCompleted(Ok(status(true, None, None, 3)))),
        SchedulerAction::Ignore
    );
    assert_eq!(cell.read(), stored);
    assert_eq!(scheduler.phase(), Phase::Dispatching);
}

#[test]
fn scheduler_runs_the_scenario() {
    let table = fixture();
    let locale = Locale::default();
    let mut cell = SharedStatusCell::new();
    let mut scheduler = PollScheduler::new();
    let probes = vec![
        Err(failure("unreachable")),
        Ok(status(true, Some("Sweden"), None, 1)),
        Ok(status(true, Some("Norway"), None, 2)),
        Ok(status(false, None, None, 3)),
    ];
    let mut notifications = 0;
    let mut refreshes = 0;
    let mut failures = 0;
    for probe in probes {
        assert_eq!(
            scheduler.handle(&mut cell, &table, &locale, SchedulerEvent::Tick),
            SchedulerAction::StartProbe
        );
        match scheduler.handle(&mut cell, &table, &locale, SchedulerEvent::ProbeCompleted(probe)) {
            SchedulerAction::Dispatch(plan) => {
                refreshes += 1;
                if plan.notification.is_some() {
                    notifications += 1;
                }
                assert_eq!(
                    scheduler.handle(&mut cell, &table, &locale, SchedulerEvent::DispatchCompleted),
                    SchedulerAction::AwaitTick
                );
            }
            SchedulerAction::ReportFailure(_) => failures += 1,
            other => panic!("unexpected action {:?}", other),
        }
        assert_eq!(scheduler.phase(), Phase::Idle);
    }
    assert_eq!(notifications, 2);
    assert_eq!(refreshes, 3);
    assert_eq!(failures, 1);
}
