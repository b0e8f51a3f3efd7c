use bt_player::address::DeviceAddress;
use bt_player::agent::AgentRequest;
use bt_player::agent::AgentResponse;
use bt_player::agent::agent_response;
use bt_player::correlator::BusError;
use bt_player::correlator::Correlator;
use bt_player::correlator::OpenResolution;
use bt_player::correlator::Phase;
use bt_player::player::Player;
use bt_player::registry::ChangeEvent;
use bt_player::registry::Subscription;
use bt_player::registry::SubscriptionKey;
use bt_player::registry::SubscriptionRegistry;

const PLAYER_A: &str = "/org/bluez/hci0/dev_AA_BB_CC_11_22_33/player0";
const PLAYER_B: &str = "/org/bluez/hci0/dev_01_02_03_04_05_06/player0";

fn addr_a() -> DeviceAddress {
    DeviceAddress::new(0xAA, 0xBB, 0xCC, 0x11, 0x22, 0x33)
}

fn addr_b() -> DeviceAddress {
    DeviceAddress::new(0x01, 0x02, 0x03, 0x04, 0x05, 0x06)
}

#[test]
fn registry_insert_and_replace() {
    let mut reg = SubscriptionRegistry::new();
    let k = SubscriptionKey::Device(addr_a());
    assert_eq!(reg.insert(k, Subscription { id: 1 }), None);
    assert_eq!(reg.len(), 1);
    assert!(reg.contains(k));
    let displaced = reg.insert(k, Subscription { id: 2 });
    assert_eq!(displaced, Some(Subscription { id: 1 }));
    assert_eq!(reg.len(), 1);
}

#[test]
fn registry_remove_is_idempotent() {
    let mut reg = SubscriptionRegistry::new();
    let k = SubscriptionKey::Device(addr_a());
    reg.insert(k, Subscription { id: 7 });
    assert_eq!(reg.remove(k), Some(Subscription { id: 7 }));
    assert_eq!(reg.remove(k), None);
    assert_eq!(reg.len(), 0);
}

#[test]
fn registry_keeps_sentinel_and_device_apart() {
    let mut reg = SubscriptionRegistry::new();
    reg.insert(SubscriptionKey::AdapterSentinel, Subscription { id: 1 });
    reg.insert(SubscriptionKey::Device(addr_a()), Subscription { id: 2 });
    assert_eq!(reg.len(), 2);
    assert_eq!(reg.remove(SubscriptionKey::Device(addr_a())), Some(Subscription { id: 2 }));
    assert!(reg.contains(SubscriptionKey::AdapterSentinel));
}

#[test]
fn registry_drain_hands_back_every_entry_once() {
    let mut reg = SubscriptionRegistry::new();
    reg.insert(SubscriptionKey::Device(addr_a()), Subscription { id: 1 });
    reg.insert(SubscriptionKey::Device(addr_b()), Subscription { id: 2 });
    let subs = reg.drain();
    assert_eq!(subs, vec![Subscription { id: 1 }, Subscription { id: 2 }]);
    assert_eq!(reg.len(), 0);
}

#[test]
fn poll_pick_round_robin_is_fair() {
    let mut reg = SubscriptionRegistry::new();
    reg.insert(SubscriptionKey::Device(addr_a()), Subscription { id: 1 });
    reg.insert(SubscriptionKey::Device(addr_b()), Subscription { id: 2 });
    reg.insert(SubscriptionKey::AdapterSentinel, Subscription { id: 3 });
    let all = vec![true, true, true];
    assert_eq!(reg.poll_pick(&all), Some(0));
    assert_eq!(reg.poll_pick(&all), Some(1));
    assert_eq!(reg.poll_pick(&all), Some(2));
    assert_eq!(reg.poll_pick(&all), Some(0));
}

#[test]
fn poll_pick_skips_entries_that_are_not_ready() {
    let mut reg = SubscriptionRegistry::new();
    reg.insert(SubscriptionKey::Device(addr_a()), Subscription { id: 1 });
    reg.insert(SubscriptionKey::Device(addr_b()), Subscription { id: 2 });
    reg.insert(SubscriptionKey::AdapterSentinel, Subscription { id: 3 });
    assert_eq!(reg.poll_pick(&vec![false, false, true]), Some(2));
    assert_eq!(reg.poll_pick(&vec![false, true, true]), Some(1));
    assert_eq!(reg.poll_pick(&vec![false, false, false]), None);
}

#[test]
fn poll_pick_on_empty_registry() {
    let mut reg = SubscriptionRegistry::new();
    assert_eq!(reg.poll_pick(&Vec::new()), None);
}

#[test]
fn added_then_open_installs_entry() {
    let mut c = Correlator::new();
    let open_for = c.object_added(PLAYER_A);
    assert_eq!(open_for, Some(addr_a()));
    let r = c.open_completed(addr_a(), Ok(Subscription { id: 5 }));
    assert!(matches!(r, OpenResolution::Installed { displaced: None }));
    assert!(c.registry.contains(SubscriptionKey::Device(addr_a())));
    assert_eq!(c.registry.len(), 1);
}

#[test]
fn enumeration_pass_tracks_connected_devices() {
    let mut c = Correlator::new();
    assert!(c.start_device(addr_a()));
    assert!(!c.start_device(addr_a()));
    let r = c.open_completed(addr_a(), Ok(Subscription { id: 4 }));
    assert!(matches!(r, OpenResolution::Installed { displaced: None }));
    assert!(c.registry.contains(SubscriptionKey::Device(addr_a())));
}

#[test]
fn addresses_order_byte_wise() {
    assert!(addr_b() < addr_a());
    assert!(
        DeviceAddress::new(1, 0, 0, 0, 0, 0) > DeviceAddress::new(0, 0xFF, 0xFF, 0xFF, 0xFF, 0xFF)
    );
}

#[test]
fn added_while_open_pending_is_not_repeated() {
    let mut c = Correlator::new();
    assert_eq!(c.object_added(PLAYER_A), Some(addr_a()));
    assert_eq!(c.object_added(PLAYER_A), None);
}

#[test]
fn add_then_remove_leaves_no_entry_when_open_completed_between() {
    let mut c = Correlator::new();
    assert_eq!(c.object_added(PLAYER_A), Some(addr_a()));
    let r = c.open_completed(addr_a(), Ok(Subscription { id: 5 }));
    assert!(matches!(r, OpenResolution::Installed { displaced: None }));
    let released = c.object_removed(PLAYER_A);
    assert_eq!(released, Some(Subscription { id: 5 }));
    assert_eq!(c.registry.len(), 0);
}

#[test]
fn removal_wins_over_open_still_in_flight() {
    let mut c = Correlator::new();
    assert_eq!(c.object_added(PLAYER_A), Some(addr_a()));
    let released = c.object_removed(PLAYER_A);
    assert_eq!(released, None);
    let r = c.open_completed(addr_a(), Ok(Subscription { id: 5 }));
    assert!(matches!(r, OpenResolution::Rejected { sub } if sub == Subscription { id: 5 }));
    assert_eq!(c.registry.len(), 0);
    assert!(!c.registry.contains(SubscriptionKey::Device(addr_a())));
}

#[test]
fn added_for_other_terminal_segment_changes_nothing() {
    let mut c = Correlator::new();
    let open_for = c.object_added("/org/bluez/hci0/dev_AA_BB_CC_11_22_33/icon000");
    assert_eq!(open_for, None);
    assert_eq!(c.registry.len(), 0);
    let r = c.open_completed(addr_a(), Ok(Subscription { id: 9 }));
    assert!(matches!(r, OpenResolution::Rejected { .. }));
    assert_eq!(c.registry.len(), 0);
}

#[test]
fn device_entries_match_adds_without_matching_remove() {
    let mut c = Correlator::new();
    assert_eq!(c.object_added(PLAYER_A), Some(addr_a()));
    c.open_completed(addr_a(), Ok(Subscription { id: 1 }));
    assert_eq!(c.object_added(PLAYER_B), Some(addr_b()));
    c.open_completed(addr_b(), Ok(Subscription { id: 2 }));
    assert_eq!(c.registry.len(), 2);
    c.object_removed(PLAYER_A);
    assert_eq!(c.registry.len(), 1);
    assert!(c.registry.contains(SubscriptionKey::Device(addr_b())));
    assert!(!c.registry.contains(SubscriptionKey::Device(addr_a())));
}

#[test]
fn transient_failures_consume_the_retry_budget() {
    let mut c = Correlator::new();
    assert_eq!(c.object_added(PLAYER_A), Some(addr_a()));
    assert!(matches!(
        c.open_completed(addr_a(), Err(BusError::Transient)),
        OpenResolution::Retry
    ));
    assert!(matches!(
        c.open_completed(addr_a(), Err(BusError::Transient)),
        OpenResolution::Retry
    ));
    assert!(matches!(
        c.open_completed(addr_a(), Err(BusError::Transient)),
        OpenResolution::Retry
    ));
    assert!(matches!(
        c.open_completed(addr_a(), Err(BusError::Transient)),
        OpenResolution::Dropped
    ));
    assert_eq!(c.object_added(PLAYER_A), Some(addr_a()));
}

#[test]
fn fatal_open_failure_is_terminal_for_the_caller() {
    let mut c = Correlator::new();
    assert_eq!(c.object_added(PLAYER_A), Some(addr_a()));
    assert!(matches!(
        c.open_completed(addr_a(), Err(BusError::Fatal)),
        OpenResolution::Fatal
    ));
    let subs = c.begin_drain();
    assert_eq!(subs, Vec::new());
    assert_eq!(c.phase, Phase::Draining);
}

#[test]
fn cancellation_drains_every_subscription_exactly_once() {
    let mut c = Correlator::new();
    c.object_added(PLAYER_A);
    c.open_completed(addr_a(), Ok(Subscription { id: 1 }));
    c.object_added(PLAYER_B);
    c.open_completed(addr_b(), Ok(Subscription { id: 2 }));
    let subs = c.begin_drain();
    assert_eq!(subs, vec![Subscription { id: 1 }, Subscription { id: 2 }]);
    assert_eq!(c.registry.len(), 0);
    assert_eq!(c.phase, Phase::Draining);
    let late = c.open_completed(addr_a(), Ok(Subscription { id: 3 }));
    assert!(matches!(late, OpenResolution::Rejected { sub } if sub == Subscription { id: 3 }));
    c.finish_drain();
    assert_eq!(c.phase, Phase::Stopped);
    assert_eq!(c.object_added(PLAYER_A), None);
}

#[test]
fn forward_routes_events_unchanged() {
    let c = Correlator::new();
    let ev: ChangeEvent<i64> = ChangeEvent {
        key: SubscriptionKey::Device(addr_a()),
        changed: vec![(String::from("Position"), 42)],
        invalidated: vec![String::from("Track")],
    };
    let out = c.forward(ev);
    assert_eq!(out.key, SubscriptionKey::Device(addr_a()));
    assert_eq!(out.changed, vec![(String::from("Position"), 42)]);
    assert_eq!(out.invalidated, vec![String::from("Track")]);
}

#[test]
fn agent_policy_fixed_responses() {
    assert!(matches!(
        agent_response(&AgentRequest::PinCode),
        AgentResponse::ProvidePinCode { pin } if pin.is_empty()
    ));
    assert!(matches!(
        agent_response(&AgentRequest::Passkey),
        AgentResponse::ProvidePasskey { passkey: 0 }
    ));
    assert!(matches!(
        agent_response(&AgentRequest::Confirmation { passkey: 123456 }),
        AgentResponse::Accept
    ));
    assert!(matches!(
        agent_response(&AgentRequest::AuthorizeService),
        AgentResponse::Accept
    ));
    assert!(matches!(agent_response(&AgentRequest::Authorize), AgentResponse::Accept));
}

#[test]
fn player_holder_has_a_default() {
    let _p = Player::default();
}
