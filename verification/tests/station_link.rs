use garden_wifi::wifi_control::station_link::{
    StationAction, StationEvent, StationLink, StationPhase, LINK_RETRY_PAUSE_MILLIS,
};

#[test]
fn joining_starts_with_a_connect_request() {
    let (link, action) = StationLink::new();
    assert_eq!(action, StationAction::RequestConnect);
    assert_eq!(link.current_phase(), StationPhase::Associating);
    assert!(!link.is_online());
}

#[test]
fn happy_path_reaches_online() {
    let (mut link, _) = StationLink::new();
    assert_eq!(link.step(StationEvent::ConnectRequested(true)), StationAction::QueryLink);
    assert_eq!(link.step(StationEvent::LinkUp), StationAction::PollNetwork);
    assert_eq!(link.step(StationEvent::NetworkPolled(false)), StationAction::PollNetwork);
    assert_eq!(link.step(StationEvent::NetworkPolled(true)), StationAction::ReportOnline);
    assert!(link.is_online());
}

#[test]
fn refused_connect_is_retried() {
    let (mut link, _) = StationLink::new();
    assert_eq!(link.step(StationEvent::ConnectRequested(false)), StationAction::RequestConnect);
    assert_eq!(link.current_phase(), StationPhase::Associating);
}

#[test]
fn link_down_starts_over_at_once() {
    let (mut link, _) = StationLink::new();
    link.step(StationEvent::ConnectRequested(true));
    assert_eq!(link.step(StationEvent::LinkDown), StationAction::RequestConnect);
    assert_eq!(link.current_phase(), StationPhase::Associating);
}

#[test]
fn failed_link_query_pauses_one_second() {
    let (mut link, _) = StationLink::new();
    link.step(StationEvent::ConnectRequested(true));
    assert_eq!(
        link.step(StationEvent::LinkQueryFailed),
        StationAction::PauseThenRequestConnect(1000)
    );
    assert_eq!(LINK_RETRY_PAUSE_MILLIS, 1000);
    assert_eq!(link.current_phase(), StationPhase::Associating);
}

#[test]
fn unexpected_answer_repeats_the_awaited_request() {
    let (mut link, _) = StationLink::new();
    assert_eq!(link.step(StationEvent::LinkUp), StationAction::RequestConnect);
    link.step(StationEvent::ConnectRequested(true));
    assert_eq!(link.step(StationEvent::NetworkPolled(true)), StationAction::QueryLink);
    assert_eq!(link.current_phase(), StationPhase::CheckingLink);
}

#[test]
fn online_is_final() {
    let (mut link, _) = StationLink::new();
    link.step(StationEvent::ConnectRequested(true));
    link.step(StationEvent::LinkUp);
    link.step(StationEvent::NetworkPolled(true));
    for e in [
        StationEvent::LinkDown,
        StationEvent::LinkQueryFailed,
        StationEvent::ConnectRequested(false),
        StationEvent::NetworkPolled(false),
    ] {
        assert_eq!(link.step(e), StationAction::Finished);
        assert!(link.is_online());
    }
}

#[test]
fn address_wait_alone() {
    let (mut link, action) = StationLink::awaiting_address();
    assert_eq!(action, StationAction::PollNetwork);
    assert_eq!(link.current_phase(), StationPhase::AwaitingAddress);
    assert_eq!(link.step(StationEvent::NetworkPolled(false)), StationAction::PollNetwork);
    assert_eq!(link.step(StationEvent::NetworkPolled(true)), StationAction::ReportOnline);
    assert!(link.is_online());
}
