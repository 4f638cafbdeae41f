use webhook_listener::lifecycle::{step, Action, Event, Layer, Phase};

#[test]
fn managed_life() {
    let l = Layer::Managed;
    assert_eq!(step(l, Phase::Start, Event::Begin), (Phase::Registering, Action::Register));
    assert_eq!(step(l, Phase::Registering, Event::Registered { ok: true }), (Phase::Running, Action::ServeAndReturn));
    assert_eq!(step(l, Phase::Running, Event::StopResolved), (Phase::Deregistering, Action::Deregister));
    assert_eq!(step(l, Phase::Deregistering, Event::Deregistered { ok: true }), (Phase::Done, Action::Idle));
}

#[test]
fn router_life_with_failed_deregistration() {
    let l = Layer::Router;
    assert_eq!(step(l, Phase::Start, Event::Begin), (Phase::Registering, Action::Register));
    assert_eq!(step(l, Phase::Registering, Event::Registered { ok: true }), (Phase::Running, Action::ReturnListener));
    assert_eq!(step(l, Phase::Running, Event::StopResolved), (Phase::Deregistering, Action::Deregister));
    assert_eq!(
        step(l, Phase::Deregistering, Event::Deregistered { ok: false }),
        (Phase::Done, Action::LogDeregisterFailure)
    );
}

#[test]
fn raw_life_makes_no_remote_calls() {
    let l = Layer::Raw;
    assert_eq!(step(l, Phase::Start, Event::Begin), (Phase::Running, Action::ReturnListener));
    assert_eq!(step(l, Phase::Running, Event::StopResolved), (Phase::Done, Action::Idle));
}

#[test]
fn registration_failure_starts_no_server() {
    for l in [Layer::Router, Layer::Managed] {
        assert_eq!(step(l, Phase::Registering, Event::Registered { ok: false }), (Phase::Failed, Action::ReturnError));
    }
}

#[test]
fn server_failure_is_fatal_when_managed() {
    assert_eq!(step(Layer::Managed, Phase::Running, Event::ServerFailed), (Phase::Failed, Action::StopAndAbort));
    assert_eq!(step(Layer::Router, Phase::Running, Event::ServerFailed), (Phase::Running, Action::Idle));
}

#[test]
fn unexpected_events_change_nothing() {
    assert_eq!(step(Layer::Managed, Phase::Done, Event::StopResolved), (Phase::Done, Action::Idle));
    assert_eq!(step(Layer::Managed, Phase::Failed, Event::Begin), (Phase::Failed, Action::Idle));
}
