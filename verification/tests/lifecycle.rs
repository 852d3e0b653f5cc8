use alcro::lifecycle::{Action, Event, Phase};

#[test]
fn close_asks_the_browser_once() {
    let mut p = Phase::Running;
    assert_eq!(p.step(Event::Close), Action::RequestClose);
    assert_eq!(p, Phase::Closing);
    assert_eq!(p.step(Event::Close), Action::Nothing);
    assert_eq!(p, Phase::Closing);
    assert!(!p.done());
}

#[test]
fn kill_signals_once() {
    let mut p = Phase::Running;
    assert_eq!(p.step(Event::Kill), Action::Signal);
    assert_eq!(p, Phase::Killing);
    assert_eq!(p.step(Event::Kill), Action::Nothing);
    assert_eq!(p.step(Event::Close), Action::Nothing);
    assert_eq!(p, Phase::Killing);
}

#[test]
fn close_escalates_to_kill() {
    let mut p = Phase::Running;
    p.step(Event::Close);
    assert_eq!(p.step(Event::Kill), Action::Signal);
    assert_eq!(p, Phase::Killing);
}

#[test]
fn close_before_exit() {
    let mut p = Phase::Running;
    assert_eq!(p.step(Event::Close), Action::RequestClose);
    assert_eq!(p.step(Event::Exited), Action::Release);
    assert!(p.done());
}

#[test]
fn exit_before_close() {
    let mut p = Phase::Running;
    assert_eq!(p.step(Event::Exited), Action::Release);
    assert!(p.done());
    assert_eq!(p.step(Event::Close), Action::Nothing);
    assert_eq!(p.step(Event::Kill), Action::Nothing);
    assert_eq!(p.step(Event::Exited), Action::Nothing);
    assert_eq!(p, Phase::Done);
}

#[test]
fn every_phase_ends_with_the_exit() {
    for start in [Phase::Running, Phase::Closing, Phase::Killing] {
        let mut p = start;
        assert_eq!(p.step(Event::Exited), Action::Release);
        assert_eq!(p, Phase::Done);
    }
}
