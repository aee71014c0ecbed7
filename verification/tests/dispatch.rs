use dht_shell::dispatcher::{session_keys, Action, Dispatcher, Event};

fn lines(items: &[&str]) -> Vec<String> {
    items.iter().map(|s| s.to_string()).collect()
}

#[test]
fn scenario_two_lookups_then_terminate() {
    let input = lines(&["alpha", "beta", "exit", "gamma"]);
    let keys = session_keys(&input);
    assert_eq!(keys, lines(&["alpha", "beta"]));
}

#[test]
fn empty_line_is_a_lookup_key() {
    let input = lines(&[""]);
    let keys = session_keys(&input);
    assert_eq!(keys, lines(&[""]));
}

#[test]
fn one_lookup_per_line_in_input_order() {
    let input = lines(&["a", "b", "c", "d"]);
    let keys = session_keys(&input);
    assert_eq!(keys, lines(&["a", "b", "c", "d"]));
}

#[test]
fn nothing_after_termination_is_dispatched() {
    let input = lines(&["exit", "alpha", "beta"]);
    let keys = session_keys(&input);
    assert_eq!(keys, lines(&[]));
}

#[test]
fn step_starts_lookup_with_line_as_key() {
    let mut d = Dispatcher::new();
    match d.step(Event::LineArrived("alpha".to_string())) {
        Action::StartLookup(key) => assert_eq!(key, "alpha".to_string()),
        _ => panic!("an ordinary line must start a lookup"),
    }
}

#[test]
fn step_announces_termination_on_exit() {
    let mut d = Dispatcher::new();
    let a = d.step(Event::LineArrived("exit".to_string()));
    assert!(matches!(a, Action::AnnounceTermination));
}

#[test]
fn step_halts_on_lines_after_termination() {
    let mut d = Dispatcher::new();
    let a = d.step(Event::LineArrived("exit".to_string()));
    assert!(matches!(a, Action::AnnounceTermination));
    let after = d.step(Event::LineArrived("alpha".to_string()));
    assert!(matches!(after, Action::Halt));
    let after_empty = d.step(Event::ChannelEmpty);
    assert!(matches!(after_empty, Action::Halt));
}

#[test]
fn step_awaits_again_on_empty_channel() {
    let mut d = Dispatcher::new();
    let a = d.step(Event::ChannelEmpty);
    assert!(matches!(a, Action::AwaitLine));
    let b = d.step(Event::ChannelEmpty);
    assert!(matches!(b, Action::AwaitLine));
}

#[test]
fn success_outcome_text_is_passed_through() {
    let mut d = Dispatcher::new();
    match d.step(Event::LineArrived("alpha".to_string())) {
        Action::StartLookup(_) => {},
        _ => panic!("an ordinary line must start a lookup"),
    }
    let injected = "127.0.0.2:54321".to_string();
    match d.step(Event::LookupDone(injected.clone())) {
        Action::PrintOutcome(out) => assert_eq!(out, injected),
        _ => panic!("a completed lookup must print its outcome"),
    }
}

#[test]
fn failure_outcome_text_is_passed_through() {
    let mut d = Dispatcher::new();
    match d.step(Event::LineArrived("beta".to_string())) {
        Action::StartLookup(_) => {},
        _ => panic!("an ordinary line must start a lookup"),
    }
    let injected = "lookup failed: no owner found".to_string();
    match d.step(Event::LookupDone(injected.clone())) {
        Action::PrintOutcome(out) => assert_eq!(out, injected),
        _ => panic!("a failed lookup's outcome must be printed as-is"),
    }
}

#[test]
fn lookups_never_overlap() {
    let mut d = Dispatcher::new();
    let keyed = ["a", "b", "c"];
    for key in keyed {
        match d.step(Event::LineArrived(key.to_string())) {
            Action::StartLookup(k) => assert_eq!(k, key.to_string()),
            _ => panic!("each line must start exactly one lookup"),
        }
        match d.step(Event::LookupDone("outcome".to_string())) {
            Action::PrintOutcome(_) => {},
            _ => panic!("the lookup in flight must complete before the next line"),
        }
    }
}

#[test]
fn terminate_word_embedded_in_longer_line_is_a_key() {
    let input = lines(&["exit now", "exit"]);
    let keys = session_keys(&input);
    assert_eq!(keys, lines(&["exit now"]));
}
