//! End-to-end exercises of the terminal session manager against real
//! pseudo-terminals and real shells.

use lara_code::commands::{
    create_terminal, kill_terminal, resize_terminal, write_terminal, TerminalState,
};
use lara_code::pump::{PumpAction, ReaderPump};

/// Drives a session's pump until it stops, collecting every published text
/// in order.  Stopping is guaranteed once the shell has exited, because the
/// write side of the pty is gone.
fn pump_to_end(pump: &mut ReaderPump) -> Vec<(String, String)> {
    let mut events: Vec<(String, String)> = Vec::new();
    loop {
        match pump.step() {
            PumpAction::Publish(text) => {
                events.push((pump.session_id().clone(), text));
            }
            PumpAction::Continue => {}
            PumpAction::Stop(text) => {
                if !text.is_empty() {
                    events.push((pump.session_id().clone(), text));
                }
                return events;
            }
        }
    }
}

fn shell() -> String {
    "bash".to_string()
}

fn cwd() -> String {
    "/".to_string()
}

#[test]
fn create_write_and_observe_marker() {
    let mut state = TerminalState::default();
    let id = "t1".to_string();
    let reader = create_terminal(&mut state, &id, 80, 24, &shell(), &cwd()).unwrap();
    let mut pump = ReaderPump::new(id.clone(), reader);
    write_terminal(&mut state, &id, &"echo marker123\n".to_string()).unwrap();
    write_terminal(&mut state, &id, &"exit\n".to_string()).unwrap();
    let events = pump_to_end(&mut pump);
    let all: String = events.iter().map(|(_, t)| t.as_str()).collect();
    assert!(all.contains("marker123"), "no event carried the marker: {all:?}");
    assert!(events.iter().all(|(eid, _)| eid == "t1"));
    kill_terminal(&mut state, &id).unwrap();
}

#[test]
fn two_sessions_are_isolated() {
    let mut state = TerminalState::default();
    let id_a = "a".to_string();
    let id_b = "b".to_string();
    let reader_a = create_terminal(&mut state, &id_a, 80, 24, &shell(), &cwd()).unwrap();
    let reader_b = create_terminal(&mut state, &id_b, 80, 24, &shell(), &cwd()).unwrap();
    let mut pump_a = ReaderPump::new(id_a.clone(), reader_a);
    let mut pump_b = ReaderPump::new(id_b.clone(), reader_b);
    write_terminal(&mut state, &id_a, &"echo MARKA\n".to_string()).unwrap();
    write_terminal(&mut state, &id_b, &"echo MARKB\n".to_string()).unwrap();
    write_terminal(&mut state, &id_a, &"exit\n".to_string()).unwrap();
    write_terminal(&mut state, &id_b, &"exit\n".to_string()).unwrap();
    let events_a = pump_to_end(&mut pump_a);
    let events_b = pump_to_end(&mut pump_b);
    let all_a: String = events_a.iter().map(|(_, t)| t.as_str()).collect();
    let all_b: String = events_b.iter().map(|(_, t)| t.as_str()).collect();
    assert!(all_a.contains("MARKA"));
    assert!(all_b.contains("MARKB"));
    assert!(!all_a.contains("MARKB"), "output of b leaked into a: {all_a:?}");
    assert!(!all_b.contains("MARKA"), "output of a leaked into b: {all_b:?}");
    assert!(events_a.iter().all(|(eid, _)| eid == "a"));
    assert!(events_b.iter().all(|(eid, _)| eid == "b"));
}

#[test]
fn unknown_id_write_and_resize_are_silent_successes() {
    let mut state = TerminalState::default();
    let ghost_id = "nobody".to_string();
    assert!(write_terminal(&mut state, &ghost_id, &"echo hi\n".to_string()).is_ok());
    assert!(resize_terminal(&mut state, &ghost_id, 120, 40).is_ok());
    assert!(!state.registry.contains(&ghost_id));
}

#[test]
fn kill_is_idempotent() {
    let mut state = TerminalState::default();
    let never = "never-existed".to_string();
    assert!(kill_terminal(&mut state, &never).is_ok());
    assert!(kill_terminal(&mut state, &never).is_ok());

    let id = "doomed".to_string();
    let _reader = create_terminal(&mut state, &id, 80, 24, &shell(), &cwd()).unwrap();
    assert!(state.registry.contains(&id));
    assert!(kill_terminal(&mut state, &id).is_ok());
    assert!(!state.registry.contains(&id));
    assert!(kill_terminal(&mut state, &id).is_ok());
    assert!(!state.registry.contains(&id));
}

#[test]
fn no_output_after_kill() {
    let mut state = TerminalState::default();
    let id = "kq".to_string();
    let reader = create_terminal(&mut state, &id, 80, 24, &shell(), &cwd()).unwrap();
    let mut pump = ReaderPump::new(id.clone(), reader);
    kill_terminal(&mut state, &id).unwrap();
    // Dropping the session's handles ends the shell; the pump must reach
    // its stop state, and once stopped it publishes nothing further.
    let _events = pump_to_end(&mut pump);
    assert!(!state.registry.contains(&id));
}

#[test]
fn resize_leaves_session_alive() {
    let mut state = TerminalState::default();
    let id = "t1".to_string();
    let reader = create_terminal(&mut state, &id, 80, 24, &shell(), &cwd()).unwrap();
    let mut pump = ReaderPump::new(id.clone(), reader);
    assert_eq!(state.registry.dimensions(&id), Some((24, 80)));
    assert!(resize_terminal(&mut state, &id, 120, 40).is_ok());
    assert_eq!(state.registry.dimensions(&id), Some((40, 120)));
    assert!(write_terminal(&mut state, &id, &"echo stillhere\n".to_string()).is_ok());
    assert!(write_terminal(&mut state, &id, &"exit\n".to_string()).is_ok());
    let events = pump_to_end(&mut pump);
    let all: String = events.iter().map(|(_, t)| t.as_str()).collect();
    assert!(all.contains("stillhere"), "session did not survive the resize: {all:?}");
}

#[test]
fn create_replaces_existing_id() {
    let mut state = TerminalState::default();
    let id = "dup".to_string();
    let _r1 = create_terminal(&mut state, &id, 80, 24, &shell(), &cwd()).unwrap();
    let _r2 = create_terminal(&mut state, &id, 100, 30, &shell(), &cwd()).unwrap();
    assert_eq!(state.registry.dimensions(&id), Some((30, 100)));
    kill_terminal(&mut state, &id).unwrap();
    assert_eq!(state.registry.dimensions(&id), None);
}

#[test]
fn create_failure_registers_nothing() {
    let mut state = TerminalState::default();
    let id = "broken".to_string();
    let no_such_shell = "/no/such/shell-binary".to_string();
    let r = create_terminal(&mut state, &id, 80, 24, &no_such_shell, &cwd());
    assert!(r.is_err());
    assert!(!state.registry.contains(&id));
    assert!(write_terminal(&mut state, &id, &"echo hi\n".to_string()).is_ok());
    assert!(resize_terminal(&mut state, &id, 90, 30).is_ok());
    assert!(kill_terminal(&mut state, &id).is_ok());
}
