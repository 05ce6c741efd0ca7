use jiaoziflow_runtime::program::{BatchProgram, BatchStates, ProgramState};

#[test]
fn program_life_cycle_keeps_script_and_upstreams() {
    let mut p = BatchProgram::new();
    assert_eq!(p.state, ProgramState::Init);
    assert_eq!(p.script_to_run(), Err("script not found".to_string()));
    assert_eq!(p.upstreams_to_fetch(), Err("no upstream".to_string()));

    p.start("echo hi".to_string(), Some(vec!["a:80".to_string()]));
    assert_eq!(p.state, ProgramState::Ready);
    assert_eq!(p.script_to_run(), Ok(&"echo hi".to_string()));
    assert_eq!(p.upstreams_to_fetch(), Ok(&vec!["a:80".to_string()]));

    p.start("ls".to_string(), None);
    assert_eq!(p.upstreams_to_fetch(), Ok(&vec!["a:80".to_string()]));
    assert_eq!(p.script_to_run(), Ok(&"ls".to_string()));

    p.pause();
    assert_eq!(p.state, ProgramState::Pending);
    p.restart();
    assert_eq!(p.state, ProgramState::Ready);
    p.stop();
    assert_eq!(p.state, ProgramState::Stopped);
    assert_eq!(p.script_to_run(), Ok(&"ls".to_string()));
}

#[test]
fn batches_are_assigned_in_order_and_once() {
    let mut b = BatchStates::new();
    assert_eq!(b.assign_next(), None);
    b.receive("x".to_string());
    b.receive("y".to_string());
    assert_eq!(b.assign_next(), Some("x".to_string()));
    assert_eq!(b.assign_next(), Some("y".to_string()));
    assert_eq!(b.assign_next(), None);
    assert_eq!(b.complete(&"y".to_string()), Ok(()));
    assert_eq!(b.complete(&"z".to_string()), Err("id not found".to_string()));
}

#[test]
fn received_batches_get_fresh_identifiers() {
    let mut b = BatchStates::new();
    let first = b.receive_new();
    let second = b.receive_new();
    assert_eq!(first.len(), 36);
    assert_eq!(second.len(), 36);
    assert_ne!(first, second);
    assert_eq!(b.assign_next(), Some(first.clone()));
    assert_eq!(b.complete(&first), Ok(()));
    assert_eq!(b.assign_next(), Some(second));
}
