use jiaoziflow_runtime::ipc::{AvaiableDataResponse, ErrorNumber, IPCError};
use jiaoziflow_runtime::models::{Credential, S3AuthInfo};
use jiaoziflow_runtime::node::{
    branch_plan, chunk_ranges, copier_action, create_branch_result, labels_action, lister_action,
    needs_finish_report, parse_ref_type, repo_plan, work_done, writer_action, ApiFailure, DataAnswer,
    NodeAction, RefType,
};
use jiaoziflow_runtime::program::{BatchProgram, BatchStates, ProgramState};
use jiaoziflow_runtime::state::TrackerState;

fn node_err(code: ErrorNumber) -> DataAnswer {
    Err(IPCError::NodeError { code, msg: String::new() })
}

fn data(id: &str) -> DataAnswer {
    Ok(Some(AvaiableDataResponse { id: id.to_string(), size: 1 }))
}

#[test]
fn writer_reactions() {
    assert!(matches!(writer_action(data("b")), NodeAction::Process(id) if id == "b"));
    assert!(matches!(writer_action(Ok(None)), NodeAction::Idle));
    assert!(matches!(writer_action(node_err(ErrorNumber::AlreadyFinish)), NodeAction::Exit));
    assert!(matches!(writer_action(node_err(ErrorNumber::InComingFinish)), NodeAction::CommitAndFinish));
    assert!(matches!(writer_action(node_err(ErrorNumber::NotReady)), NodeAction::Idle));
    assert!(matches!(writer_action(node_err(ErrorNumber::DataNotFound)), NodeAction::Idle));
    assert!(matches!(writer_action(Err(IPCError::UnKnown("x".to_string()))), NodeAction::LogAndRetry));
}

#[test]
fn copier_lister_label_reactions() {
    assert!(matches!(copier_action(node_err(ErrorNumber::AlreadyFinish)), NodeAction::Exit));
    assert!(matches!(copier_action(node_err(ErrorNumber::NotReady)), NodeAction::Idle));
    assert!(matches!(copier_action(node_err(ErrorNumber::InComingFinish)), NodeAction::Idle));
    assert!(matches!(copier_action(node_err(ErrorNumber::DataMissing)), NodeAction::Idle));
    assert!(matches!(lister_action(node_err(ErrorNumber::InComingFinish)), NodeAction::FinishAndExit));
    assert!(matches!(lister_action(Err(IPCError::UnKnown("x".to_string()))), NodeAction::LogAndWait));
    assert!(matches!(labels_action(node_err(ErrorNumber::DataMissing)),
        NodeAction::Fail(t) if t == "record exit, but data is missing"));
    assert!(matches!(labels_action(node_err(ErrorNumber::AlreadyFinish)), NodeAction::Idle));
    assert!(matches!(labels_action(data("l")), NodeAction::Process(id) if id == "l"));
}

#[test]
fn generator_stop() {
    assert!(!work_done(0, 1000));
    assert!(!work_done(10, 10));
    assert!(work_done(10, 11));
    assert!(needs_finish_report(TrackerState::Ready));
    assert!(!needs_finish_report(TrackerState::Finish));
}

#[test]
fn ref_types() {
    assert_eq!(parse_ref_type("branch"), Ok(RefType::Branch));
    assert_eq!(parse_ref_type("wip"), Ok(RefType::Wip));
    assert_eq!(parse_ref_type("tag"), Ok(RefType::Tag));
    assert_eq!(parse_ref_type("commit"), Ok(RefType::Commit));
    assert_eq!(parse_ref_type("Branch"), Err("ref type not correct Branch".to_string()));
}

#[test]
fn chunking() {
    assert_eq!(chunk_ranges(10, 4), vec![(0, 4), (4, 8), (8, 10)]);
    assert_eq!(chunk_ranges(8, 4), vec![(0, 4), (4, 8)]);
    assert_eq!(chunk_ranges(0, 64), vec![]);
    assert_eq!(chunk_ranges(3, 64), vec![(0, 3)]);
    let items: Vec<u32> = (0..10).collect();
    let by_std: Vec<Vec<u32>> = items.chunks(3).map(|c| c.to_vec()).collect();
    let ours: Vec<Vec<u32>> = chunk_ranges(10, 3).iter().map(|(a, b)| items[*a..*b].to_vec()).collect();
    assert_eq!(by_std, ours);
}

#[test]
fn repository_plans() {
    assert_eq!(repo_plan(Ok(()), false), Ok(true));
    assert_eq!(repo_plan(Err(ApiFailure::Status(404, "nf".to_string())), true), Ok(false));
    assert_eq!(repo_plan(Err(ApiFailure::Status(404, "nf".to_string())), false), Err("repo not exit".to_string()));
    assert_eq!(
        repo_plan(Err(ApiFailure::Status(500, "boom".to_string())), true),
        Err("Failed to query repository: boom".to_string())
    );
    assert_eq!(branch_plan(Ok(()), true), Ok(false));
    assert_eq!(branch_plan(Err(ApiFailure::Status(404, "".to_string())), true), Ok(true));
    assert_eq!(branch_plan(Err(ApiFailure::Status(404, "".to_string())), false), Err("branch not exit".to_string()));
    assert_eq!(
        branch_plan(Err(ApiFailure::Other("net".to_string())), true),
        Err("Failed to get branch: net".to_string())
    );
    assert_eq!(create_branch_result(Ok(())), Ok(()));
    assert_eq!(create_branch_result(Err(ApiFailure::Status(409, "exists".to_string()))), Ok(()));
    assert_eq!(
        create_branch_result(Err(ApiFailure::Status(400, "bad".to_string()))),
        Err("Failed to create branch: bad".to_string())
    );
}

#[test]
fn batch_program_life_cycle() {
    let mut p = BatchProgram::new();
    assert_eq!(p.state, ProgramState::Init);
    assert_eq!(p.script_to_run(), Err("script not found".to_string()));
    assert_eq!(p.upstreams_to_fetch(), Err("no upstream".to_string()));
    p.start("echo hi".to_string(), Some(vec!["u1".to_string()]));
    assert_eq!(p.state, ProgramState::Ready);
    assert_eq!(p.script_to_run(), Ok(&"echo hi".to_string()));
    assert_eq!(p.upstreams_to_fetch(), Ok(&vec!["u1".to_string()]));
    p.pause();
    assert_eq!(p.state, ProgramState::Pending);
    p.restart();
    assert_eq!(p.state, ProgramState::Ready);
    p.start("other".to_string(), None);
    assert_eq!(p.upstreams_to_fetch(), Ok(&vec!["u1".to_string()]));
    p.stop();
    assert_eq!(p.state, ProgramState::Stopped);
}

#[test]
fn batch_states_hand_out_each_batch_once() {
    let mut st = BatchStates::new();
    assert_eq!(st.assign_next(), None);
    st.receive("a".to_string());
    st.receive("b".to_string());
    assert_eq!(st.assign_next(), Some("a".to_string()));
    assert_eq!(st.assign_next(), Some("b".to_string()));
    assert_eq!(st.assign_next(), None);
    assert_eq!(st.complete(&"a".to_string()), Ok(()));
    assert_eq!(st.complete(&"zz".to_string()), Err("id not found".to_string()));
}

#[test]
fn s3_auth_info_wraps_credentials() {
    let info = S3AuthInfo::new(Credential {
        access_key_id: "ak".to_string(),
        secret_access_key: "sk".to_string(),
    });
    assert_eq!(info.credentials.access_key_id, "ak");
    assert_eq!(info.credentials.secret_access_key, "sk");
}
