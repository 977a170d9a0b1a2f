use cuda_core::cuda_api::{CUlinkState, CUmodule};
use cuda_core::cuda_result::CUError;
use cuda_core::link::{load_module, LinkOptions, LinkPhase, LinkSession, DEFAULT_LOG_CAPACITY};

fn open_session() -> LinkSession {
    let options = LinkOptions::defaults();
    LinkSession::create(&options, 0, CUlinkState::from_addr(0x9000)).unwrap()
}

#[test]
fn default_options_match_the_pipeline_configuration() {
    let o = LinkOptions::defaults();
    assert_eq!(o.opt_level, 4);
    assert!(o.verbose);
    assert!(!o.line_info);
    assert!(!o.debug_info);
    assert_eq!(o.log_capacity, 16384);
    assert_eq!(DEFAULT_LOG_CAPACITY, 16384);
}

#[test]
fn option_ids_come_in_the_fixed_order() {
    let o = LinkOptions::defaults();
    assert_eq!(o.option_ids(), vec![7, 12, 3, 4, 5, 6, 13, 11]);
}

#[test]
fn failed_creation_surfaces_link_create_failed() {
    let options = LinkOptions::defaults();
    let r = LinkSession::create(&options, 1, CUlinkState::from_addr(0));
    assert_eq!(r.err().unwrap(), CUError::LinkCreateFailed(1));
}

#[test]
fn valid_inputs_reach_completion_with_the_binary() {
    let mut s = open_session();
    assert_eq!(s.phase(), LinkPhase::Created);
    s.add_data(0, b"", b"").unwrap();
    s.add_data(0, b"", b"").unwrap();
    assert_eq!(s.input_count(), 2);

    let cubin = vec![0x7f, 0x45, 0x4c, 0x46, 2, 1];
    let blob = s.complete(0, cubin.clone(), b"", b"ok\0").unwrap();
    assert_eq!(blob, cubin);
    assert!(!blob.is_empty());
    assert_eq!(s.phase(), LinkPhase::Completed);
    assert_eq!(s.destroy().addr(), 0x9000);
}

#[test]
fn invalid_ptx_fails_the_session_and_fills_the_error_log() {
    let mut s = open_session();
    let error_text = b"ptxas fatal: unresolved symbol\0trailing garbage";
    let r = s.add_data(218, error_text, b"info\0");
    assert_eq!(r.err().unwrap(), CUError::NativeResult(218));
    assert_eq!(s.phase(), LinkPhase::Failed);
    assert!(!s.error_log().is_empty());
    assert_eq!(s.error_log(), &b"ptxas fatal: unresolved symbol".to_vec());
    assert_eq!(s.info_log(), &b"info".to_vec());
    assert_eq!(s.input_count(), 0);
    assert_eq!(s.destroy().addr(), 0x9000);
}

#[test]
fn failed_completion_surfaces_link_complete_failed_with_logs() {
    let mut s = open_session();
    s.add_data(0, b"", b"").unwrap();
    let r = s.complete(999, Vec::new(), b"no kernel image\0", b"");
    assert_eq!(r.err().unwrap(), CUError::LinkCompleteFailed(999));
    assert_eq!(s.phase(), LinkPhase::Failed);
    assert_eq!(s.error_log(), &b"no kernel image".to_vec());
    assert_eq!(s.destroy().addr(), 0x9000);
}

#[test]
fn logs_are_truncated_at_the_fixed_capacity() {
    let options = LinkOptions {
        opt_level: 0,
        verbose: false,
        line_info: false,
        debug_info: false,
        log_capacity: 4,
    };
    let mut s = LinkSession::create(&options, 0, CUlinkState::from_addr(1)).unwrap();
    let r = s.add_data(218, b"abcdefgh", b"xy");
    assert!(r.is_err());
    assert_eq!(s.error_log(), &b"abcd".to_vec());
    assert_eq!(s.info_log(), &b"xy".to_vec());
    s.destroy();
}

#[test]
fn module_load_hands_through_the_module_or_the_error() {
    let m = load_module(0, CUmodule::from_addr(0xa000)).unwrap();
    assert_eq!(m.addr(), 0xa000);
    let r = load_module(300, CUmodule::from_addr(0));
    assert_eq!(r.err().unwrap(), CUError::NativeResult(300));
    let r = load_module(200, CUmodule::from_addr(0));
    assert_eq!(r.err().unwrap(), CUError::NativeResult(200));
}
