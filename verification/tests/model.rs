use bpfjit::error::FilterError;
use bpfjit::insn::BpfInsn;
use bpfjit::insn::FilterProgram;
use bpfjit::lifecycle::compile_outcome;
use bpfjit::lifecycle::compile_request;
use bpfjit::lifecycle::filter_text_ok;
use bpfjit::lifecycle::guard_outcome;
use bpfjit::lifecycle::jit_outcome;
use bpfjit::lifecycle::LinkType;
use bpfjit::matching::match_args;
use bpfjit::matching::match_result;

fn sample_insns() -> Vec<BpfInsn> {
    vec![
        BpfInsn { code: 0x28, jt: 0, jf: 0, k: 12 },
        BpfInsn { code: 0x15, jt: 0, jf: 1, k: 0x800 },
        BpfInsn { code: 0x6, jt: 0, jf: 0, k: 65535 },
    ]
}

#[test]
fn compile_request_ethernet() {
    let r = compile_request(LinkType::Ethernet);
    assert_eq!(r.link_code, 1);
    assert_eq!(r.snap_len, 65535);
    assert!(r.optimize);
    assert_eq!(r.netmask, 0xffff_ffff);
}

#[test]
fn compile_request_raw_ip() {
    let r = compile_request(LinkType::RawIp);
    assert_eq!(r.link_code, 12);
    assert_eq!(r.snap_len, 65535);
    assert!(r.optimize);
    assert_eq!(r.netmask, 0xffff_ffff);
}

#[test]
fn empty_filter_text_is_accepted() {
    assert!(filter_text_ok(b""));
}

#[test]
fn plain_filter_text_is_accepted() {
    assert!(filter_text_ok(b"tcp port 80"));
}

#[test]
fn interior_nul_is_rejected() {
    assert!(!filter_text_ok(&[b't', 0, b'p']));
    assert!(!filter_text_ok(&[0]));
}

#[test]
fn guard_acquired_passes() {
    assert!(guard_outcome(true).is_ok());
}

#[test]
fn guard_denied_is_lock_error() {
    assert!(matches!(guard_outcome(false), Err(FilterError::Lock)));
}

#[test]
fn compile_success_keeps_instructions() {
    let insns = sample_insns();
    let r = compile_outcome(0, String::new(), insns.clone());
    match r {
        Ok(p) => {
            assert_eq!(p.len(), 3);
            for i in 0..3 {
                assert_eq!(p.instruction(i), insns[i]);
            }
        }
        Err(_) => panic!("a zero status must be accepted"),
    }
}

#[test]
fn compile_failure_carries_diagnostic_verbatim() {
    let diag = "syntax error in filter expression".to_string();
    let r = compile_outcome(-1, diag.clone(), Vec::new());
    match r {
        Ok(_) => panic!("a non-zero status must be rejected"),
        Err(FilterError::Compile(m)) => {
            assert_eq!(m, diag);
            assert!(!m.is_empty());
        }
        Err(_) => panic!("a non-zero status must yield the compile error"),
    }
}

#[test]
fn jit_success_yields_ready_handle() {
    let program = FilterProgram { insns: sample_insns() };
    let r = jit_outcome(program, true);
    match r {
        Ok(h) => {
            assert!(h.callable_held);
            assert_eq!(h.program.len(), 3);
        }
        Err(_) => panic!("an obtained callable must be accepted"),
    }
}

#[test]
fn jit_failure_is_jit_error() {
    let program = FilterProgram { insns: sample_insns() };
    assert!(matches!(jit_outcome(program, false), Err(FilterError::Jit)));
}

#[test]
fn release_frees_exactly_once() {
    let program = FilterProgram { insns: sample_insns() };
    let mut h = jit_outcome(program, true).unwrap_or_else(|_| panic!("must be accepted"));
    assert!(h.release());
    assert!(!h.release());
    assert!(!h.release());
}

#[test]
fn release_of_handle_without_callable_frees_nothing() {
    let program = FilterProgram { insns: sample_insns() };
    let mut h = jit_outcome(program, true).unwrap_or_else(|_| panic!("must be accepted"));
    h.release();
    assert!(!h.callable_held);
    assert!(!h.release());
}

#[test]
fn clone_carries_same_instructions() {
    let insns = sample_insns();
    let program = FilterProgram { insns: insns.clone() };
    let h = jit_outcome(program, true).unwrap_or_else(|_| panic!("must be accepted"));
    let c = h.clone_outcome(true).unwrap_or_else(|_| panic!("re-JIT success must be accepted"));
    assert!(c.callable_held);
    assert_eq!(c.program.len(), h.program.len());
    for i in 0..c.program.len() {
        assert_eq!(c.program.instruction(i), insns[i]);
    }
}

#[test]
fn clone_without_callable_is_jit_error() {
    let program = FilterProgram { insns: sample_insns() };
    let h = jit_outcome(program, true).unwrap_or_else(|_| panic!("must be accepted"));
    assert!(matches!(h.clone_outcome(false), Err(FilterError::Jit)));
}

#[test]
fn match_args_use_the_buffer_length_twice() {
    let packet = [0u8; 64];
    let a = match_args(&packet);
    assert_eq!(a.wire_len, 64);
    assert_eq!(a.buf_len, 64);
    let empty = match_args(&[]);
    assert_eq!(empty.wire_len, 0);
    assert_eq!(empty.buf_len, 0);
}

#[test]
fn match_result_is_nonzero_test() {
    assert!(!match_result(0));
    assert!(match_result(1));
    assert!(match_result(2));
    assert!(match_result(u32::MAX));
}
