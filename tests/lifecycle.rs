use fizzy::boundary::{needs_engine, parse, validate, ParseError, HEADER_LEN};
use fizzy::handle::{EngineCall, InstantiateError, Module};
use fizzy::value::Value;

const MINIMAL: [u8; 8] = [0x00, 0x61, 0x73, 0x6d, 0x01, 0x00, 0x00, 0x00];
const BAD_VERSION: [u8; 8] = [0x00, 0x61, 0x73, 0x6d, 0x01, 0x00, 0x00, 0x01];

#[test]
fn short_inputs_are_rejected_without_engine() {
    assert_eq!(validate(&[], true), false);
    assert_eq!(validate(&[0x00], true), false);
    assert_eq!(validate(&MINIMAL[..7], true), false);
    assert!(!needs_engine(&[]));
    assert!(!needs_engine(&[0x00]));
    assert!(matches!(parse(&[], 0), Err(ParseError::TooShort)));
    assert!(matches!(parse(&[0x00], 0), Err(ParseError::TooShort)));
}

#[test]
fn header_defers_to_engine() {
    assert_eq!(HEADER_LEN, 8);
    assert!(needs_engine(&MINIMAL));
    assert_eq!(validate(&MINIMAL, true), true);
    assert_eq!(validate(&BAD_VERSION, false), false);
    let m = parse(&MINIMAL, 0x1000).ok().unwrap();
    assert_eq!(m.handle(), 0x1000);
    assert!(matches!(parse(&BAD_VERSION, 0), Err(ParseError::Rejected)));
}

#[test]
fn null_module_handle_is_no_module() {
    assert!(Module::from_handle(0).is_none());
    assert_eq!(Module::from_handle(0x40).unwrap().handle(), 0x40);
}

#[test]
fn instantiate_hands_module_to_engine_once() {
    let m = Module::from_handle(0x10).unwrap();
    let (call, pending) = m.instantiate();
    assert!(matches!(call, EngineCall::Instantiate { module: 0x10, import_count: 0 }));
    let inst = pending.finish(0x20).ok().unwrap();
    assert_eq!(inst.handle(), 0x20);
    assert!(matches!(inst.release(), EngineCall::FreeInstance { instance: 0x20 }));
}

#[test]
fn failed_instantiation_frees_nothing_more() {
    let m = Module::from_handle(0x10).unwrap();
    let (call, pending) = m.instantiate();
    assert!(matches!(call, EngineCall::Instantiate { module: 0x10, import_count: 0 }));
    assert!(matches!(pending.finish(0), Err(InstantiateError::Rejected)));
}

#[test]
fn unused_module_is_freed() {
    let m = Module::from_handle(0x30).unwrap();
    assert!(matches!(m.release(), EngineCall::FreeModule { module: 0x30 }));
}

#[test]
fn execute_marshals_arguments() {
    let (_, pending) = Module::from_handle(0x10).unwrap().instantiate();
    let mut inst = pending.finish(0x20).ok().unwrap();
    match inst.unsafe_execute(2, &[(42 as i32).into(), (2 as i32).into()]) {
        EngineCall::Execute { instance, func_idx, args } => {
            assert_eq!(instance, 0x20);
            assert_eq!(func_idx, 2);
            assert_eq!(args, vec![42u64, 2]);
        }
        other => panic!("unexpected call {:?}", other),
    }
    match inst.unsafe_execute(3, &[Value::from_i32(-1)]) {
        EngineCall::Execute { args, .. } => assert_eq!(args, vec![u64::MAX]),
        other => panic!("unexpected call {:?}", other),
    }
    match inst.unsafe_execute(0, &[]) {
        EngineCall::Execute { func_idx, args, .. } => {
            assert_eq!(func_idx, 0);
            assert!(args.is_empty());
        }
        other => panic!("unexpected call {:?}", other),
    }
    assert_eq!(inst.handle(), 0x20);
    assert!(matches!(inst.release(), EngineCall::FreeInstance { instance: 0x20 }));
}
