use smashline::adapter::{adapter_dispatch, AdapterStep};
use smashline::errors::{InstallError, OriginalCallError};
use smashline::records::HookRecords;
use smashline::slot::{HookSlot, InstallAnswer, Invocation};

#[test]
fn fresh_slot_holds_null_sentinel() {
    let slot = HookSlot::new();
    assert!(slot.holds_null());
}

#[test]
fn fresh_slot_fails_zero_arg_original_call() {
    let slot = HookSlot::new();
    let hook = b"my_hook".to_vec();
    let r = slot.call_original(&hook, vec![]);
    assert_eq!(
        r,
        Err(OriginalCallError::NotInMemory {
            hook: b"my_hook".to_vec()
        })
    );
}

#[test]
fn fresh_slot_fails_n_arg_original_call() {
    let slot = HookSlot::new();
    let hook = b"my_other_hook".to_vec();
    let r = slot.call_original(&hook, vec![1, 2, 3, 4]);
    assert_eq!(
        r,
        Err(OriginalCallError::NotInMemory {
            hook: b"my_other_hook".to_vec()
        })
    );
}

#[test]
fn install_stores_exactly_what_the_registry_returned() {
    let mut slot = HookSlot::new();
    let r = slot.install(InstallAnswer::Replaced(0x7100_2040));
    assert_eq!(r, Ok(()));
    assert!(!slot.holds_null());
    let hook = b"h".to_vec();
    let inv = slot.call_original(&hook, vec![9, 8]);
    assert_eq!(
        inv,
        Ok(Invocation {
            routine: 0x7100_2040,
            args: vec![9, 8],
        })
    );
}

#[test]
fn unresolved_install_fails_and_leaves_the_slot_alone() {
    let mut slot = HookSlot::new();
    let r = slot.install(InstallAnswer::Unresolved);
    assert_eq!(r, Err(InstallError::TargetUnresolved));
    assert!(slot.holds_null());
}

#[test]
fn not_present_marker_keeps_original_calls_fatal() {
    // The registry performed the redirection but had nothing in place:
    // the slot takes the marker, and reaching for the original still
    // fails loudly rather than calling address zero.
    let mut slot = HookSlot::new();
    assert_eq!(slot.install(InstallAnswer::Replaced(0)), Ok(()));
    assert!(slot.holds_null());
    let hook = b"hook_without_original".to_vec();
    assert_eq!(
        slot.call_original(&hook, vec![]),
        Err(OriginalCallError::NotInMemory {
            hook: b"hook_without_original".to_vec()
        })
    );
}

#[test]
fn reinstall_overwrites_with_the_new_answer() {
    let mut slot = HookSlot::new();
    assert_eq!(slot.install(InstallAnswer::Replaced(0x10)), Ok(()));
    assert_eq!(slot.install(InstallAnswer::Replaced(0x20)), Ok(()));
    let hook = b"h".to_vec();
    let inv = slot.call_original(&hook, vec![]).unwrap();
    assert_eq!(inv.routine, 0x20);
}

#[test]
fn record_table_declares_hooks_in_the_null_state() {
    let mut records = HookRecords::new();
    let name = b"attack_hook".to_vec();
    assert!(!records.contains(&name));
    assert_eq!(records.declare(b"attack_hook".to_vec()), Ok(()));
    assert!(records.contains(&name));
    // declared but not installed: the original is not in memory
    assert_eq!(
        records.call_original(&name, vec![]),
        Err(OriginalCallError::NotInMemory {
            hook: b"attack_hook".to_vec()
        })
    );
}

#[test]
fn record_table_refuses_duplicate_declarations() {
    let mut records = HookRecords::new();
    assert_eq!(records.declare(b"h".to_vec()), Ok(()));
    assert!(records.declare(b"h".to_vec()).is_err());
}

#[test]
fn record_table_installs_and_reaches_the_right_original() {
    let mut records = HookRecords::new();
    records.declare(b"first".to_vec()).unwrap();
    records.declare(b"second".to_vec()).unwrap();
    assert_eq!(
        records.install(&b"first".to_vec(), InstallAnswer::Replaced(0x1000)),
        Ok(())
    );
    let inv = records.call_original(&b"first".to_vec(), vec![5]).unwrap();
    assert_eq!(inv.routine, 0x1000);
    assert_eq!(inv.args, vec![5]);
    // the other record is untouched
    assert_eq!(
        records.call_original(&b"second".to_vec(), vec![]),
        Err(OriginalCallError::NotInMemory {
            hook: b"second".to_vec()
        })
    );
}

#[test]
fn record_table_propagates_unresolved_installs() {
    let mut records = HookRecords::new();
    records.declare(b"h".to_vec()).unwrap();
    assert_eq!(
        records.install(&b"h".to_vec(), InstallAnswer::Unresolved),
        Err(InstallError::TargetUnresolved)
    );
    assert_eq!(
        records.install(&b"missing".to_vec(), InstallAnswer::Replaced(1)),
        Err(InstallError::TargetUnresolved)
    );
}

#[test]
fn adapter_invokes_handler_then_resumes_interpreter() {
    let steps = adapter_dispatch(0xdead_0001, 0x5555);
    assert_eq!(
        steps,
        vec![
            AdapterStep::InvokeHandler {
                context: 0xdead_0001
            },
            AdapterStep::ResumeInterpreter,
        ]
    );
}

#[test]
fn adapter_ignores_the_variadic_pointer() {
    assert_eq!(adapter_dispatch(7, 0), adapter_dispatch(7, 0xffff_ffff));
}
