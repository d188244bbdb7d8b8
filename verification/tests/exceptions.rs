use boot_core::exception::{
    handle_synchronous_fault, probe_read, ExceptionState, FaultClass, FaultOutcome, FaultRecord,
    INSTRUCTION_BYTES, VECTOR_TABLE_ALIGN,
};
use boot_core::memory::{FAULT_TEST_ADDR, MAPPED_RANGE_END};

#[test]
fn misaligned_vector_base_is_rejected_without_mutation() {
    let mut e = ExceptionState::new();
    assert!(!e.install_vector_table(VECTOR_TABLE_ALIGN + 1));
    assert!(!e.is_installed());
    assert_eq!(e.installed_base(), None);
}

#[test]
fn aligned_vector_base_is_installed() {
    let mut e = ExceptionState::new();
    assert!(e.install_vector_table(3 * VECTOR_TABLE_ALIGN));
    assert!(e.is_installed());
    assert_eq!(e.installed_base(), Some(3 * VECTOR_TABLE_ALIGN));
}

#[test]
fn recoverable_fault_resumes_past_the_instruction() {
    let rec = FaultRecord {
        pc: 0x8_0040,
        address: FAULT_TEST_ADDR,
        class: FaultClass::TranslationDataRead,
    };
    let out = handle_synchronous_fault(&rec);
    assert_eq!(out, FaultOutcome::Resume { resume_pc: 0x8_0040 + INSTRUCTION_BYTES });
}

#[test]
fn every_other_fault_class_halts() {
    for class in [
        FaultClass::TranslationDataWrite,
        FaultClass::InstructionAbort,
        FaultClass::Other,
    ] {
        let rec = FaultRecord { pc: 0x1000, address: 0xdead, class };
        assert_eq!(handle_synchronous_fault(&rec), FaultOutcome::Halt { record: rec });
    }
}

#[test]
fn reads_fault_exactly_outside_the_mapped_range() {
    assert_eq!(probe_read(0, MAPPED_RANGE_END, 0x100), Ok(()));
    assert_eq!(probe_read(MAPPED_RANGE_END - 1, MAPPED_RANGE_END, 0x100), Ok(()));
    assert_eq!(
        probe_read(MAPPED_RANGE_END, MAPPED_RANGE_END, 0x100),
        Err(FaultRecord {
            pc: 0x100,
            address: MAPPED_RANGE_END,
            class: FaultClass::TranslationDataRead,
        })
    );
}
