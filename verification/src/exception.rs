//! The exception subsystem: installing the privileged vector table base,
//! and the fault-recovery contract of the synchronous-fault handler — the
//! one recoverable class resumes past the faulting instruction, every other
//! class halts.

use vstd::prelude::*;
use crate::memory::address_mapped;

verus! {

/// Required alignment of the vector table's base address, a property of the
/// target architecture's vector-base register: its low eleven bits are
/// reserved, so the base must be a multiple of 2048.
pub const VECTOR_TABLE_ALIGN: u64 = 2048;

/// Byte length of one instruction: how far the handler advances the trapped
/// program counter to resume past a faulting instruction.
pub const INSTRUCTION_BYTES: u64 = 4;

/// The fault classes the synchronous handler distinguishes. Only a
/// translation fault on a data read is recoverable; everything else in
/// scope halts.
#[derive(Clone, Copy, Debug, PartialEq, Eq, Structural)]
pub enum FaultClass {
    /// A data read of an address with no translation. The read is
    /// discarded, so resuming corrupts nothing.
    TranslationDataRead,
    /// A data write to an address with no translation.
    TranslationDataWrite,
    /// An instruction fetch that faulted.
    InstructionAbort,
    /// Any synchronous fault class not otherwise listed.
    Other,
}

/// What the trap machinery hands the synchronous-fault handler: the
/// faulting instruction's address, the data address it touched, and the
/// decoded fault class.
#[derive(Clone, Copy, Debug, PartialEq, Eq, Structural)]
pub struct FaultRecord {
    pub pc: u64,
    pub address: u64,
    pub class: FaultClass,
}

/// The single fault class whose handler may resume the interrupted
/// instruction stream without corrupting program state.
pub open spec fn recoverable(rec: FaultRecord) -> bool {
    rec.class is TranslationDataRead
}

/// The handler's decision: resume at the instruction after the faulting
/// one, or halt, carrying the record for diagnostic output.
#[derive(Clone, Copy, Debug, PartialEq, Eq, Structural)]
pub enum FaultOutcome {
    Resume { resume_pc: u64 },
    Halt { record: FaultRecord },
}

/// Model of the processor state the exception subsystem owns: the
/// privileged vector-base register. `None` until a table is installed; once
/// `Some`, faults are routed to the handler.
pub struct ExceptionState {
    vector_base: Option<u64>,
}

impl ExceptionState {
    /// The installed vector table base, if any.
    pub closed spec fn vector_base_spec(&self) -> Option<u64> {
        self.vector_base
    }

    /// Whether a vector table has been installed: faults are routed to the
    /// handler exactly in this state.
    pub open spec fn vectors_installed(&self) -> bool {
        self.vector_base_spec() is Some
    }

    /// The reset state: no vectors installed.
    pub fn new() -> (s: Self)
        ensures
            s.vector_base_spec() == Option::<u64>::None,
    {
        ExceptionState { vector_base: None }
    }

    /// Validate the base address against the architecture's alignment
    /// requirement, and only then write it to the vector-base register.
    /// A misaligned base is rejected — `false`, register untouched — rather
    /// than silently truncated, so the caller can degrade gracefully.
    pub fn install_vector_table(&mut self, base: u64) -> (ok: bool)
        ensures
            ok <==> base % VECTOR_TABLE_ALIGN == 0,
            ok ==> final(self).vector_base_spec() == Some(base),
            !ok ==> *final(self) == *old(self),
    {
        if base % VECTOR_TABLE_ALIGN == 0 {
            self.vector_base = Some(base);
            true
        } else {
            false
        }
    }

    /// Exec view of [`Self::vectors_installed`].
    pub fn is_installed(&self) -> (b: bool)
        ensures
            b == self.vectors_installed(),
    {
        self.vector_base.is_some()
    }

    /// The installed base, for inspection.
    pub fn installed_base(&self) -> (b: Option<u64>)
        ensures
            b == self.vector_base_spec(),
    {
        self.vector_base
    }
}

/// The synchronous-fault handler's decision. For the one recoverable class
/// it advances the trapped context's program counter past the faulting
/// instruction — the access itself has no data side effect — and for every
/// other class it halts with the record as diagnostic.
pub fn handle_synchronous_fault(rec: &FaultRecord) -> (out: FaultOutcome)
    requires
        rec.pc + INSTRUCTION_BYTES <= u64::MAX,
    ensures
        out is Resume <==> recoverable(*rec),
        recoverable(*rec) ==> out == (FaultOutcome::Resume {
            resume_pc: (rec.pc + INSTRUCTION_BYTES) as u64,
        }),
        !recoverable(*rec) ==> out == (FaultOutcome::Halt { record: *rec }),
{
    match rec.class {
        FaultClass::TranslationDataRead => FaultOutcome::Resume {
            resume_pc: rec.pc + INSTRUCTION_BYTES,
        },
        _ => FaultOutcome::Halt { record: *rec },
    }
}

/// Model of a data read under the boot-time translations: an address the
/// page tables map reads fine; one they do not raises a synchronous
/// translation fault on a data read, recorded against the reading
/// instruction's address.
pub fn probe_read(addr: u64, mapped_end: u64, pc: u64) -> (r: Result<(), FaultRecord>)
    ensures
        r is Ok <==> address_mapped(addr, mapped_end),
        !address_mapped(addr, mapped_end) ==> r == Result::<(), FaultRecord>::Err(
            FaultRecord { pc, address: addr, class: FaultClass::TranslationDataRead },
        ),
{
    if addr < mapped_end {
        Ok(())
    } else {
        Err(FaultRecord { pc, address: addr, class: FaultClass::TranslationDataRead })
    }
}

} // verus!
