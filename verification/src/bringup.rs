//! The bring-up orchestrator: a strictly ordered checkpoint sequence that
//! installs the first console backend, activates the MMU, and then enters a
//! recoverable block — mailbox construction, console hand-off to a
//! higher-fidelity backend, exception-vector installation, and a deliberate
//! fault-injection self-test — falling through to a degraded-but-alive
//! state on any recoverable step's failure. Every step emits a
//! human-readable status line on the console.
//!
//! The hardware actions themselves (device register programming, the MMU
//! switch) happen outside this module; their outcomes arrive in a
//! [`BootConfig`], and everything decided from them is verified here.

use vstd::prelude::*;
use crate::console::{Backend, BackendKind, Console};
use crate::exception::{
    handle_synchronous_fault, ExceptionState, FaultOutcome, INSTRUCTION_BYTES, probe_read,
    VECTOR_TABLE_ALIGN,
};
use crate::memory::{
    align_up, BumpAllocator, FAULT_TEST_ADDR, MAPPED_RANGE_END, OutOfMemory, request_fits,
};

verus! {

/// Bytes of DMA-visible memory the mailbox capability allocates at
/// construction for its one property-channel buffer: 36 words of 4 bytes.
pub const MAILBOX_BUFFER_SIZE: usize = 144;

/// Required alignment of the mailbox buffer: the mailbox register takes a
/// 16-byte-aligned buffer address.
pub const MAILBOX_BUFFER_ALIGN: usize = 16;

/// Outcomes of the hardware actions the orchestrator drives but cannot
/// decide, and its one configuration switch.
#[derive(Clone, Copy, Debug, PartialEq, Eq, Structural)]
pub struct BootConfig {
    /// Whether activating the MMU succeeded. Its failure is treated as
    /// fatal: the orchestrator halts after its diagnostic line rather than
    /// continue without translation.
    pub mmu_ok: bool,
    /// Whether the PL011 UART's device initialization succeeded.
    pub pl011_init_ok: bool,
    /// Base address of the exception vector table, as the linker placed it.
    pub vector_base: u64,
    /// Whether to run the deliberate fault-injection self-test after the
    /// vectors are installed.
    pub fault_self_test: bool,
    /// Address of the instruction that performs the self-test's deliberate
    /// unmapped read.
    pub self_test_pc: u64,
}

/// Which checkpoints were reached, for the caller and for diagnostics.
#[derive(Clone, Copy, Debug, PartialEq, Eq, Structural)]
pub struct BringupReport {
    pub mmu_online: bool,
    pub mailbox_online: bool,
    pub pl011_active: bool,
    pub vectors_installed: bool,
    pub fault_test_passed: bool,
    /// The terminal state: control passes to the command prompt, possibly
    /// degraded. False only on the fatal MMU path.
    pub reached_prompt: bool,
}

/// The exact character stream the orchestrator accepts onto the console,
/// one status line per checkpoint, as a function of each step's outcome.
pub open spec fn boot_trace(
    mmu_ok: bool,
    mailbox_ok: bool,
    pl011_ok: bool,
    vectors_ok: bool,
    self_test: bool,
) -> Seq<char> {
    let head = "\n[0] MiniUart online.\n"@ + "[1] Press a key to continue booting... "@
        + "Greetings fellow Rustacean!\n"@ + "[2] Switching MMU on now... "@;
    if !mmu_ok {
        head + "[2][Error] MMU activation failed. Halting.\n"@
    } else {
        let online = head + "MMU online.\n"@;
        if !mailbox_ok {
            online + "[3][Error] Could not set up Videocore Mailbox. Aborting.\n"@
        } else {
            let with_mbox = online
                + "[3] Videocore Mailbox set up (DMA mem heap allocation successful).\n"@;
            let with_uart = if pl011_ok {
                with_mbox + "[4] PL011 UART online. Output switched to it.\n"@
            } else {
                with_mbox + "[4][Error] PL011 UART init failed. Trying to continue with MiniUart.\n"@
            };
            if !vectors_ok {
                with_uart + "[5][Error] Error setting exception vectors. Aborting.\n"@
            } else {
                let with_vectors = with_uart + "[5] Exception vectors are set up.\n"@;
                if self_test {
                    with_vectors + "[i] Whoa! We recovered from an exception.\n"@
                } else {
                    with_vectors
                }
            }
        }
    }
}

/// Drive the bring-up sequence to its terminal state.
///
/// The console must still be in its placeholder state, the allocator
/// well-formed, and no vectors installed: the fresh-boot configuration.
/// Both backends must be fresh transports; the first must have one received
/// character queued — the operator's keystroke that the greeting step
/// blocks on.
///
/// The ensures pin down the whole checkpoint state machine: which steps
/// run, how each outcome gates the later steps, the exact status-line
/// stream accepted by the console, and that a failed step leaves the
/// untouched subsystems exactly as they were.
pub fn bring_up(
    console: &mut Console,
    dma: &mut BumpAllocator,
    exc: &mut ExceptionState,
    mini_uart: Backend,
    pl011: Backend,
    cfg: &BootConfig,
) -> (r: BringupReport)
    requires
        !old(console).has_backend(),
        old(console).retired_spec() == Seq::<Backend>::empty(),
        old(dma).wf(),
        old(exc).vector_base_spec() is None,
        mini_uart.kind_spec() == BackendKind::MiniUart,
        mini_uart.buffered_seq().len() == 0,
        mini_uart.emitted_seq().len() == 0,
        mini_uart.input_seq().len() >= 1,
        pl011.kind_spec() == BackendKind::Pl011Uart,
        pl011.buffered_seq().len() == 0,
        pl011.emitted_seq().len() == 0,
        cfg.self_test_pc + INSTRUCTION_BYTES <= u64::MAX,
    ensures
        ({
            let fits = request_fits(
                *old(dma),
                MAILBOX_BUFFER_SIZE as int,
                MAILBOX_BUFFER_ALIGN as int,
            );
            let aligned = cfg.vector_base % VECTOR_TABLE_ALIGN == 0;
            &&& r.mmu_online == cfg.mmu_ok
            &&& (r.mailbox_online <==> cfg.mmu_ok && fits)
            &&& (r.pl011_active <==> r.mailbox_online && cfg.pl011_init_ok)
            &&& (r.vectors_installed <==> r.mailbox_online && aligned)
            &&& (r.fault_test_passed <==> r.vectors_installed && cfg.fault_self_test)
            &&& r.reached_prompt == cfg.mmu_ok
            &&& final(console).wf()
            &&& final(console).has_backend()
            &&& final(console).active_kind() == Some(
                if r.pl011_active {
                    BackendKind::Pl011Uart
                } else {
                    BackendKind::MiniUart
                },
            )
            &&& final(console).accepted_stream() == boot_trace(
                cfg.mmu_ok,
                cfg.mmu_ok && fits,
                cfg.pl011_init_ok,
                aligned,
                cfg.fault_self_test,
            )
            &&& (r.pl011_active ==> final(console).active_input() == pl011.input_seq())
            &&& (!r.pl011_active ==> final(console).active_input() == mini_uart.input_seq()
                .subrange(1, mini_uart.input_seq().len() as int))
            &&& final(dma).wf()
            &&& final(dma).range_start() == old(dma).range_start()
            &&& final(dma).range_end() == old(dma).range_end()
            &&& final(dma).tag_spec() == old(dma).tag_spec()
            &&& (r.mailbox_online ==> final(dma).cursor() == align_up(
                old(dma).cursor() as int,
                MAILBOX_BUFFER_ALIGN as int,
            ) + MAILBOX_BUFFER_SIZE)
            &&& (!r.mailbox_online ==> *final(dma) == *old(dma))
            &&& (r.vectors_installed ==> final(exc).vector_base_spec() == Some(cfg.vector_base))
            &&& (!r.vectors_installed ==> *final(exc) == *old(exc))
        }),
{
    broadcast use Seq::add_empty_left;

    let ghost trace0 = console.accepted_stream();
    proof {
        assert(trace0 =~= Seq::<char>::empty());
    }
    // Checkpoint 0: the first viable output channel. The MiniUart device
    // was brought up outside; installing it gives the kernel a console.
    let _none = console.replace_with(mini_uart);
    console.write_str("\n[0] MiniUart online.\n");
    // Checkpoint 1: greet the operator and block on one input character.
    console.write_str("[1] Press a key to continue booting... ");
    let _key = console.read_char();
    console.write_str("Greetings fellow Rustacean!\n");
    // Checkpoint 2: virtual memory. The switch itself happened outside;
    // on failure the kernel halts — running on with no translation would
    // fault unrecoverably at the first mapped-only access anyway.
    console.write_str("[2] Switching MMU on now... ");
    if !cfg.mmu_ok {
        console.write_str("[2][Error] MMU activation failed. Halting.\n");
        console.flush();
        return BringupReport {
            mmu_online: false,
            mailbox_online: false,
            pl011_active: false,
            vectors_installed: false,
            fault_test_passed: false,
            reached_prompt: false,
        };
    }
    console.write_str("MMU online.\n");
    // The recoverable block: each step may fail without aborting the boot;
    // a failure only skips what depends on it.
    let mut pl011_active = false;
    let mut vectors_installed = false;
    let mut fault_test_passed = false;
    let mailbox_online: bool;
    // Checkpoint 3: the mailbox capability's one DMA buffer allocation.
    match dma.allocate(MAILBOX_BUFFER_SIZE, MAILBOX_BUFFER_ALIGN) {
        Ok(_region) => {
            mailbox_online = true;
            console.write_str("[3] Videocore Mailbox set up (DMA mem heap allocation successful).\n");
            // Checkpoint 4: hand the console to the PL011 UART. Its init
            // rewires the GPIO pins the MiniUart still transmits on, so the
            // MiniUart is flushed before the rewiring — over and above the
            // flush that replace_with itself performs.
            console.flush();
            if cfg.pl011_init_ok {
                let _mini = console.replace_with(pl011);
                console.write_str("[4] PL011 UART online. Output switched to it.\n");
                pl011_active = true;
            } else {
                console.write_str(
                    "[4][Error] PL011 UART init failed. Trying to continue with MiniUart.\n",
                );
            }
            // Checkpoint 5: exception vectors, then the deliberate fault.
            if exc.install_vector_table(cfg.vector_base) {
                console.write_str("[5] Exception vectors are set up.\n");
                vectors_installed = true;
                if cfg.fault_self_test {
                    // Read an address certain to have no translation; the
                    // handler's contract says execution resumes right after
                    // the faulting instruction.
                    match probe_read(FAULT_TEST_ADDR, MAPPED_RANGE_END, cfg.self_test_pc) {
                        Ok(_) => {
                            proof {
                                assert(false);
                            }
                        },
                        Err(rec) => {
                            match handle_synchronous_fault(&rec) {
                                FaultOutcome::Resume { resume_pc: _ } => {
                                    fault_test_passed = true;
                                    console.write_str(
                                        "[i] Whoa! We recovered from an exception.\n",
                                    );
                                },
                                FaultOutcome::Halt { record: _ } => {
                                    proof {
                                        assert(false);
                                    }
                                },
                            }
                        },
                    }
                }
            } else {
                console.write_str("[5][Error] Error setting exception vectors. Aborting.\n");
            }
        },
        Err(OutOfMemory) => {
            mailbox_online = false;
            console.write_str("[3][Error] Could not set up Videocore Mailbox. Aborting.\n");
        },
    }
    // Checkpoint 6: the terminal state — the caller hands the console to
    // the opaque command prompt, degraded or not.
    BringupReport {
        mmu_online: true,
        mailbox_online,
        pl011_active,
        vectors_installed,
        fault_test_passed,
        reached_prompt: true,
    }
}

} // verus!
