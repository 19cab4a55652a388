//! The exception-context model, the portable fault handlers, and the
//! one-time initialization that builds the populated descriptor table.
//!
//! A handler here is the portable half of the fault path: it receives the
//! processor-pushed context as plain values and decides what is reported and
//! whether the interrupted program resumes.  The raw entry stubs and the
//! output and exit-port writes that carry the decision out live outside this
//! crate.

use vstd::prelude::*;

use crate::idt::{
    lemma_entry_addr_roundtrip, spec_entry, spec_missing, Entry, Idt, SegmentSelector, IDT_ENTRIES,
};

verus! {

/// Vector number of the divide-by-zero fault.
pub const DIVIDE_BY_ZERO_VECTOR: u8 = 0;

/// Vector number of the breakpoint exception.
pub const BREAKPOINT_VECTOR: u8 = 3;

/// Vector number of the invalid-opcode fault.
pub const INVALID_OPCODE_VECTOR: u8 = 6;

/// Vector number of the page fault.
pub const PAGE_FAULT_VECTOR: u8 = 14;

/// The snapshot the processor pushes on any exception entry, in the exact
/// order the hardware writes it.
#[derive(Clone, Copy, Debug, PartialEq, Eq, Structural)]
pub struct ExceptionStackFrame {
    /// Address of the instruction that raised, or follows, the exception.
    pub instruction_pointer: u64,
    /// Code-segment value at fault time.
    pub code_segment: u64,
    /// Processor flags at fault time.
    pub cpu_flags: u64,
    /// Stack pointer from before the exception entry.
    pub stack_pointer: u64,
    /// Stack-segment value at fault time.
    pub stack_segment: u64,
}

/// The error-code bit field a page fault carries.  Unknown bits are kept and
/// reported, never rejected.
#[derive(Clone, Copy, Debug, PartialEq, Eq, Structural)]
pub struct PageFaultErrorCode(u64);

impl PageFaultErrorCode {
    /// The raw 64-bit value the processor pushed.
    pub closed spec fn spec_bits(self) -> u64 {
        self.0
    }

    /// The fault was a protection violation, not a missing page: bit 0.
    pub open spec fn spec_protection_violation(self) -> bool {
        self.spec_bits() & 0x1 != 0
    }

    /// The faulting access was a write: bit 1.
    pub open spec fn spec_caused_by_write(self) -> bool {
        self.spec_bits() & 0x2 != 0
    }

    /// The fault happened in user mode: bit 2.
    pub open spec fn spec_user_mode(self) -> bool {
        self.spec_bits() & 0x4 != 0
    }

    /// A page-table entry was malformed: bit 3.
    pub open spec fn spec_malformed_table(self) -> bool {
        self.spec_bits() & 0x8 != 0
    }

    /// The faulting access was an instruction fetch: bit 4.
    pub open spec fn spec_instruction_fetch(self) -> bool {
        self.spec_bits() & 0x10 != 0
    }

    /// The bits beyond the five known flags, kept as they were pushed.
    pub open spec fn spec_unknown_bits(self) -> u64 {
        self.spec_bits() & !0x1Fu64
    }

    /// Wraps the raw error-code value.  Every bit is preserved, the unknown
    /// ones included.
    pub fn from_bits(bits: u64) -> (r: PageFaultErrorCode)
        ensures
            r.spec_bits() == bits,
    {
        PageFaultErrorCode(bits)
    }

    /// The raw 64-bit value.
    pub fn bits(&self) -> (r: u64)
        ensures
            r == self.spec_bits(),
    {
        self.0
    }

    /// Whether the fault was a protection violation.
    pub fn protection_violation(&self) -> (r: bool)
        ensures
            r == self.spec_protection_violation(),
    {
        self.0 & 0x1 != 0
    }

    /// Whether the faulting access was a write.
    pub fn caused_by_write(&self) -> (r: bool)
        ensures
            r == self.spec_caused_by_write(),
    {
        self.0 & 0x2 != 0
    }

    /// Whether the fault happened in user mode.
    pub fn user_mode(&self) -> (r: bool)
        ensures
            r == self.spec_user_mode(),
    {
        self.0 & 0x4 != 0
    }

    /// Whether a page-table entry was malformed.
    pub fn malformed_table(&self) -> (r: bool)
        ensures
            r == self.spec_malformed_table(),
    {
        self.0 & 0x8 != 0
    }

    /// Whether the faulting access was an instruction fetch.
    pub fn instruction_fetch(&self) -> (r: bool)
        ensures
            r == self.spec_instruction_fetch(),
    {
        self.0 & 0x10 != 0
    }

    /// The bits beyond the five known flags.
    pub fn unknown_bits(&self) -> (r: u64)
        ensures
            r == self.spec_unknown_bits(),
    {
        self.0 & !0x1F
    }
}

/// The code the core hands to the hardware exit port.  The host maps the two
/// values to a success or failure process status.
#[derive(Clone, Copy, Debug, PartialEq, Eq, Structural)]
pub enum QemuExitCode {
    /// The observed behaviour was the expected one.
    Success,
    /// The observed behaviour was wrong.
    Failed,
}

impl QemuExitCode {
    /// The 32-bit value written to the exit port for this code.
    pub fn code(self) -> (r: u32)
        ensures
            self is Success ==> r == 0x10,
            self is Failed ==> r == 0x11,
    {
        match self {
            QemuExitCode::Success => 0x10,
            QemuExitCode::Failed => 0x11,
        }
    }
}

/// The four exception vectors this kernel populates.
#[derive(Clone, Copy, Debug, PartialEq, Eq, Structural)]
pub enum Vector {
    /// Vector 0: the divide instruction saw a zero divisor.
    DivideByZero,
    /// Vector 3: the breakpoint instruction executed.
    Breakpoint,
    /// Vector 6: the processor met an instruction it cannot decode.
    InvalidOpcode,
    /// Vector 14: an access touched an unmapped or protected page.
    PageFault,
}

impl Vector {
    /// The vector's number in the descriptor table.
    pub open spec fn spec_number(self) -> u8 {
        match self {
            Vector::DivideByZero => DIVIDE_BY_ZERO_VECTOR,
            Vector::Breakpoint => BREAKPOINT_VECTOR,
            Vector::InvalidOpcode => INVALID_OPCODE_VECTOR,
            Vector::PageFault => PAGE_FAULT_VECTOR,
        }
    }

    /// Whether the processor pushes an error code for this vector.
    pub open spec fn spec_has_error_code(self) -> bool {
        self is PageFault
    }

    /// The vector's number in the descriptor table.
    pub fn number(self) -> (r: u8)
        ensures
            r == self.spec_number(),
    {
        match self {
            Vector::DivideByZero => DIVIDE_BY_ZERO_VECTOR,
            Vector::Breakpoint => BREAKPOINT_VECTOR,
            Vector::InvalidOpcode => INVALID_OPCODE_VECTOR,
            Vector::PageFault => PAGE_FAULT_VECTOR,
        }
    }

    /// Whether the processor pushes an error code for this vector.
    pub fn has_error_code(self) -> (r: bool)
        ensures
            r == self.spec_has_error_code(),
    {
        match self {
            Vector::PageFault => true,
            _ => false,
        }
    }

    /// The name the diagnostic line carries for this vector.
    pub fn mnemonic(self) -> (r: &'static str)
        ensures
            self is DivideByZero ==> r@ == "DIVIDE BY ZERO"@,
            self is Breakpoint ==> r@ == "BREAKPOINT"@,
            self is InvalidOpcode ==> r@ == "INVALID OPCODE"@,
            self is PageFault ==> r@ == "PAGE FAULT"@,
    {
        match self {
            Vector::DivideByZero => "DIVIDE BY ZERO",
            Vector::Breakpoint => "BREAKPOINT",
            Vector::InvalidOpcode => "INVALID OPCODE",
            Vector::PageFault => "PAGE FAULT",
        }
    }
}

/// What the interrupted program does once the handler's report is out.
#[derive(Clone, Copy, Debug, PartialEq, Eq, Structural)]
pub enum Disposition {
    /// Return-from-interrupt: the instruction after the fault runs next.
    Resume,
    /// Never return: signal the exit port, then halt forever.
    Halt,
}

/// The one diagnostic a handler emits: the vector's identity and the fault
/// context it reports.
#[derive(Clone, Copy, Debug, PartialEq, Eq, Structural)]
pub struct Diagnostic {
    /// Which vector fired.
    pub vector: Vector,
    /// The processor-pushed context at fault time.
    pub frame: ExceptionStackFrame,
    /// The decoded error code, for vectors that push one.
    pub error_code: Option<PageFaultErrorCode>,
    /// The address whose access faulted, for the page fault.
    pub accessed_address: Option<u64>,
}

/// Everything a handler decides: one diagnostic, the exit-port code, and
/// whether the interrupted program resumes.
#[derive(Clone, Copy, Debug, PartialEq, Eq, Structural)]
pub struct HandlerResponse {
    /// The single diagnostic to emit.
    pub diagnostic: Diagnostic,
    /// The code to write to the exit port after the diagnostic.
    pub exit_code: QemuExitCode,
    /// Whether the interrupted program resumes or the machine halts.
    pub disposition: Disposition,
}

/// Handles the divide-by-zero fault: one diagnostic naming the vector with
/// the full fault context, the success exit code, and no resumption.
pub fn divide_by_zero_handler(stack_frame: &ExceptionStackFrame) -> (r: HandlerResponse)
    ensures
        r.diagnostic.vector == Vector::DivideByZero,
        r.diagnostic.frame == *stack_frame,
        r.diagnostic.error_code is None,
        r.diagnostic.accessed_address is None,
        r.exit_code == QemuExitCode::Success,
        r.disposition == Disposition::Halt,
{
    HandlerResponse {
        diagnostic: Diagnostic {
            vector: Vector::DivideByZero,
            frame: *stack_frame,
            error_code: None,
            accessed_address: None,
        },
        exit_code: QemuExitCode::Success,
        disposition: Disposition::Halt,
    }
}

/// Handles the breakpoint exception: one diagnostic naming the vector, the
/// success exit code, and resumption at the instruction after the
/// breakpoint.
pub fn breakpoint_handler(stack_frame: &ExceptionStackFrame) -> (r: HandlerResponse)
    ensures
        r.diagnostic.vector == Vector::Breakpoint,
        r.diagnostic.frame == *stack_frame,
        r.diagnostic.error_code is None,
        r.diagnostic.accessed_address is None,
        r.exit_code == QemuExitCode::Success,
        r.disposition == Disposition::Resume,
{
    HandlerResponse {
        diagnostic: Diagnostic {
            vector: Vector::Breakpoint,
            frame: *stack_frame,
            error_code: None,
            accessed_address: None,
        },
        exit_code: QemuExitCode::Success,
        disposition: Disposition::Resume,
    }
}

/// Handles the invalid-opcode fault: one diagnostic naming the vector with
/// the faulting instruction's address, the success exit code, and no
/// resumption.
pub fn invalid_opcode_handler(stack_frame: &ExceptionStackFrame) -> (r: HandlerResponse)
    ensures
        r.diagnostic.vector == Vector::InvalidOpcode,
        r.diagnostic.frame == *stack_frame,
        r.diagnostic.error_code is None,
        r.diagnostic.accessed_address is None,
        r.exit_code == QemuExitCode::Success,
        r.disposition == Disposition::Halt,
{
    HandlerResponse {
        diagnostic: Diagnostic {
            vector: Vector::InvalidOpcode,
            frame: *stack_frame,
            error_code: None,
            accessed_address: None,
        },
        exit_code: QemuExitCode::Success,
        disposition: Disposition::Halt,
    }
}

/// Handles the page fault: one diagnostic naming the vector with the fault
/// context, the decoded error code (every bit preserved) and the accessed
/// address, the success exit code, and never a resumption.
pub fn page_fault_handler(
    stack_frame: &ExceptionStackFrame,
    error_code: u64,
    accessed_address: u64,
) -> (r: HandlerResponse)
    ensures
        r.diagnostic.vector == Vector::PageFault,
        r.diagnostic.frame == *stack_frame,
        r.diagnostic.error_code matches Some(c) && c.spec_bits() == error_code,
        r.diagnostic.accessed_address == Some(accessed_address),
        r.exit_code == QemuExitCode::Success,
        r.disposition == Disposition::Halt,
{
    HandlerResponse {
        diagnostic: Diagnostic {
            vector: Vector::PageFault,
            frame: *stack_frame,
            error_code: Some(PageFaultErrorCode::from_bits(error_code)),
            accessed_address: Some(accessed_address),
        },
        exit_code: QemuExitCode::Success,
        disposition: Disposition::Halt,
    }
}

/// The addresses of the four raw entry stubs, one per populated vector.
/// The stubs themselves are raw machine glue outside this crate; here each
/// is only a 64-bit address to encode into its slot.
#[derive(Clone, Copy, Debug, PartialEq, Eq, Structural)]
pub struct HandlerAddresses {
    /// Stub address for the divide-by-zero vector.
    pub divide_by_zero: u64,
    /// Stub address for the breakpoint vector.
    pub breakpoint: u64,
    /// Stub address for the invalid-opcode vector.
    pub invalid_opcode: u64,
    /// Stub address for the page-fault vector.
    pub page_fault: u64,
}

/// The stub address that belongs to a vector.
pub open spec fn handler_of(handlers: HandlerAddresses, vector: Vector) -> u64 {
    match vector {
        Vector::DivideByZero => handlers.divide_by_zero,
        Vector::Breakpoint => handlers.breakpoint,
        Vector::InvalidOpcode => handlers.invalid_opcode,
        Vector::PageFault => handlers.page_fault,
    }
}

/// The table contents that initialization builds: every slot missing, then
/// the four populated vectors overwritten with entries for `selector` and
/// their stub addresses.
pub open spec fn initialized_idt(selector: SegmentSelector, handlers: HandlerAddresses) -> Seq<
    Entry,
> {
    Seq::new(IDT_ENTRIES as nat, |i: int| spec_missing()).update(
        DIVIDE_BY_ZERO_VECTOR as int,
        spec_entry(selector, handlers.divide_by_zero),
    ).update(BREAKPOINT_VECTOR as int, spec_entry(selector, handlers.breakpoint)).update(
        INVALID_OPCODE_VECTOR as int,
        spec_entry(selector, handlers.invalid_opcode),
    ).update(PAGE_FAULT_VECTOR as int, spec_entry(selector, handlers.page_fault))
}

/// Builds the populated table for a known code-segment selector: every slot
/// missing but the four populated vectors.
pub fn build_idt(selector: SegmentSelector, handlers: &HandlerAddresses) -> (r: Idt)
    ensures
        r.wf(),
        r@ == initialized_idt(selector, *handlers),
{
    let mut idt = Idt::new();
    let _ = idt.set_handler_for_selector(DIVIDE_BY_ZERO_VECTOR, selector, handlers.divide_by_zero);
    let _ = idt.set_handler_for_selector(BREAKPOINT_VECTOR, selector, handlers.breakpoint);
    let _ = idt.set_handler_for_selector(INVALID_OPCODE_VECTOR, selector, handlers.invalid_opcode);
    let _ = idt.set_handler_for_selector(PAGE_FAULT_VECTOR, selector, handlers.page_fault);
    proof {
        assert(idt@ =~= initialized_idt(selector, *handlers));
    }
    idt
}

/// Builds the table for the caller's current code-segment selector, exactly
/// as a first call would: initialization is idempotent in the table
/// contents.  The caller installs the returned table on the processor and
/// emits `loaded_confirmation`; the table's storage must then outlive the
/// process.
pub fn init(handlers: &HandlerAddresses) -> (r: Idt)
    ensures
        r.wf(),
        exists|sel: SegmentSelector| r@ == #[trigger] initialized_idt(sel, *handlers),
{
    let selector = crate::idt::current_code_selector();
    let idt = build_idt(selector, handlers);
    proof {
        assert(idt@ == initialized_idt(selector, *handlers));
    }
    idt
}

/// The initialized table realizes the fixed vector registry: the slot of
/// each populated vector is present and decodes to exactly that vector's
/// stub address, and every other slot is missing.
pub proof fn lemma_initialized_registry(selector: SegmentSelector, handlers: HandlerAddresses)
    ensures
        initialized_idt(selector, handlers).len() == IDT_ENTRIES,
        forall|v: Vector|
            initialized_idt(selector, handlers)[#[trigger] v.spec_number() as int].spec_is_present()
                && initialized_idt(selector, handlers)[v.spec_number() as int].spec_handler_addr()
                == handler_of(handlers, v),
        forall|i: int|
            0 <= i < IDT_ENTRIES && i != DIVIDE_BY_ZERO_VECTOR as int && i
                != BREAKPOINT_VECTOR as int && i != INVALID_OPCODE_VECTOR as int && i
                != PAGE_FAULT_VECTOR as int ==> #[trigger] initialized_idt(selector, handlers)[i]
                == spec_missing(),
{
    lemma_entry_addr_roundtrip(selector, handlers.divide_by_zero);
    lemma_entry_addr_roundtrip(selector, handlers.breakpoint);
    lemma_entry_addr_roundtrip(selector, handlers.invalid_opcode);
    lemma_entry_addr_roundtrip(selector, handlers.page_fault);
    assert forall|v: Vector|
        initialized_idt(selector, handlers)[#[trigger] v.spec_number() as int].spec_is_present()
            && initialized_idt(selector, handlers)[v.spec_number() as int].spec_handler_addr()
            == handler_of(handlers, v) by {
        match v {
            Vector::DivideByZero => {},
            Vector::Breakpoint => {},
            Vector::InvalidOpcode => {},
            Vector::PageFault => {},
        }
    }
}

/// Initialization is idempotent in the observable table contents: the table
/// a second call of `init` builds, with the same selector and the same stub
/// addresses, holds exactly the contents the first call built — rebuilding
/// depends on nothing but those inputs.
pub proof fn lemma_init_idempotent(
    selector: SegmentSelector,
    handlers: HandlerAddresses,
    first: Seq<Entry>,
    second: Seq<Entry>,
)
    requires
        first == initialized_idt(selector, handlers),
        second == initialized_idt(selector, handlers),
    ensures
        first == second,
{
}

/// The confirmation diagnostic emitted once the table is installed.
pub fn loaded_confirmation() -> (r: &'static str)
    ensures
        r@ == "IDT LOADED"@,
{
    "IDT LOADED"
}

} // verus!

