//! The interrupt side of the kernel: which handler stands at which vector,
//! and what each handler decides once it runs.

use vstd::prelude::*;

verus! {

/// Vector at which the primary interrupt controller starts.
pub const PIC_1_OFFSET: u8 = 32;

/// Vector at which the secondary interrupt controller starts.
pub const PIC_2_OFFSET: u8 = PIC_1_OFFSET + 8;

/// Vector of the breakpoint exception.
pub const BREAKPOINT_VECTOR: u8 = 3;

/// Vector of the double fault exception.
pub const DOUBLE_FAULT_VECTOR: u8 = 8;

/// Vector of the page fault exception.
pub const PAGE_FAULT_VECTOR: u8 = 14;

/// Number of vectors that the processor keeps for its own exceptions.
pub const CPU_EXCEPTION_VECTORS: u8 = 32;

/// The stack of its own that the double fault handler runs on.
pub const DOUBLE_FAULT_IST_INDEX: u16 = 0;

/// Port from which the keyboard's scancode is read.
pub const KEYBOARD_DATA_PORT: u16 = 0x60;

/// Counts timer ticks; after `u32::MAX` it starts again at zero.
pub struct TimerCount(pub u32);

/// The count that follows `count`.
pub open spec fn next_tick(count: u32) -> u32 {
    if count == u32::MAX {
        0
    } else {
        (count + 1) as u32
    }
}

impl View for TimerCount {
    type V = u32;

    open spec fn view(&self) -> u32 {
        self.0
    }
}

impl TimerCount {
    /// A count of zero.
    pub fn new() -> (count: Self)
        ensures
            count@ == 0,
    {
        Self(0)
    }

    /// Counts one tick.
    pub fn increment(&mut self)
        ensures
            final(self)@ == next_tick(old(self)@),
    {
        self.0 = self.0.wrapping_add(1);
    }

    /// The number of ticks counted.
    pub fn ticks(&self) -> (ticks: u32)
        ensures
            ticks == self@,
    {
        self.0
    }
}

/// The interrupts that come through the controllers.
#[derive(Debug, Clone, Copy, PartialEq, Eq, Structural)]
pub enum InterruptIndex {
    Timer,
    Keyboard,
}

impl InterruptIndex {
    /// The vector of the interrupt: the controllers' lines in their order,
    /// from the primary controller's first vector on.
    pub open spec fn spec_as_u8(self) -> u8 {
        match self {
            InterruptIndex::Timer => PIC_1_OFFSET,
            InterruptIndex::Keyboard => (PIC_1_OFFSET + 1) as u8,
        }
    }

    #[verifier::when_used_as_spec(spec_as_u8)]
    pub fn as_u8(self) -> (vector: u8)
        ensures
            vector == self.spec_as_u8(),
    {
        match self {
            InterruptIndex::Timer => PIC_1_OFFSET,
            InterruptIndex::Keyboard => PIC_1_OFFSET + 1,
        }
    }
}

/// The handlers that the kernel installs.
#[derive(Debug, Clone, Copy, PartialEq, Eq, Structural)]
pub enum Handler {
    Breakpoint,
    PageFault,
    DoubleFault,
    Timer,
    Keyboard,
}

/// What stands at one vector: the handler and, where it has one, the stack
/// of its own that it runs on.
#[derive(Debug, Clone, Copy, PartialEq, Eq)]
pub struct Entry {
    pub handler: Handler,
    pub stack_index: Option<u16>,
}

/// The table that tells the processor which handler to enter at which vector.
pub struct DispatchTable {
    entries: Vec<Option<Entry>>,
}

impl View for DispatchTable {
    type V = Seq<Option<Entry>>;

    closed spec fn view(&self) -> Seq<Option<Entry>> {
        self.entries@
    }
}

impl DispatchTable {
    /// The table has a place for each of the 256 vectors.
    pub open spec fn wf(&self) -> bool {
        self@.len() == 256
    }

    /// A table with no handler in it.
    pub fn new() -> (table: Self)
        ensures
            table.wf(),
            forall|vector: int| 0 <= vector < 256 ==> #[trigger] table@[vector] == None::<Entry>,
    {
        let mut entries: Vec<Option<Entry>> = Vec::new();
        let mut vector: usize = 0;
        while vector < 256
            invariant
                vector <= 256,
                entries@.len() == vector,
                forall|v: int| 0 <= v < vector ==> #[trigger] entries@[v] == None::<Entry>,
            decreases 256 - vector,
        {
            entries.push(None);
            vector += 1;
        }
        Self { entries }
    }

    /// Puts `handler` at `vector`, on the stack of whatever it interrupts.
    pub fn set_handler(&mut self, vector: u8, handler: Handler)
        requires
            old(self).wf(),
        ensures
            final(self).wf(),
            final(self)@ == old(self)@.update(
                vector as int,
                Some(Entry { handler, stack_index: None }),
            ),
    {
        self.entries.set(vector as usize, Some(Entry { handler, stack_index: None }));
    }

    /// Gives the handler at `vector` the stack `stack_index`. A vector
    /// without a handler stays without.
    pub fn set_stack_index(&mut self, vector: u8, stack_index: u16)
        requires
            old(self).wf(),
        ensures
            final(self).wf(),
            final(self)@ == (match old(self)@[vector as int] {
                Some(entry) => old(self)@.update(
                    vector as int,
                    Some(Entry { handler: entry.handler, stack_index: Some(stack_index) }),
                ),
                None => old(self)@,
            }),
    {
        match self.entries[vector as usize] {
            Some(entry) => {
                self.entries.set(
                    vector as usize,
                    Some(Entry { handler: entry.handler, stack_index: Some(stack_index) }),
                );
            },
            None => {},
        }
    }

    /// What stands at `vector`.
    pub fn entry(&self, vector: u8) -> (entry: Option<Entry>)
        requires
            self.wf(),
        ensures
            entry == self@[vector as int],
    {
        self.entries[vector as usize]
    }
}

/// What the kernel's table holds at `vector`.
pub open spec fn installed_entry(vector: int) -> Option<Entry> {
    if vector == BREAKPOINT_VECTOR {
        Some(Entry { handler: Handler::Breakpoint, stack_index: None })
    } else if vector == PAGE_FAULT_VECTOR {
        Some(Entry { handler: Handler::PageFault, stack_index: None })
    } else if vector == DOUBLE_FAULT_VECTOR {
        Some(Entry { handler: Handler::DoubleFault, stack_index: Some(DOUBLE_FAULT_IST_INDEX) })
    } else if vector == InterruptIndex::Timer.spec_as_u8() {
        Some(Entry { handler: Handler::Timer, stack_index: None })
    } else if vector == InterruptIndex::Keyboard.spec_as_u8() {
        Some(Entry { handler: Handler::Keyboard, stack_index: None })
    } else {
        None
    }
}

/// The kernel's table: five handlers, of which the double fault handler
/// alone has a stack of its own.
pub fn init_idt() -> (table: DispatchTable)
    ensures
        table.wf(),
        forall|vector: int| 0 <= vector < 256 ==> #[trigger] table@[vector] == installed_entry(vector),
{
    let mut idt = DispatchTable::new();
    idt.set_handler(BREAKPOINT_VECTOR, Handler::Breakpoint);
    idt.set_handler(PAGE_FAULT_VECTOR, Handler::PageFault);
    idt.set_handler(DOUBLE_FAULT_VECTOR, Handler::DoubleFault);
    idt.set_stack_index(DOUBLE_FAULT_VECTOR, DOUBLE_FAULT_IST_INDEX);
    idt.set_handler(InterruptIndex::Timer.as_u8(), Handler::Timer);
    idt.set_handler(InterruptIndex::Keyboard.as_u8(), Handler::Keyboard);
    idt
}

/// In the kernel's table the handlers of the processor's own exceptions
/// stand below the vectors of the controllers, and the handlers of the
/// controllers' interrupts stand on lines of the primary controller, clear
/// of the vectors that the processor keeps for itself.
pub proof fn lemma_vectors_do_not_collide(vector: int)
    requires
        0 <= vector < 256,
    ensures
        match installed_entry(vector) {
            Some(entry) => (match entry.handler {
                Handler::Timer | Handler::Keyboard => PIC_1_OFFSET <= vector < PIC_2_OFFSET
                    && vector >= CPU_EXCEPTION_VECTORS,
                _ => vector < CPU_EXCEPTION_VECTORS,
            }),
            None => true,
        },
{
}

/// Why a page fault happened, as the processor tells it in the low five bits
/// of the error code.
#[derive(Debug, Clone, Copy, PartialEq, Eq, Structural)]
pub struct PageFaultCause {
    /// The page was there, and the access broke its protection.
    pub present: bool,
    /// The access was a write.
    pub write: bool,
    /// The access came from user mode.
    pub user: bool,
    /// A reserved bit was set in a page table entry.
    pub reserved: bool,
    /// The access was an instruction fetch.
    pub instruction_fetch: bool,
}

/// Whether the bit of weight `2^index` is set in `word`.
pub open spec fn bit_is_set(word: u64, index: nat) -> bool {
    (word as nat / vstd::arithmetic::power2::pow2(index)) % 2 == 1
}

impl PageFaultCause {
    /// The cause that `error_code` tells: one flag for each of its bits 0
    /// to 4. The higher bits tell nothing that the kernel reports.
    pub open spec fn spec_decode(error_code: u64) -> PageFaultCause {
        PageFaultCause {
            present: bit_is_set(error_code, 0),
            write: bit_is_set(error_code, 1),
            user: bit_is_set(error_code, 2),
            reserved: bit_is_set(error_code, 3),
            instruction_fetch: bit_is_set(error_code, 4),
        }
    }

    #[verifier::when_used_as_spec(spec_decode)]
    pub fn decode(error_code: u64) -> (cause: PageFaultCause)
        ensures
            cause == Self::spec_decode(error_code),
    {
        proof {
            vstd::arithmetic::power2::lemma2_to64();
            assert((error_code & 1 != 0) == (error_code % 2 == 1)) by (bit_vector);
            assert((error_code & 2 != 0) == ((error_code / 2) % 2 == 1)) by (bit_vector);
            assert((error_code & 4 != 0) == ((error_code / 4) % 2 == 1)) by (bit_vector);
            assert((error_code & 8 != 0) == ((error_code / 8) % 2 == 1)) by (bit_vector);
            assert((error_code & 16 != 0) == ((error_code / 16) % 2 == 1)) by (bit_vector);
        }
        PageFaultCause {
            present: error_code & 1 != 0,
            write: error_code & 2 != 0,
            user: error_code & 4 != 0,
            reserved: error_code & 8 != 0,
            instruction_fetch: error_code & 16 != 0,
        }
    }
}

/// The exceptions that the kernel reports on the console, with what it says
/// of each beyond the interrupted code's registers.
#[derive(Debug, Clone, Copy, PartialEq, Eq, Structural)]
pub enum Report {
    Breakpoint,
    /// The address whose access faulted, and why it did.
    PageFault { address: u64, cause: PageFaultCause },
    DoubleFault,
}

/// What a handler that returns has decided: what is reported on the console,
/// what goes to the scancode queue, and which vector the controllers are told
/// is done. The interrupted code then goes on.
#[derive(Debug, Clone, Copy, PartialEq, Eq)]
pub struct Outcome {
    pub report: Option<Report>,
    pub scancode: Option<u8>,
    pub end_of_interrupt: Option<u8>,
}

/// The ways in which the kernel ends. Neither gives control back to anyone.
#[derive(Debug, Clone, Copy, PartialEq, Eq, Structural)]
pub enum FatalExit {
    /// The processor halts for good.
    Halt,
    /// The kernel gives up with a diagnostic.
    Abort,
}

/// What a handler that does not return has decided: what is reported on the
/// console, and how the kernel ends. The interrupted code never goes on.
#[derive(Debug, Clone, Copy, PartialEq, Eq, Structural)]
pub struct Fatal {
    pub report: Report,
    pub exit: FatalExit,
}

impl Outcome {
    pub open spec fn breakpoint() -> Outcome {
        Outcome { report: Some(Report::Breakpoint), scancode: None, end_of_interrupt: None }
    }

    pub open spec fn timer() -> Outcome {
        Outcome {
            report: None,
            scancode: None,
            end_of_interrupt: Some(InterruptIndex::Timer.spec_as_u8()),
        }
    }

    pub open spec fn keyboard(scancode: u8) -> Outcome {
        Outcome {
            report: None,
            scancode: Some(scancode),
            end_of_interrupt: Some(InterruptIndex::Keyboard.spec_as_u8()),
        }
    }
}

impl Fatal {
    pub open spec fn page_fault(address: u64, error_code: u64) -> Fatal {
        Fatal {
            report: Report::PageFault { address, cause: PageFaultCause::spec_decode(error_code) },
            exit: FatalExit::Halt,
        }
    }

    pub open spec fn double_fault() -> Fatal {
        Fatal { report: Report::DoubleFault, exit: FatalExit::Abort }
    }
}

/// A breakpoint is reported and nothing more: the interrupted code goes on,
/// and no controller is involved.
pub fn breakpoint_handler() -> (outcome: Outcome)
    ensures
        outcome == Outcome::breakpoint(),
{
    Outcome { report: Some(Report::Breakpoint), scancode: None, end_of_interrupt: None }
}

/// A page fault is fatal: it is reported with the address that was accessed
/// and the cause that the error code tells, and the processor halts. There
/// is no way back into the code that faulted.
pub fn page_fault_handler(address: u64, error_code: u64) -> (fatal: Fatal)
    ensures
        fatal == Fatal::page_fault(address, error_code),
{
    Fatal {
        report: Report::PageFault { address, cause: PageFaultCause::decode(error_code) },
        exit: FatalExit::Halt,
    }
}

/// A double fault is fatal: it is reported, and the kernel gives up. There
/// is no way back into the code that faulted.
pub fn double_fault_handler() -> (fatal: Fatal)
    ensures
        fatal == Fatal::double_fault(),
{
    Fatal { report: Report::DoubleFault, exit: FatalExit::Abort }
}

/// A timer tick is counted, and the controllers are told that the timer's
/// vector is done. Nothing goes to the console.
pub fn timer_interrupt_handler(count: &mut TimerCount) -> (outcome: Outcome)
    ensures
        final(count)@ == next_tick(old(count)@),
        outcome == Outcome::timer(),
{
    count.increment();
    Outcome { report: None, scancode: None, end_of_interrupt: Some(InterruptIndex::Timer.as_u8()) }
}

/// The byte read from the keyboard's data port goes to the scancode queue,
/// and the controllers are told that the keyboard's vector is done. Nothing
/// goes to the console.
pub fn keyboard_interrupt_handler(scancode: u8) -> (outcome: Outcome)
    ensures
        outcome == Outcome::keyboard(scancode),
{
    Outcome {
        report: None,
        scancode: Some(scancode),
        end_of_interrupt: Some(InterruptIndex::Keyboard.as_u8()),
    }
}

/// The count after the timer handler has run `invocations` times from `start`.
pub open spec fn ticks_after(start: u32, invocations: nat) -> u32
    decreases invocations,
{
    if invocations == 0 {
        start
    } else {
        next_tick(ticks_after(start, (invocations - 1) as nat))
    }
}

/// The outcomes of `invocations` runs of the timer handler.
pub open spec fn timer_outcomes(invocations: nat) -> Seq<Outcome> {
    Seq::new(invocations, |i: int| Outcome::timer())
}

/// The outcomes of one run of the keyboard handler for each byte of
/// `scancodes`.
pub open spec fn keyboard_outcomes(scancodes: Seq<u8>) -> Seq<Outcome> {
    Seq::new(scancodes.len(), |i: int| Outcome::keyboard(scancodes[i]))
}

/// The vectors that the controllers were told are done, in order.
pub open spec fn signalled_vectors(outcomes: Seq<Outcome>) -> Seq<u8>
    decreases outcomes.len(),
{
    if outcomes.len() == 0 {
        Seq::empty()
    } else {
        match outcomes.last().end_of_interrupt {
            Some(vector) => signalled_vectors(outcomes.drop_last()).push(vector),
            None => signalled_vectors(outcomes.drop_last()),
        }
    }
}

/// The bytes that went to the scancode queue, in order.
pub open spec fn queued_scancodes(outcomes: Seq<Outcome>) -> Seq<u8>
    decreases outcomes.len(),
{
    if outcomes.len() == 0 {
        Seq::empty()
    } else {
        match outcomes.last().scancode {
            Some(scancode) => queued_scancodes(outcomes.drop_last()).push(scancode),
            None => queued_scancodes(outcomes.drop_last()),
        }
    }
}

/// After any number of timer interrupts the count has gone up by that
/// number, modulo 2^32.
pub proof fn lemma_ticks_after(start: u32, invocations: nat)
    ensures
        ticks_after(start, invocations) == (start + invocations) % 0x1_0000_0000,
        start + invocations <= u32::MAX ==> ticks_after(start, invocations) == start + invocations,
    decreases invocations,
{
    if invocations > 0 {
        lemma_ticks_after(start, (invocations - 1) as nat);
    }
}

/// Any number of timer interrupts tell the controllers that many times that
/// the timer's vector is done, never name the keyboard's vector, and queue no
/// scancode.
pub proof fn lemma_timer_signals(invocations: nat)
    ensures
        signalled_vectors(timer_outcomes(invocations)) == Seq::new(
            invocations,
            |i: int| InterruptIndex::Timer.spec_as_u8(),
        ),
        !signalled_vectors(timer_outcomes(invocations)).contains(
            InterruptIndex::Keyboard.spec_as_u8(),
        ),
        queued_scancodes(timer_outcomes(invocations)) == Seq::<u8>::empty(),
    decreases invocations,
{
    let vectors = Seq::new(invocations, |i: int| InterruptIndex::Timer.spec_as_u8());
    if invocations > 0 {
        let fewer = (invocations - 1) as nat;
        lemma_timer_signals(fewer);
        assert(timer_outcomes(invocations).drop_last() =~= timer_outcomes(fewer));
        assert(signalled_vectors(timer_outcomes(invocations)) =~= vectors);
    } else {
        assert(signalled_vectors(timer_outcomes(invocations)) =~= vectors);
    }
    assert forall|i: int| 0 <= i < vectors.len() implies vectors[i]
        != InterruptIndex::Keyboard.spec_as_u8() by {}
}

/// The keyboard handler, run once for each byte that the data port gives,
/// queues exactly those bytes in their order, and tells the controllers once
/// for each that the keyboard's vector is done. The handler never sees the
/// queue, so how full it is changes nothing.
pub proof fn lemma_keyboard_queues_in_order(scancodes: Seq<u8>)
    ensures
        queued_scancodes(keyboard_outcomes(scancodes)) == scancodes,
        signalled_vectors(keyboard_outcomes(scancodes)) == Seq::new(
            scancodes.len(),
            |i: int| InterruptIndex::Keyboard.spec_as_u8(),
        ),
    decreases scancodes.len(),
{
    let vectors = Seq::new(scancodes.len(), |i: int| InterruptIndex::Keyboard.spec_as_u8());
    if scancodes.len() > 0 {
        let init = scancodes.drop_last();
        lemma_keyboard_queues_in_order(init);
        assert(keyboard_outcomes(scancodes).drop_last() =~= keyboard_outcomes(init));
        assert(queued_scancodes(keyboard_outcomes(scancodes)) =~= scancodes);
        assert(signalled_vectors(keyboard_outcomes(scancodes)) =~= vectors);
    } else {
        assert(queued_scancodes(keyboard_outcomes(scancodes)) =~= scancodes);
        assert(signalled_vectors(keyboard_outcomes(scancodes)) =~= vectors);
    }
}

/// The handlers of the controllers' interrupts write nothing to the console,
/// so they never wait for its lock; the breakpoint handler tells no
/// controller that a vector is done.
pub proof fn lemma_console_and_controllers_apart(scancode: u8)
    ensures
        Outcome::timer().report.is_none(),
        Outcome::keyboard(scancode).report.is_none(),
        Outcome::breakpoint().end_of_interrupt.is_none(),
{
}

} // verus!
