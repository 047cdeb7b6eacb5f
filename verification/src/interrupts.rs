//! The kernel's interrupt layout: which vector carries which handler. The
//! descriptor table is modelled as a map from vector number to installed
//! handler, so the layout the kernel runs under is stated and checked; the
//! platform layer mirrors it into the hardware descriptor table and loads
//! it. The timer vector is the preemption hook's only entry point: its
//! handler acknowledges the controller, then calls the scheduler's tick.

use vstd::prelude::*;
use std::collections::HashMap;

verus! {

broadcast use vstd::std_specs::hash::group_hash_axioms;

/// Base vector the hardware interrupt lines are remapped to, clear of the
/// 32 CPU exception vectors.
pub const PIC_OFFSET: u8 = 32;

/// CPU exception vector of the breakpoint trap.
pub const BREAKPOINT_VECTOR: u8 = 3;

/// CPU exception vector of the double fault.
pub const DOUBLE_FAULT_VECTOR: u8 = 8;

/// CPU exception vector of the page fault.
pub const PAGE_FAULT_VECTOR: u8 = 14;

/// Interrupt-stack-table slot the double fault handler switches to, so it
/// runs on a known-good stack even after a kernel stack overflow.
pub const DOUBLE_FAULT_IST_INDEX: u16 = 0;

/// The remapped hardware interrupt lines this kernel listens to.
#[derive(Debug, Clone, Copy, PartialEq, Eq, Structural)]
pub enum InterruptIndex {
    /// The preemption timer.
    Timer,
    /// The keyboard controller.
    Keyboard,
    /// The real-time clock.
    RTC,
    /// The ACPI event line.
    ACPI,
    /// The primary ATA channel.
    PrimaryATA,
    /// The secondary ATA channel.
    SecondaryATA,
}

impl InterruptIndex {
    /// The interrupt vector of this line.
    pub open spec fn spec_vector(self) -> u8 {
        match self {
            InterruptIndex::Timer => 32,
            InterruptIndex::Keyboard => 33,
            InterruptIndex::RTC => 40,
            InterruptIndex::ACPI => 41,
            InterruptIndex::PrimaryATA => 46,
            InterruptIndex::SecondaryATA => 47,
        }
    }

    /// The vector as the byte the controller is programmed with.
    pub fn as_u8(self) -> (r: u8)
        ensures
            r == self.spec_vector(),
    {
        match self {
            InterruptIndex::Timer => PIC_OFFSET,
            InterruptIndex::Keyboard => PIC_OFFSET + 1,
            InterruptIndex::RTC => PIC_OFFSET + 8,
            InterruptIndex::ACPI => PIC_OFFSET + 9,
            InterruptIndex::PrimaryATA => PIC_OFFSET + 14,
            InterruptIndex::SecondaryATA => PIC_OFFSET + 15,
        }
    }

    /// The vector as a descriptor-table index.
    pub fn as_usize(self) -> (r: usize)
        ensures
            r == self.spec_vector(),
    {
        self.as_u8() as usize
    }
}

/// A handler this kernel installs.
#[derive(Debug, Clone, Copy, PartialEq, Eq, Structural)]
pub enum InterruptHandler {
    /// Reports the breakpoint trap and resumes.
    Breakpoint,
    /// Aborts on a double fault; runs on its own known-good stack.
    DoubleFault,
    /// Reports the faulting access and halts.
    PageFault,
    /// The preemption hook: acknowledge the controller, then one scheduler
    /// tick — nothing else.
    Timer,
    /// Acknowledges, reads the scancode and queues it.
    Keyboard,
    /// Acknowledges the clock and resets its event register.
    Rtc,
    /// Reports the ACPI event.
    Acpi,
}

/// One installed descriptor: the handler, and for faults that must survive
/// a broken stack, the interrupt-stack-table slot to switch to.
#[derive(Debug, Clone, Copy, PartialEq, Eq, Structural)]
pub struct IdtEntry {
    /// The handler run when the vector fires.
    pub handler: InterruptHandler,
    /// Interrupt-stack-table slot, where one is required.
    pub stack_index: Option<u16>,
}

/// The interrupt descriptor table as this core decides it: a map from
/// vector number to installed descriptor. Vectors absent from the map keep
/// no handler.
pub struct Idt {
    entries: HashMap<u8, IdtEntry>,
}

impl View for Idt {
    type V = Map<u8, IdtEntry>;

    closed spec fn view(&self) -> Map<u8, IdtEntry> {
        self.entries@
    }
}

impl Idt {
    /// A table with no handler installed.
    pub fn new() -> (r: Self)
        ensures
            r@ =~= Map::<u8, IdtEntry>::empty(),
    {
        Idt { entries: HashMap::new() }
    }

    /// Installs `handler` at `vector`, on the interrupted context's stack.
    pub fn install(&mut self, vector: u8, handler: InterruptHandler)
        ensures
            final(self)@ == old(self)@.insert(
                vector,
                IdtEntry { handler, stack_index: None },
            ),
    {
        self.entries.insert(vector, IdtEntry { handler, stack_index: None });
    }

    /// Installs `handler` at `vector`, switching to the given
    /// interrupt-stack-table slot on entry.
    pub fn install_with_stack(&mut self, vector: u8, handler: InterruptHandler, stack_index: u16)
        ensures
            final(self)@ == old(self)@.insert(
                vector,
                IdtEntry { handler, stack_index: Some(stack_index) },
            ),
    {
        self.entries.insert(vector, IdtEntry { handler, stack_index: Some(stack_index) });
    }

    /// The descriptor installed at `vector`, if any.
    pub fn entry_at(&self, vector: u8) -> (r: Option<IdtEntry>)
        ensures
            r is Some <==> self@.dom().contains(vector),
            r is Some ==> r->0 == self@[vector],
    {
        match self.entries.get(&vector) {
            Some(e) => Some(*e),
            None => None,
        }
    }
}

/// The layout this kernel runs under: breakpoint, double fault (on its own
/// stack) and page fault among the exception vectors, and handlers on the
/// timer, keyboard, clock and ACPI lines. Every other vector is empty.
pub open spec fn kernel_idt_layout() -> Map<u8, IdtEntry> {
    Map::<u8, IdtEntry>::empty()
        .insert(BREAKPOINT_VECTOR, IdtEntry { handler: InterruptHandler::Breakpoint, stack_index: None })
        .insert(DOUBLE_FAULT_VECTOR, IdtEntry {
            handler: InterruptHandler::DoubleFault,
            stack_index: Some(DOUBLE_FAULT_IST_INDEX),
        })
        .insert(PAGE_FAULT_VECTOR, IdtEntry { handler: InterruptHandler::PageFault, stack_index: None })
        .insert(InterruptIndex::Timer.spec_vector(), IdtEntry { handler: InterruptHandler::Timer, stack_index: None })
        .insert(InterruptIndex::Keyboard.spec_vector(), IdtEntry {
            handler: InterruptHandler::Keyboard,
            stack_index: None,
        })
        .insert(InterruptIndex::RTC.spec_vector(), IdtEntry { handler: InterruptHandler::Rtc, stack_index: None })
        .insert(InterruptIndex::ACPI.spec_vector(), IdtEntry { handler: InterruptHandler::Acpi, stack_index: None })
}

/// Builds the kernel's descriptor table, exactly the layout above. The
/// platform layer mirrors the result into the hardware table and loads it.
pub fn init_idt() -> (idt: Idt)
    ensures
        idt@ =~= kernel_idt_layout(),
{
    let mut idt = Idt::new();
    idt.install(BREAKPOINT_VECTOR, InterruptHandler::Breakpoint);
    idt.install_with_stack(DOUBLE_FAULT_VECTOR, InterruptHandler::DoubleFault, DOUBLE_FAULT_IST_INDEX);
    idt.install(PAGE_FAULT_VECTOR, InterruptHandler::PageFault);
    idt.install(InterruptIndex::Timer.as_u8(), InterruptHandler::Timer);
    idt.install(InterruptIndex::Keyboard.as_u8(), InterruptHandler::Keyboard);
    idt.install(InterruptIndex::RTC.as_u8(), InterruptHandler::Rtc);
    idt.install(InterruptIndex::ACPI.as_u8(), InterruptHandler::Acpi);
    idt
}

} // verus!
