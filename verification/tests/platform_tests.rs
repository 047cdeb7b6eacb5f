use kernel::acpi_support::AcpiMemoryHandler;
use kernel::interrupts::{
    init_idt, IdtEntry, InterruptHandler, InterruptIndex, BREAKPOINT_VECTOR,
    DOUBLE_FAULT_IST_INDEX, DOUBLE_FAULT_VECTOR, PAGE_FAULT_VECTOR, PIC_OFFSET,
};
use kernel::QemuExitCode;

#[test]
fn interrupt_vectors_sit_above_the_exceptions() {
    assert_eq!(PIC_OFFSET, 32);
    assert_eq!(InterruptIndex::Timer.as_u8(), 32);
    assert_eq!(InterruptIndex::Keyboard.as_u8(), 33);
    assert_eq!(InterruptIndex::RTC.as_u8(), 40);
    assert_eq!(InterruptIndex::ACPI.as_u8(), 41);
    assert_eq!(InterruptIndex::PrimaryATA.as_u8(), 46);
    assert_eq!(InterruptIndex::SecondaryATA.as_u8(), 47);
    assert_eq!(InterruptIndex::Timer.as_usize(), 32usize);
    assert_eq!(InterruptIndex::RTC.as_usize(), 40usize);
}

#[test]
fn idt_layout_matches_the_kernel_design() {
    let idt = init_idt();
    assert_eq!(
        idt.entry_at(BREAKPOINT_VECTOR),
        Some(IdtEntry { handler: InterruptHandler::Breakpoint, stack_index: None }),
    );
    // the double fault handler runs on its own known-good stack
    assert_eq!(
        idt.entry_at(DOUBLE_FAULT_VECTOR),
        Some(IdtEntry {
            handler: InterruptHandler::DoubleFault,
            stack_index: Some(DOUBLE_FAULT_IST_INDEX),
        }),
    );
    assert_eq!(
        idt.entry_at(PAGE_FAULT_VECTOR),
        Some(IdtEntry { handler: InterruptHandler::PageFault, stack_index: None }),
    );
    assert_eq!(
        idt.entry_at(InterruptIndex::Timer.as_u8()),
        Some(IdtEntry { handler: InterruptHandler::Timer, stack_index: None }),
    );
    assert_eq!(
        idt.entry_at(InterruptIndex::Keyboard.as_u8()),
        Some(IdtEntry { handler: InterruptHandler::Keyboard, stack_index: None }),
    );
    assert_eq!(
        idt.entry_at(InterruptIndex::RTC.as_u8()),
        Some(IdtEntry { handler: InterruptHandler::Rtc, stack_index: None }),
    );
    assert_eq!(
        idt.entry_at(InterruptIndex::ACPI.as_u8()),
        Some(IdtEntry { handler: InterruptHandler::Acpi, stack_index: None }),
    );
    // no other vector carries a handler
    assert_eq!(idt.entry_at(0), None);
    assert_eq!(idt.entry_at(InterruptIndex::PrimaryATA.as_u8()), None);
    assert_eq!(idt.entry_at(InterruptIndex::SecondaryATA.as_u8()), None);
    assert_eq!(idt.entry_at(255), None);
}

#[test]
fn qemu_exit_codes_are_distinct() {
    assert_eq!(QemuExitCode::Success.code(), 0x10);
    assert_eq!(QemuExitCode::Failed.code(), 0x11);
    assert_ne!(QemuExitCode::Success, QemuExitCode::Failed);
}

#[test]
fn acpi_handler_offsets_physical_addresses() {
    let handler = AcpiMemoryHandler::new(0xFFFF_8000_0000_0000);
    assert_eq!(handler.virtual_start(0x000E_0000), 0xFFFF_8000_000E_0000);
    let identity = AcpiMemoryHandler::new(0);
    assert_eq!(identity.virtual_start(0x1234), 0x1234);
}
