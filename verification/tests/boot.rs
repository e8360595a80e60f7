use kbdboot::boot::{boot, Boot, BootAction, BootStage};
use kbdboot::console::Console;
use kbdboot::idt::{idt_entry, idt_reg, IdtTable, PM32BIT, PRESENT};

const KEYBOARD_IRQ: u8 = 1;
const CODE_SELECTOR: u16 = 1 << 3;
const TABLE_BASE: u32 = 0x100000;

#[test]
fn boot_emits_the_hardware_steps_in_order() {
    let mut con = Console::new(25, 80, 0x4f);
    let (b, table, actions) = boot(
        &mut con,
        0x4f,
        0xcafe_f00d,
        KEYBOARD_IRQ,
        CODE_SELECTOR,
        PM32BIT | PRESENT,
        TABLE_BASE,
    );
    assert_eq!(b.stage, BootStage::InterruptsEnabled);
    assert_eq!(b.handler, Some(0xcafe_f00d));
    assert_eq!(
        actions,
        vec![
            BootAction::LoadTable(idt_reg(TABLE_BASE)),
            BootAction::RemapController,
            BootAction::UnmaskIrq(KEYBOARD_IRQ),
            BootAction::EnableInterrupts,
        ]
    );
    // The keyboard vector holds the handler's gate; everything else is
    // the zeroed, not-present descriptor.
    let e = table.get(KEYBOARD_IRQ);
    assert_eq!(e, idt_entry(0xcafe_f00d, CODE_SELECTOR, PM32BIT | PRESENT));
    for v in 0..=255u8 {
        if v != KEYBOARD_IRQ {
            assert_eq!(table.get(v).flags, 0);
        }
    }
    // The console was cleared with the background attribute.
    for cell in &con.cells {
        assert_eq!(*cell, 0x4f00);
    }
}

#[test]
fn boot_steps_one_by_one() {
    let mut con = Console::new(2, 4, 0x07);
    let mut b = Boot::new();
    assert_eq!(b.stage, BootStage::Start);
    assert_eq!(b.handler, None);
    b.clear_screen(&mut con, 0x07);
    assert_eq!(b.stage, BootStage::ScreenCleared);
    b.register_handler(0x1234_5678);
    assert_eq!(b.stage, BootStage::HandlerRegistered);
    assert_eq!(b.handler, Some(0x1234_5678));
    let mut table = IdtTable::new();
    b.populate_table(&mut table, KEYBOARD_IRQ, CODE_SELECTOR, PM32BIT | PRESENT);
    assert_eq!(b.stage, BootStage::TablePopulated);
    assert_eq!(table.get(KEYBOARD_IRQ).addr_lo, 0x5678);
    assert_eq!(table.get(KEYBOARD_IRQ).addr_hi, 0x1234);
    let a = b.load_table(&table, TABLE_BASE);
    assert_eq!(b.stage, BootStage::TableLoaded);
    assert_eq!(a, BootAction::LoadTable(idt_reg(TABLE_BASE)));
    let a = b.remap_controller();
    assert_eq!(b.stage, BootStage::ControllerRemapped);
    assert_eq!(a, BootAction::RemapController);
    let a = b.enable_irq(KEYBOARD_IRQ);
    assert_eq!(b.stage, BootStage::IrqUnmasked);
    assert_eq!(a, BootAction::UnmaskIrq(KEYBOARD_IRQ));
    let a = b.enable_interrupts();
    assert_eq!(b.stage, BootStage::InterruptsEnabled);
    assert_eq!(a, BootAction::EnableInterrupts);
}
