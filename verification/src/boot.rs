//! Boot orchestration. Bringing the interrupt subsystem up is a strict
//! total order: clear the console, register the keyboard handler, populate
//! the descriptor table, load the table register, remap the controller,
//! unmask the keyboard line, and only then enable interrupts globally.
//! Each transition requires the stage the previous one established, so a
//! caller cannot reorder the sequence. The hardware-facing steps hand back
//! a `BootAction` for the unverified shell to perform (the privileged
//! table load, the controller programming, the global enable).

use vstd::prelude::*;
use crate::console::Console;
use crate::console::cleared_cell;
use crate::idt::IdtReg;
use crate::idt::IdtTable;
use crate::idt::entry_spec;
use crate::idt::idt_entry;
use crate::idt::idt_reg;
use crate::idt::reg_spec;
use crate::idt::zero_entry;

verus! {

/// How far the boot sequence has come. The stages stand in the one order
/// in which they may be passed.
#[derive(Clone, Copy, PartialEq, Eq, Structural, Debug)]
pub enum BootStage {
    Start,
    ScreenCleared,
    HandlerRegistered,
    TablePopulated,
    TableLoaded,
    ControllerRemapped,
    IrqUnmasked,
    InterruptsEnabled,
}

/// Position of a stage in the boot order.
pub open spec fn stage_index(s: BootStage) -> int {
    match s {
        BootStage::Start => 0,
        BootStage::ScreenCleared => 1,
        BootStage::HandlerRegistered => 2,
        BootStage::TablePopulated => 3,
        BootStage::TableLoaded => 4,
        BootStage::ControllerRemapped => 5,
        BootStage::IrqUnmasked => 6,
        BootStage::InterruptsEnabled => 7,
    }
}

/// A hardware step the unverified shell must perform when the sequence
/// hands it out: the privileged table load with the given register value,
/// the controller remap, the unmasking of one IRQ line, or the global
/// interrupt enable.
#[derive(Clone, Copy, PartialEq, Eq, Structural, Debug)]
pub enum BootAction {
    LoadTable(IdtReg),
    RemapController,
    UnmaskIrq(u8),
    EnableInterrupts,
}

/// The boot sequence: the stage reached so far, and the handler address
/// once one is registered. The handler slot is assigned exactly once, at
/// registration, and never changes afterwards.
pub struct Boot {
    pub stage: BootStage,
    pub handler: Option<u32>,
}

impl Boot {
    /// A handler is held exactly from registration on.
    pub open spec fn wf(self) -> bool {
        (self.handler is Some) == (stage_index(self.stage) >= 2)
    }

    /// The sequence before anything has happened.
    pub fn new() -> (r: Boot)
        ensures
            r.wf(),
            r.stage == BootStage::Start,
    {
        Boot { stage: BootStage::Start, handler: None }
    }

    /// First step: clear the console surface with the given background
    /// attribute. The orchestrator writes the surface this once and never
    /// again; afterwards the keyboard handler is its sole writer.
    pub fn clear_screen(&mut self, con: &mut Console, background: u8)
        requires
            old(self).wf(),
            old(self).stage == BootStage::Start,
            old(con).wf(),
        ensures
            final(self).wf(),
            final(self).stage == BootStage::ScreenCleared,
            final(con).wf(),
            final(con).width == old(con).width,
            final(con).capacity() == old(con).capacity(),
            forall|i: int|
                0 <= i < final(con).capacity() ==> final(con).cells@[i] == cleared_cell(
                    background,
                ),
    {
        con.clear(background);
        self.stage = BootStage::ScreenCleared;
    }

    /// Second step: register the keyboard handler's entry address in the
    /// single-assignment handler slot, before any table entry points at
    /// it and long before interrupts can fire.
    pub fn register_handler(&mut self, handler: u32)
        requires
            old(self).wf(),
            old(self).stage == BootStage::ScreenCleared,
        ensures
            final(self).wf(),
            final(self).stage == BootStage::HandlerRegistered,
            final(self).handler == Some(handler),
    {
        self.handler = Some(handler);
        self.stage = BootStage::HandlerRegistered;
    }

    /// Third step: point the descriptor table's entry for the given
    /// vector at the registered handler, with the given selector and
    /// flags; every other vector keeps its descriptor.
    pub fn populate_table(&mut self, table: &mut IdtTable, vector: u8, sel: u16, flags: u8)
        requires
            old(self).wf(),
            old(self).stage == BootStage::HandlerRegistered,
            old(table).wf(),
        ensures
            final(self).wf(),
            final(self).stage == BootStage::TablePopulated,
            final(self).handler == old(self).handler,
            final(table).wf(),
            final(table).entries@ == old(table).entries@.update(
                vector as int,
                entry_spec(old(self).handler->Some_0, sel, flags),
            ),
    {
        let handler = self.handler.unwrap();
        let e = idt_entry(handler, sel, flags);
        table.set_vector(vector, e);
        self.stage = BootStage::TablePopulated;
    }

    /// Fourth step: build the table-register value for the populated
    /// table's base address and hand out the privileged load. The load
    /// comes strictly after population: a vector must never be live
    /// before its descriptor is in place.
    pub fn load_table(&mut self, table: &IdtTable, base: u32) -> (a: BootAction)
        requires
            old(self).wf(),
            old(self).stage == BootStage::TablePopulated,
            table.wf(),
        ensures
            final(self).wf(),
            final(self).stage == BootStage::TableLoaded,
            final(self).handler == old(self).handler,
            a == BootAction::LoadTable(reg_spec(base)),
    {
        let reg = idt_reg(base);
        self.stage = BootStage::TableLoaded;
        BootAction::LoadTable(reg)
    }

    /// Fifth step: reprogram the controller's vector base, after the
    /// table is loaded and before any line is unmasked.
    pub fn remap_controller(&mut self) -> (a: BootAction)
        requires
            old(self).wf(),
            old(self).stage == BootStage::TableLoaded,
        ensures
            final(self).wf(),
            final(self).stage == BootStage::ControllerRemapped,
            final(self).handler == old(self).handler,
            a == BootAction::RemapController,
    {
        self.stage = BootStage::ControllerRemapped;
        BootAction::RemapController
    }

    /// Sixth step: unmask exactly the keyboard's IRQ line, after the
    /// remap so the line's vector matches the populated descriptor.
    pub fn enable_irq(&mut self, irq: u8) -> (a: BootAction)
        requires
            old(self).wf(),
            old(self).stage == BootStage::ControllerRemapped,
        ensures
            final(self).wf(),
            final(self).stage == BootStage::IrqUnmasked,
            final(self).handler == old(self).handler,
            a == BootAction::UnmaskIrq(irq),
    {
        self.stage = BootStage::IrqUnmasked;
        BootAction::UnmaskIrq(irq)
    }

    /// Last step: enable interrupts globally. Strictly after everything
    /// else; from here on the keyboard handler runs once per key event.
    pub fn enable_interrupts(&mut self) -> (a: BootAction)
        requires
            old(self).wf(),
            old(self).stage == BootStage::IrqUnmasked,
        ensures
            final(self).wf(),
            final(self).stage == BootStage::InterruptsEnabled,
            final(self).handler == old(self).handler,
            a == BootAction::EnableInterrupts,
    {
        self.stage = BootStage::InterruptsEnabled;
        BootAction::EnableInterrupts
    }
}

/// The whole boot sequence in its one admissible order. Clears the
/// console, registers the handler, builds a fresh descriptor table whose
/// one populated vector is the keyboard's, and returns the finished
/// sequence, the table (which must stay resident: the CPU dereferences it
/// on every interrupt), and the four hardware actions in the exact order
/// the shell must perform them.
pub fn boot(
    con: &mut Console,
    background: u8,
    handler: u32,
    irq: u8,
    sel: u16,
    flags: u8,
    table_base: u32,
) -> (r: (Boot, IdtTable, Vec<BootAction>))
    requires
        old(con).wf(),
    ensures
        r.0.wf(),
        r.0.stage == BootStage::InterruptsEnabled,
        r.0.handler == Some(handler),
        r.1.wf(),
        r.1.entries@[irq as int] == entry_spec(handler, sel, flags),
        forall|i: int| 0 <= i < 256 && i != irq ==> r.1.entries@[i] == zero_entry(),
        r.2@ == seq![
            BootAction::LoadTable(reg_spec(table_base)),
            BootAction::RemapController,
            BootAction::UnmaskIrq(irq),
            BootAction::EnableInterrupts,
        ],
        final(con).wf(),
        final(con).width == old(con).width,
        final(con).capacity() == old(con).capacity(),
        forall|i: int|
            0 <= i < final(con).capacity() ==> final(con).cells@[i] == cleared_cell(background),
{
    let mut b = Boot::new();
    b.clear_screen(con, background);
    b.register_handler(handler);
    let mut table = IdtTable::new();
    b.populate_table(&mut table, irq, sel, flags);
    let mut actions: Vec<BootAction> = Vec::new();
    let a = b.load_table(&table, table_base);
    actions.push(a);
    let a = b.remap_controller();
    actions.push(a);
    let a = b.enable_irq(irq);
    actions.push(a);
    let a = b.enable_interrupts();
    actions.push(a);
    proof {
        assert(actions@ =~= seq![
            BootAction::LoadTable(reg_spec(table_base)),
            BootAction::RemapController,
            BootAction::UnmaskIrq(irq),
            BootAction::EnableInterrupts,
        ]);
    }
    (b, table, actions)
}

} // verus!
