//! Interrupt descriptor table: one 8-byte gate descriptor per interrupt
//! vector, 256 vectors, and the size/address register value that the CPU's
//! table-load instruction consumes.

use vstd::prelude::*;

verus! {

/// Number of vectors in the descriptor table.
pub const IDT_ENTRIES: usize = 256;

/// In-memory size of one gate descriptor, in bytes: five fields of
/// 2 + 2 + 1 + 1 + 2 bytes, packed in hardware order.
pub const ENTRY_BYTES: usize = 8;

/// Present bit of the descriptor flags byte.
pub const PRESENT: u8 = 0x80;

/// 32-bit-gate marker bit of the descriptor flags byte.
pub const PM32BIT: u8 = 0x08;

/// One interrupt-gate descriptor. The fields stand in the exact order the
/// CPU defines: low half of the handler address, code-segment selector, a
/// reserved byte that must be zero, the flags byte, high half of the
/// handler address. Together the fields occupy 8 bytes with no padding.
#[derive(Clone, Copy, PartialEq, Eq, Structural, Debug)]
pub struct IdtEntry {
    pub addr_lo: u16,
    pub sel: u16,
    pub zero: u8,
    pub flags: u8,
    pub addr_hi: u16,
}

/// The descriptor that `idt_entry` builds from a handler address, a
/// selector and a caller-supplied flags byte: the address split into
/// halves, the reserved byte zero, and the interrupt-gate type bits
/// `0b110` or-ed into the flags byte.
pub open spec fn entry_spec(proc: u32, sel: u16, flags: u8) -> IdtEntry {
    IdtEntry {
        addr_lo: (proc & 0xffff) as u16,
        sel: sel,
        zero: 0,
        flags: flags | 0b110,
        addr_hi: (proc >> 16) as u16,
    }
}

/// An all-zero descriptor: not present, the state of every vector that the
/// boot code does not populate.
pub open spec fn zero_entry() -> IdtEntry {
    IdtEntry { addr_lo: 0, sel: 0, zero: 0, flags: 0, addr_hi: 0 }
}

/// Builds one interrupt-gate descriptor. The low three bits of the flags
/// byte are or-ed with the interrupt-gate type `0b110` as a safety floor,
/// so the two gate-type bits `0b110` are set whatever the caller passed;
/// bit 0 of the caller's flags is passed through unchanged.
pub fn idt_entry(proc: u32, sel: u16, flags: u8) -> (r: IdtEntry)
    ensures
        r == entry_spec(proc, sel, flags),
{
    IdtEntry {
        addr_lo: (proc & 0xffff) as u16,
        sel: sel,
        zero: 0,
        flags: flags | 0b110,
        addr_hi: (proc >> 16) as u16,
    }
}

/// The descriptor table: exactly 256 gate descriptors, indexed by
/// interrupt vector number. Built once during boot; every vector the boot
/// code does not populate stays the all-zero, not-present descriptor.
pub struct IdtTable {
    pub entries: Vec<IdtEntry>,
}

impl IdtTable {
    /// Well-formedness: one descriptor per vector, 256 in all.
    pub open spec fn wf(self) -> bool {
        self.entries@.len() == IDT_ENTRIES
    }

    /// Makes a table with every one of the 256 vectors holding the
    /// all-zero, not-present descriptor.
    pub fn new() -> (r: IdtTable)
        ensures
            r.wf(),
            forall|i: int| 0 <= i < IDT_ENTRIES ==> r.entries@[i] == zero_entry(),
    {
        let mut entries: Vec<IdtEntry> = Vec::new();
        let mut i: usize = 0;
        while i < IDT_ENTRIES
            invariant
                i <= IDT_ENTRIES,
                entries@.len() == i,
                forall|j: int| 0 <= j < i ==> entries@[j] == zero_entry(),
            decreases IDT_ENTRIES - i,
        {
            entries.push(
                IdtEntry { addr_lo: 0, sel: 0, zero: 0, flags: 0, addr_hi: 0 },
            );
            i = i + 1;
        }
        IdtTable { entries }
    }

    /// Replaces the descriptor at one vector; every other vector keeps its
    /// descriptor. Any `u8` is a valid vector index.
    pub fn set_vector(&mut self, vector: u8, e: IdtEntry)
        requires
            old(self).wf(),
        ensures
            final(self).wf(),
            final(self).entries@ == old(self).entries@.update(vector as int, e),
    {
        self.entries[vector as usize] = e;
    }

    /// Reads the descriptor at one vector.
    pub fn get(&self, vector: u8) -> (r: IdtEntry)
        requires
            self.wf(),
        ensures
            r == self.entries@[vector as int],
    {
        self.entries[vector as usize]
    }
}

/// The register value the CPU's table-load instruction consumes: the
/// table's byte length minus one, per CPU convention, and the table's
/// base address.
#[derive(Clone, Copy, PartialEq, Eq, Structural, Debug)]
pub struct IdtReg {
    pub size: u16,
    pub addr: u32,
}

/// The register value for a table of 256 descriptors of 8 bytes at the
/// given base address: `size` is the byte length minus one.
pub open spec fn reg_spec(base: u32) -> IdtReg {
    IdtReg { size: (ENTRY_BYTES * IDT_ENTRIES - 1) as u16, addr: base }
}

/// Builds the table-register value for a descriptor table placed at
/// `base`.
pub fn idt_reg(base: u32) -> (r: IdtReg)
    ensures
        r == reg_spec(base),
        r.size as int == ENTRY_BYTES * IDT_ENTRIES - 1,
{
    IdtReg { size: (ENTRY_BYTES * IDT_ENTRIES - 1) as u16, addr: base }
}

/// The two halves of the handler address reassemble to exactly the address
/// that was passed in, for every 32-bit address.
pub proof fn lemma_offset_round_trip(proc: u32, sel: u16, flags: u8)
    ensures
        (entry_spec(proc, sel, flags).addr_lo as u32) | ((entry_spec(proc, sel, flags).addr_hi as u32)
            << 16) == proc,
{
    assert((((proc & 0xffff) as u16) as u32) | ((((proc >> 16) as u16) as u32) << 16) == proc)
        by (bit_vector);
}

/// Gate-type bits 1 and 2 of the resulting descriptor's flags byte are set
/// for every caller-supplied flags byte: the builder or-s `0b110` in.
pub proof fn lemma_gate_bits_forced(proc: u32, sel: u16, flags: u8)
    ensures
        entry_spec(proc, sel, flags).flags & 0b110 == 0b110,
{
    assert((flags | 0b110) & 0b110 == 0b110) by (bit_vector);
}

/// For every caller-supplied flags byte with bit 0 clear, the low three
/// bits of the resulting descriptor's flags equal the interrupt-gate type
/// `0b110`, whatever bits 1 and 2 of the input held. (A set bit 0 is
/// passed through by the or, so it is left out here.)
pub proof fn lemma_gate_type_forced(proc: u32, sel: u16, flags: u8)
    requires
        flags & 0b001 == 0,
    ensures
        entry_spec(proc, sel, flags).flags & 0b111 == 0b110,
{
    assert(flags & 0b001 == 0 ==> (flags | 0b110) & 0b111 == 0b110) by (bit_vector);
}

} // verus!
