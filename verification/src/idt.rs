//! The interrupt descriptor table and its entry codec.
//!
//! An `Entry` is the 16-byte record the processor reads for one exception
//! vector: the handler address split over three fields, a code-segment
//! selector, and a 16-bit options field.  `EntryOptions` encodes the options
//! bits; `Idt` is the fixed-length table of entries indexed by vector number.

use vstd::prelude::*;

use bit_field::BitField;
use x86_64::instructions::segmentation::{Segment, CS};

verus! {

/// Number of vector slots the table holds.  Real hardware addresses up to
/// 256 vectors; this kernel populates only reserved low vectors, so the
/// table is kept short.  The value is a configuration constant, not a
/// hardware requirement.
pub const IDT_ENTRIES: usize = 16;

// ---------------------------------------------------------------------------
// Bit-level model of the 16-bit fields.
// ---------------------------------------------------------------------------

/// The result of setting bit `bit` of `v` to `value`.
pub open spec fn set_bit16(v: u16, bit: u16, value: bool) -> u16 {
    if value {
        v | (1u16 << bit)
    } else {
        v & !(1u16 << bit)
    }
}

/// Mask that keeps every bit of a 16-bit field except `start..end`.
pub open spec fn keep_mask16(start: u16, end: u16) -> u16 {
    !(!0u16 << ((16 - end) as u16) >> ((16 - end) as u16) >> start << start)
}

/// The result of replacing bits `start..end` of `v` by `value`.
pub open spec fn set_bits16(v: u16, start: u16, end: u16, value: u16) -> u16 {
    (v & keep_mask16(start, end)) | (value << start)
}

/// The present flag: bit 15 of the options field.
pub open spec fn present_of(bits: u16) -> bool {
    bits & 0x8000 != 0
}

/// The interrupt-enable-on-entry flag: bit 8 of the options field.
pub open spec fn interrupts_enabled_of(bits: u16) -> bool {
    bits & 0x0100 != 0
}

/// The descriptor privilege level: bits 13..15 of the options field.
pub open spec fn privilege_of(bits: u16) -> u16 {
    (bits >> 13) & 3
}

/// The stack-index field: bits 0..3 of the options field.
pub open spec fn stack_index_of(bits: u16) -> u16 {
    bits & 7
}

/// The fixed must-be-one pattern: bits 9..12 of the options field.
pub open spec fn must_be_one_of(bits: u16) -> u16 {
    (bits >> 9) & 7
}

// ---------------------------------------------------------------------------
// Trusted calls into outside crates.
// ---------------------------------------------------------------------------

/// Relies on `bit_field::BitField::set_bit` for `u16`: sets or clears one
/// bit, `*self |= 1 << bit` or `*self &= !(1 << bit)`; panics when
/// `bit >= 16`, which the precondition rules out.
#[verifier::external_body]
fn bf_set_bit(v: u16, bit: u16, value: bool) -> (r: u16)
    requires
        bit < 16,
    ensures
        r == set_bit16(v, bit, value),
{
    let mut x = v;
    x.set_bit(bit as usize, value);
    x
}

/// Relies on `bit_field::BitField::set_bits` for `u16`: replaces bits
/// `start..end` by `value`, `(*self & bitmask) | (value << start)` with
/// `bitmask = !(!0 << (16-end) >> (16-end) >> start << start)`; panics when
/// the range is empty or out of bounds or `value` does not fit in it, which
/// the preconditions rule out.
#[verifier::external_body]
fn bf_set_bits(v: u16, start: u16, end: u16, value: u16) -> (r: u16)
    requires
        start < end,
        end <= 16,
        end - start < 16,
        value < (1u16 << ((end - start) as u16)),
    ensures
        r == set_bits16(v, start, end, value),
{
    let mut x = v;
    x.set_bits((start as usize)..(end as usize), value);
    x
}

/// Relies on `x86_64::instructions::segmentation::CS::get_reg`: reads the
/// current value of the `cs` register.  The value is machine state, so
/// nothing is promised of it.
#[verifier::external_body]
pub(crate) fn current_code_selector() -> SegmentSelector {
    SegmentSelector(CS::get_reg().0)
}

// ---------------------------------------------------------------------------
// Code-segment selector.
// ---------------------------------------------------------------------------

/// A code-segment selector: a descriptor-table index in bits 3..16 and a
/// requested privilege level in bits 0..2.
#[derive(Clone, Copy, Debug, PartialEq, Eq, Structural)]
pub struct SegmentSelector(pub u16);

impl SegmentSelector {
    /// The descriptor-table index the selector names.
    pub open spec fn spec_index(self) -> u16 {
        self.0 >> 3
    }

    /// The requested privilege level, 0 through 3.
    pub open spec fn spec_rpl(self) -> u16 {
        self.0 & 3
    }

    /// Packs a descriptor-table index and a requested privilege level.
    pub fn new(index: u16, rpl: u16) -> (r: SegmentSelector)
        requires
            index < 0x2000,
            rpl <= 3,
        ensures
            r.0 == (index << 3u16) | rpl,
            r.spec_index() == index,
            r.spec_rpl() == rpl,
    {
        let bits: u16 = (index << 3) | rpl;
        proof {
            assert(index < 0x2000 && rpl <= 3 ==> (((index << 3u16) | rpl) >> 3u16) == index
                && (((index << 3u16) | rpl) & 3) == rpl) by (bit_vector);
        }
        SegmentSelector(bits)
    }
}

// ---------------------------------------------------------------------------
// The options field of one descriptor entry.
// ---------------------------------------------------------------------------

/// The 16-bit options field of a descriptor entry: present flag (bit 15),
/// privilege level (bits 13..15), must-be-one pattern (bits 9..12),
/// interrupt-enable flag (bit 8) and stack index (bits 0..3).
#[derive(Clone, Copy, Debug, PartialEq, Eq, Structural)]
pub struct EntryOptions(pub u16);

impl EntryOptions {
    /// Options with only the hardware's must-be-one bits set: not present,
    /// interrupts disabled on entry, privilege 0, no stack index.
    pub fn minimal() -> (r: EntryOptions)
        ensures
            r.0 == 0x0E00,
            !present_of(r.0),
    {
        proof {
            assert(0b111u16 < (1u16 << ((12u16 - 9u16) as u16))) by (bit_vector);
            assert(set_bits16(0u16, 9, 12, 0b111) == 0x0E00u16) by (bit_vector);
            assert(!present_of(0x0E00u16)) by (bit_vector);
        }
        let options = bf_set_bits(0, 9, 12, 0b111);
        EntryOptions(options)
    }

    /// The default options of an installed entry: present, interrupts
    /// disabled on entry, privilege 0, no stack index.
    pub fn new() -> (r: EntryOptions)
        ensures
            r.0 == 0x8E00,
            present_of(r.0),
    {
        let mut options = Self::minimal();
        options.set_present(true);
        options.disable_interrupts(true);
        proof {
            assert(set_bit16(0x0E00u16, 15, true) == 0x8E00u16) by (bit_vector);
            assert(set_bit16(0x8E00u16, 8, false) == 0x8E00u16) by (bit_vector);
            assert(present_of(0x8E00u16)) by (bit_vector);
        }
        options
    }

    /// Sets or clears the present flag; every other field is unchanged.
    pub fn set_present(&mut self, present: bool)
        ensures
            final(self).0 == set_bit16(old(self).0, 15, present),
            present_of(final(self).0) == present,
            interrupts_enabled_of(final(self).0) == interrupts_enabled_of(old(self).0),
            privilege_of(final(self).0) == privilege_of(old(self).0),
            stack_index_of(final(self).0) == stack_index_of(old(self).0),
            must_be_one_of(final(self).0) == must_be_one_of(old(self).0),
    {
        let bits = bf_set_bit(self.0, 15, present);
        proof {
            let b0 = old(self).0;
            assert(present_of(set_bit16(b0, 15, present)) == present
                && interrupts_enabled_of(set_bit16(b0, 15, present)) == interrupts_enabled_of(b0)
                && privilege_of(set_bit16(b0, 15, present)) == privilege_of(b0)
                && stack_index_of(set_bit16(b0, 15, present)) == stack_index_of(b0)
                && must_be_one_of(set_bit16(b0, 15, present)) == must_be_one_of(b0))
                by (bit_vector);
        }
        self.0 = bits;
    }

    /// Chooses whether hardware interrupts stay disabled while the handler
    /// runs (bit 8 is the enable flag, so disabling clears it); every other
    /// field is unchanged.
    pub fn disable_interrupts(&mut self, disable: bool)
        ensures
            final(self).0 == set_bit16(old(self).0, 8, !disable),
            interrupts_enabled_of(final(self).0) == !disable,
            present_of(final(self).0) == present_of(old(self).0),
            privilege_of(final(self).0) == privilege_of(old(self).0),
            stack_index_of(final(self).0) == stack_index_of(old(self).0),
            must_be_one_of(final(self).0) == must_be_one_of(old(self).0),
    {
        let bits = bf_set_bit(self.0, 8, !disable);
        proof {
            let b0 = old(self).0;
            let v = !disable;
            assert(interrupts_enabled_of(set_bit16(b0, 8, v)) == v
                && present_of(set_bit16(b0, 8, v)) == present_of(b0)
                && privilege_of(set_bit16(b0, 8, v)) == privilege_of(b0)
                && stack_index_of(set_bit16(b0, 8, v)) == stack_index_of(b0)
                && must_be_one_of(set_bit16(b0, 8, v)) == must_be_one_of(b0))
                by (bit_vector);
        }
        self.0 = bits;
    }

    /// Sets the privilege level.  Only the low two bits of `dpl` fit the
    /// field, so the value is masked to them — an out-of-range request
    /// never corrupts neighbouring bits.  Every other field is unchanged.
    pub fn set_privilege_level(&mut self, dpl: u16)
        ensures
            final(self).0 == set_bits16(old(self).0, 13, 15, dpl & 3),
            privilege_of(final(self).0) == dpl & 3,
            present_of(final(self).0) == present_of(old(self).0),
            interrupts_enabled_of(final(self).0) == interrupts_enabled_of(old(self).0),
            stack_index_of(final(self).0) == stack_index_of(old(self).0),
            must_be_one_of(final(self).0) == must_be_one_of(old(self).0),
    {
        let masked = dpl & 3;
        proof {
            assert((dpl & 3) < (1u16 << ((15u16 - 13u16) as u16))) by (bit_vector);
            let b0 = old(self).0;
            let m = dpl & 3;
            assert(privilege_of(set_bits16(b0, 13, 15, m)) == m
                && present_of(set_bits16(b0, 13, 15, m)) == present_of(b0)
                && interrupts_enabled_of(set_bits16(b0, 13, 15, m)) == interrupts_enabled_of(b0)
                && stack_index_of(set_bits16(b0, 13, 15, m)) == stack_index_of(b0)
                && must_be_one_of(set_bits16(b0, 13, 15, m)) == must_be_one_of(b0))
                by (bit_vector)
                requires
                    m == dpl & 3,
            ;
        }
        let bits = bf_set_bits(self.0, 13, 15, masked);
        self.0 = bits;
    }

    /// Sets the stack-index field.  Only the low three bits of `index` fit
    /// the field, so the value is masked to them — an out-of-range request
    /// never corrupts neighbouring bits.  Every other field is unchanged.
    pub fn set_stack_index(&mut self, index: u16)
        ensures
            final(self).0 == set_bits16(old(self).0, 0, 3, index & 7),
            stack_index_of(final(self).0) == index & 7,
            present_of(final(self).0) == present_of(old(self).0),
            interrupts_enabled_of(final(self).0) == interrupts_enabled_of(old(self).0),
            privilege_of(final(self).0) == privilege_of(old(self).0),
            must_be_one_of(final(self).0) == must_be_one_of(old(self).0),
    {
        let masked = index & 7;
        proof {
            assert((index & 7) < (1u16 << ((3u16 - 0u16) as u16))) by (bit_vector);
            let b0 = old(self).0;
            let m = index & 7;
            assert(stack_index_of(set_bits16(b0, 0, 3, m)) == m
                && present_of(set_bits16(b0, 0, 3, m)) == present_of(b0)
                && interrupts_enabled_of(set_bits16(b0, 0, 3, m)) == interrupts_enabled_of(b0)
                && privilege_of(set_bits16(b0, 0, 3, m)) == privilege_of(b0)
                && must_be_one_of(set_bits16(b0, 0, 3, m)) == must_be_one_of(b0))
                by (bit_vector)
                requires
                    m == index & 7,
            ;
        }
        let bits = bf_set_bits(self.0, 0, 3, masked);
        self.0 = bits;
    }

    /// The raw 16-bit encoding of the options.
    pub fn bits(&self) -> (r: u16)
        ensures
            r == self.0,
    {
        self.0
    }
}

// ---------------------------------------------------------------------------
// One descriptor entry.
// ---------------------------------------------------------------------------

/// One descriptor record of the table: the handler address split over three
/// fields, the code-segment selector, the options field and reserved
/// padding.  The field widths and order are fixed by hardware.
#[derive(Clone, Copy, Debug, PartialEq, Eq, Structural)]
pub struct Entry {
    /// Bits 0..16 of the handler address.
    pub pointer_low: u16,
    /// Selector of the code segment the handler runs in.
    pub gdt_selector: SegmentSelector,
    /// Present, privilege, interrupt-enable and stack-index bits.
    pub options: EntryOptions,
    /// Bits 16..32 of the handler address.
    pub pointer_mid: u16,
    /// Bits 32..64 of the handler address.
    pub pointer_rem: u32,
    /// Reserved by hardware; always zero here.
    pub reserved: u32,
}

/// The entry that `Entry::new` builds for a selector and a handler address.
pub open spec fn spec_entry(gdt_selector: SegmentSelector, handler: u64) -> Entry {
    Entry {
        pointer_low: (handler & 0xFFFF) as u16,
        gdt_selector: gdt_selector,
        options: EntryOptions(0x8E00),
        pointer_mid: ((handler >> 16u64) & 0xFFFF) as u16,
        pointer_rem: (handler >> 32u64) as u32,
        reserved: 0,
    }
}

/// The placeholder that fills an unpopulated slot: not present, null
/// selector, null handler address.
pub open spec fn spec_missing() -> Entry {
    Entry {
        pointer_low: 0,
        gdt_selector: SegmentSelector(0),
        options: EntryOptions(0x0E00),
        pointer_mid: 0,
        pointer_rem: 0,
        reserved: 0,
    }
}

impl Entry {
    /// The handler address the entry encodes, reassembled from its three
    /// fields.
    pub open spec fn spec_handler_addr(self) -> u64 {
        (self.pointer_low as u64) | ((self.pointer_mid as u64) << 16u64) | ((
        self.pointer_rem as u64) << 32u64)
    }

    /// Whether the present flag of the entry's options is set.
    pub open spec fn spec_is_present(self) -> bool {
        present_of(self.options.0)
    }

    /// Builds a present, interrupt-disabling, privilege-0 entry for the
    /// given selector and handler address.  The address round-trips: the
    /// three pointer fields reassemble to exactly `handler`.
    pub fn new(gdt_selector: SegmentSelector, handler: u64) -> (r: Entry)
        ensures
            r == spec_entry(gdt_selector, handler),
            r.spec_handler_addr() == handler,
            r.spec_is_present(),
    {
        proof {
            assert(handler & 0xFFFF < 0x10000) by (bit_vector);
            assert((handler >> 16u64) & 0xFFFF < 0x10000) by (bit_vector);
            assert(handler >> 32u64 < 0x1_0000_0000) by (bit_vector);
            assert((((handler & 0xFFFF) as u16) as u64) | (((((handler >> 16u64)
                & 0xFFFF) as u16) as u64) << 16u64) | ((((handler >> 32u64) as u32) as u64)
                << 32u64) == handler) by (bit_vector);
            assert(present_of(0x8E00u16)) by (bit_vector);
        }
        Entry {
            pointer_low: (handler & 0xFFFF) as u16,
            gdt_selector: gdt_selector,
            options: EntryOptions::new(),
            pointer_mid: ((handler >> 16) & 0xFFFF) as u16,
            pointer_rem: (handler >> 32) as u32,
            reserved: 0,
        }
    }

    /// Builds the placeholder for an unpopulated slot.
    pub fn missing() -> (r: Entry)
        ensures
            r == spec_missing(),
            !r.spec_is_present(),
            r.spec_handler_addr() == 0,
    {
        proof {
            assert(((0u16 as u64) | ((0u16 as u64) << 16u64) | ((0u32 as u64) << 32u64))
                == 0u64) by (bit_vector);
        }
        Entry {
            pointer_low: 0,
            gdt_selector: SegmentSelector(0),
            options: EntryOptions::minimal(),
            pointer_mid: 0,
            pointer_rem: 0,
            reserved: 0,
        }
    }

    /// The handler address the entry encodes.
    pub fn handler_addr(&self) -> (r: u64)
        ensures
            r == self.spec_handler_addr(),
    {
        (self.pointer_low as u64) | ((self.pointer_mid as u64) << 16) | ((
        self.pointer_rem as u64) << 32)
    }

    /// Whether the entry is marked present.
    pub fn is_present(&self) -> (r: bool)
        ensures
            r == self.spec_is_present(),
    {
        let bits = self.options.0;
        proof {
            assert((bits & 0x8000 != 0) == ((bits >> 15u16) & 1 == 1)) by (bit_vector);
        }
        (bits >> 15) & 1 == 1
    }
}

// ---------------------------------------------------------------------------
// The descriptor table.
// ---------------------------------------------------------------------------

/// The error a table operation reports when it refuses an argument.
#[derive(Clone, Copy, Debug, PartialEq, Eq, Structural)]
pub enum IdtError {
    /// The requested vector lies outside the table's populated range.
    VectorOutOfRange,
}

/// The interrupt descriptor table: a fixed-length array of entries indexed
/// by exception-vector number.  Unpopulated slots hold the missing entry.
pub struct Idt {
    entries: Vec<Entry>,
}

impl View for Idt {
    type V = Seq<Entry>;

    closed spec fn view(&self) -> Seq<Entry> {
        self.entries@
    }
}

impl Idt {
    /// The table always holds exactly `IDT_ENTRIES` slots.
    pub open spec fn wf(self) -> bool {
        self@.len() == IDT_ENTRIES
    }

    /// Returns a table with every slot set to the missing entry.
    pub fn new() -> (r: Idt)
        ensures
            r.wf(),
            forall|i: int| 0 <= i < IDT_ENTRIES ==> r@[i] == spec_missing(),
    {
        let mut entries: Vec<Entry> = Vec::new();
        let mut i: usize = 0;
        while i < IDT_ENTRIES
            invariant
                i == entries@.len(),
                i <= IDT_ENTRIES,
                forall|j: int| 0 <= j < i ==> entries@[j] == spec_missing(),
            decreases IDT_ENTRIES - i,
        {
            entries.push(Entry::missing());
            i = i + 1;
        }
        Idt { entries }
    }

    /// The number of slots the table holds.
    pub fn len(&self) -> (r: usize)
        ensures
            r == self@.len(),
    {
        self.entries.len()
    }

    /// The entry in slot `index`.
    pub fn entry(&self, index: usize) -> (r: Entry)
        requires
            index < self@.len(),
        ensures
            r == self@[index as int],
    {
        self.entries[index]
    }

    /// Overwrites slot `vector` with an entry for the given selector and
    /// handler address.  A vector outside the table's range is rejected and
    /// the table is left exactly as it was.
    pub fn set_handler_for_selector(
        &mut self,
        vector: u8,
        selector: SegmentSelector,
        handler: u64,
    ) -> (r: Result<(), IdtError>)
        requires
            old(self).wf(),
        ensures
            final(self).wf(),
            vector < IDT_ENTRIES ==> r is Ok && final(self)@ == old(self)@.update(
                vector as int,
                spec_entry(selector, handler),
            ),
            vector >= IDT_ENTRIES ==> r == Err::<(), IdtError>(IdtError::VectorOutOfRange)
                && final(self)@ == old(self)@,
    {
        if (vector as usize) < IDT_ENTRIES {
            self.entries[vector as usize] = Entry::new(selector, handler);
            Ok(())
        } else {
            Err(IdtError::VectorOutOfRange)
        }
    }

    /// Overwrites slot `vector` with an entry for the caller's current
    /// code-segment selector and the given handler address, as
    /// `set_handler_for_selector` does.  The selector is read from the
    /// machine, so the contract names it only existentially.
    pub fn set_handler(&mut self, vector: u8, handler: u64) -> (r: Result<(), IdtError>)
        requires
            old(self).wf(),
        ensures
            final(self).wf(),
            vector < IDT_ENTRIES ==> r is Ok && exists|sel: SegmentSelector|
                final(self)@ == old(self)@.update(vector as int, #[trigger] spec_entry(sel, handler)),
            vector >= IDT_ENTRIES ==> r == Err::<(), IdtError>(IdtError::VectorOutOfRange)
                && final(self)@ == old(self)@,
    {
        let selector = current_code_selector();
        let r = self.set_handler_for_selector(vector, selector, handler);
        proof {
            if vector < IDT_ENTRIES {
                assert(self@ == old(self)@.update(vector as int, spec_entry(selector, handler)));
            }
        }
        r
    }

    /// As `set_handler`, then overrides the slot's options field with the
    /// caller's options.
    pub fn set_handler_with_options(
        &mut self,
        vector: u8,
        handler: u64,
        options: EntryOptions,
    ) -> (r: Result<(), IdtError>)
        requires
            old(self).wf(),
        ensures
            final(self).wf(),
            vector < IDT_ENTRIES ==> r is Ok && exists|sel: SegmentSelector|
                final(self)@ == old(self)@.update(
                    vector as int,
                    #[trigger] spec_entry_with_options(sel, handler, options),
                ),
            vector >= IDT_ENTRIES ==> r == Err::<(), IdtError>(IdtError::VectorOutOfRange)
                && final(self)@ == old(self)@,
    {
        let selector = current_code_selector();
        if (vector as usize) < IDT_ENTRIES {
            let mut e = Entry::new(selector, handler);
            e.options = options;
            self.entries[vector as usize] = e;
            proof {
                assert(self@ == old(self)@.update(
                    vector as int,
                    spec_entry_with_options(selector, handler, options),
                ));
            }
            Ok(())
        } else {
            Err(IdtError::VectorOutOfRange)
        }
    }
}

/// The entry that `set_handler_with_options` writes: as `spec_entry`, with
/// the caller's options in place of the defaults.
pub open spec fn spec_entry_with_options(
    gdt_selector: SegmentSelector,
    handler: u64,
    options: EntryOptions,
) -> Entry {
    Entry { options: options, ..spec_entry(gdt_selector, handler) }
}

/// The entry codec loses nothing: the three pointer fields of a built entry
/// reassemble to exactly the handler address it was built from.
pub proof fn lemma_entry_addr_roundtrip(gdt_selector: SegmentSelector, handler: u64)
    ensures
        spec_entry(gdt_selector, handler).spec_handler_addr() == handler,
        spec_entry(gdt_selector, handler).spec_is_present(),
{
    assert((((handler & 0xFFFF) as u16) as u64) | (((((handler >> 16u64) & 0xFFFF) as u16) as u64)
        << 16u64) | ((((handler >> 32u64) as u32) as u64) << 32u64) == handler) by (bit_vector);
    assert(present_of(0x8E00u16)) by (bit_vector);
}

} // verus!
