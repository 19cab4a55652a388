use jadro::idt::{Entry, EntryOptions, Idt, IdtError, SegmentSelector, IDT_ENTRIES};

#[test]
fn minimal_options_are_exactly_the_must_be_one_bits() {
    let options = EntryOptions::minimal();
    assert_eq!(options.bits(), 0x0E00);
}

#[test]
fn default_options_are_present_and_interrupt_disabling() {
    let options = EntryOptions::new();
    assert_eq!(options.bits(), 0x8E00);
}

#[test]
fn set_present_drives_bit_fifteen_alone() {
    let mut options = EntryOptions::minimal();
    options.set_present(true);
    assert_eq!(options.bits(), 0x8E00);
    options.set_present(false);
    assert_eq!(options.bits(), 0x0E00);
}

#[test]
fn disable_interrupts_drives_bit_eight_inverted() {
    let mut options = EntryOptions::minimal();
    options.disable_interrupts(false);
    assert_eq!(options.bits(), 0x0F00);
    options.disable_interrupts(true);
    assert_eq!(options.bits(), 0x0E00);
}

#[test]
fn set_privilege_level_writes_bits_thirteen_and_fourteen() {
    let mut options = EntryOptions::minimal();
    options.set_privilege_level(3);
    assert_eq!(options.bits(), 0x6E00);
    options.set_privilege_level(0);
    assert_eq!(options.bits(), 0x0E00);
}

#[test]
fn set_privilege_level_masks_an_out_of_range_request() {
    let mut options = EntryOptions::minimal();
    options.set_privilege_level(5);
    assert_eq!(options.bits(), 0x2E00);
}

#[test]
fn set_stack_index_writes_the_low_three_bits() {
    let mut options = EntryOptions::minimal();
    options.set_stack_index(5);
    assert_eq!(options.bits(), 0x0E05);
}

#[test]
fn set_stack_index_masks_an_out_of_range_request() {
    let mut options = EntryOptions::minimal();
    options.set_stack_index(9);
    assert_eq!(options.bits(), 0x0E01);
}

#[test]
fn selector_packs_index_and_privilege() {
    let selector = SegmentSelector::new(2, 3);
    assert_eq!(selector.0, 0x13);
    let null = SegmentSelector::new(0, 0);
    assert_eq!(null.0, 0);
}

#[test]
fn entry_splits_the_handler_address_over_three_fields() {
    let selector = SegmentSelector::new(1, 0);
    let entry = Entry::new(selector, 0x1122_3344_5566_7788);
    assert_eq!(entry.pointer_low, 0x7788);
    assert_eq!(entry.pointer_mid, 0x5566);
    assert_eq!(entry.pointer_rem, 0x1122_3344);
    assert_eq!(entry.gdt_selector, selector);
    assert_eq!(entry.options.bits(), 0x8E00);
    assert_eq!(entry.reserved, 0);
}

#[test]
fn entry_handler_address_round_trips() {
    let selector = SegmentSelector::new(1, 0);
    let entry = Entry::new(selector, 0xFFFF_FFFF_FFFF_FFFF);
    assert_eq!(entry.handler_addr(), 0xFFFF_FFFF_FFFF_FFFF);
    let entry = Entry::new(selector, 0xCAFE_BABE);
    assert_eq!(entry.handler_addr(), 0xCAFE_BABE);
    assert!(entry.is_present());
}

#[test]
fn missing_entry_is_absent_and_null() {
    let entry = Entry::missing();
    assert!(!entry.is_present());
    assert_eq!(entry.handler_addr(), 0);
    assert_eq!(entry.gdt_selector.0, 0);
    assert_eq!(entry.options.bits(), 0x0E00);
}

#[test]
fn fresh_table_exposes_every_slot_as_missing() {
    let table = Idt::new();
    assert_eq!(table.len(), IDT_ENTRIES);
    for i in 0..table.len() {
        assert!(!table.entry(i).is_present());
        assert_eq!(table.entry(i), Entry::missing());
    }
}

#[test]
fn set_handler_populates_only_the_requested_slot() {
    let mut table = Idt::new();
    let handler: u64 = 0xABCD_EF01_2345;
    assert!(table.set_handler(3, handler).is_ok());
    for i in 0..table.len() {
        if i == 3 {
            assert!(table.entry(i).is_present());
            assert_eq!(table.entry(i).handler_addr(), handler);
        } else {
            assert!(!table.entry(i).is_present());
        }
    }
}

#[test]
fn set_handler_for_selector_records_the_given_selector() {
    let mut table = Idt::new();
    let selector = SegmentSelector::new(5, 0);
    assert!(table.set_handler_for_selector(7, selector, 0x1000).is_ok());
    assert_eq!(table.entry(7).gdt_selector, selector);
    assert_eq!(table.entry(7).handler_addr(), 0x1000);
}

#[test]
fn out_of_range_vector_is_rejected_and_the_table_is_untouched() {
    let mut table = Idt::new();
    assert!(table.set_handler(1, 0x42).is_ok());
    let before: Vec<Entry> = (0..table.len()).map(|i| table.entry(i)).collect();
    assert_eq!(
        table.set_handler(IDT_ENTRIES as u8, 0x9999),
        Err(IdtError::VectorOutOfRange)
    );
    assert_eq!(table.set_handler(255, 0x9999), Err(IdtError::VectorOutOfRange));
    for i in 0..table.len() {
        assert_eq!(table.entry(i), before[i]);
    }
}

#[test]
fn set_handler_with_options_overrides_the_options_field() {
    let mut table = Idt::new();
    let mut options = EntryOptions::new();
    options.set_privilege_level(3);
    options.set_stack_index(2);
    assert!(table.set_handler_with_options(6, 0x2000, options).is_ok());
    assert_eq!(table.entry(6).options.bits(), options.bits());
    assert_eq!(table.entry(6).handler_addr(), 0x2000);
    assert_eq!(
        table.set_handler_with_options(200, 0x2000, options),
        Err(IdtError::VectorOutOfRange)
    );
}
