use rglua::vtable::{CallingConvention, SlotDescriptor, VTablePointer, VirtualTable, POINTER_SIZE};

fn synthetic(n: usize) -> VirtualTable {
    let mut slots = Vec::new();
    for i in 0..n {
        // A distinct recognizable address per slot.
        slots.push(0x1000 + (i as u64) * 0x10);
    }
    VirtualTable::new(slots)
}

#[test]
fn dispatch_slot_zero() {
    let vt = synthetic(4);
    let d = SlotDescriptor { index: 0, skip: 0, convention: CallingConvention::C };
    assert_eq!(d.effective(), 0);
    assert_eq!(d.byte_offset(), 0);
    assert_eq!(vt.dispatch_address(&d), 0x1000);
}

#[test]
fn dispatch_skip_corrected_slot() {
    let vt = synthetic(20);
    let d = SlotDescriptor { index: 2, skip: 15, convention: CallingConvention::C };
    assert_eq!(d.effective(), 17);
    assert_eq!(d.byte_offset(), 17 * POINTER_SIZE);
    assert_eq!(vt.dispatch_address(&d), 0x1000 + 17 * 0x10);
}

#[test]
fn dispatch_large_slot() {
    let vt = synthetic(200);
    let d = SlotDescriptor { index: 26, skip: 173, convention: CallingConvention::C };
    assert_eq!(d.effective(), 199);
    assert_eq!(d.byte_offset(), 199 * POINTER_SIZE);
    assert_eq!(vt.dispatch_address(&d), 0x1000 + 199 * 0x10);
}

#[test]
fn byte_offset_is_effective_times_pointer_size() {
    for (index, skip) in [(0usize, 0usize), (1, 0), (3, 5), (9, 27), (41, 0)] {
        let d = SlotDescriptor { index, skip, convention: CallingConvention::System };
        assert_eq!(d.byte_offset(), (index + skip) * POINTER_SIZE);
    }
}

#[test]
fn raw_pointer_slot_addresses() {
    let p = VTablePointer::new(0x7F00_0000);
    assert_eq!(p.object_offset, 0);
    let d = SlotDescriptor { index: 2, skip: 15, convention: CallingConvention::ThisCall };
    assert_eq!(p.slot_address(&d), 0x7F00_0000 + 17 * POINTER_SIZE as u64);
}

#[test]
fn table_length_is_slot_count() {
    let vt = synthetic(7);
    assert_eq!(vt.len(), 7);
}
