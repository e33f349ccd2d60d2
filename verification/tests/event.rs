use driver_xhci::event::{
    CommandCompletionEvent, EventRing, EventRingSegmentTable, EventRingSegmentTableEntry,
    PortStatusChangeEvent, TransferEvent,
};
use driver_xhci::registers::{Capability, Interrupter, Operational, Reg, RegWrite, Registers, Runtime};
use driver_xhci::trb::GenericTrb;

const BASE: u64 = 0x0010_0000;

fn registers() -> Registers {
    Registers::from(
        0xFEB0_0000,
        Capability {
            dw1: 0x0100_0020,
            hcsparams1: 0x0400_0020,
            hcsparams2: 0,
            hcsparams3: 0,
            hccparams1: 1,
            dboff: 0x2000,
            rtsoff: 0x1000,
            hccparams2: 0,
        },
        Operational { usbcmd: 0, usbsts: 1, pagesize: 1, dnctrl: 0, crcr: 0, dcbaap: 0, config: 0 },
        Runtime { mfindex: 0, primary: Interrupter { iman: 0, imod: 0, erstsz: 0, erstba: 0, erdp: 0 } },
    )
}

fn event(n: u32, cycle: bool) -> GenericTrb {
    GenericTrb { data_low: n, data_high: 0, status: 1 << 24, control: (32 << 10) | (cycle as u32) }
}

#[test]
fn empty_event_ring_gives_nothing() {
    let mut ring = EventRing::with_capacity(4, BASE);
    let mut regs = registers();
    assert_eq!(ring.len(), 4);
    assert_eq!(ring.addr(), BASE);
    assert_eq!(ring.next(&mut regs), None);
    assert_eq!(ring.write_idx, 0);
    assert!(ring.cycle_bit);
    assert!(regs.writes.is_empty());
    assert_eq!(regs.runtime.primary.erdp, 0);
}

#[test]
fn events_are_dequeued_in_order() {
    let mut ring = EventRing::with_capacity(8, BASE);
    let mut regs = registers();
    for i in 0..5 {
        ring.store(i, event(100 + i as u32, true));
    }
    for i in 0..5u64 {
        let got = ring.next(&mut regs);
        assert_eq!(got, Some(event(100 + i as u32, true)));
        assert_eq!(ring.write_idx as u64, i + 1);
        let expected = (BASE + 16 * (i + 1)) | 8;
        assert_eq!(regs.runtime.primary.erdp, expected);
        assert_eq!(regs.writes.last(), Some(&RegWrite { reg: Reg::Erdp, value: expected }));
    }
    assert_eq!(ring.next(&mut regs), None);
    assert_eq!(regs.writes.len(), 5);
    assert!(ring.cycle_bit);
}

#[test]
fn event_ring_wraps_once_for_more_events_than_entries() {
    let size = 4usize;
    let total = 6usize;
    let mut ring = EventRing::with_capacity(size, BASE);
    let mut regs = registers();
    let mut produced = 0usize;
    let mut consumed = 0usize;
    let mut wraps = 0;
    while consumed < total {
        while produced < total && produced - consumed < size {
            let lap = produced / size;
            ring.store(produced % size, event(produced as u32, lap % 2 == 0));
            produced += 1;
        }
        let before = ring.write_idx;
        let got = ring.next(&mut regs).expect("an event was posted");
        assert_eq!(got.data_low, consumed as u32);
        if ring.write_idx < before {
            wraps += 1;
        }
        consumed += 1;
    }
    assert_eq!(wraps, 1);
    assert_eq!(ring.write_idx, total % size);
    assert!(!ring.cycle_bit);
    assert_eq!(regs.runtime.primary.erdp, (BASE + 16 * (total % size) as u64) | 8);
    assert_eq!(regs.writes.len(), total);
    assert_eq!(ring.next(&mut regs), None);
}

#[test]
fn stale_entry_is_not_dequeued() {
    let mut ring = EventRing::with_capacity(2, BASE);
    let mut regs = registers();
    ring.store(0, event(1, true));
    ring.store(1, event(2, true));
    assert!(ring.next(&mut regs).is_some());
    assert!(ring.next(&mut regs).is_some());
    assert_eq!(ring.write_idx, 0);
    assert!(!ring.cycle_bit);
    assert_eq!(ring.next(&mut regs), None, "entry 0 still carries the cycle bit of the lap before");
    ring.store(0, event(3, false));
    assert_eq!(ring.next(&mut regs), Some(event(3, false)));
}

#[test]
fn erdp_write_keeps_segment_index() {
    let mut ring = EventRing::with_capacity(4, BASE);
    let mut regs = registers();
    regs.runtime.primary.erdp = 0x5;
    ring.store(0, event(1, true));
    ring.next(&mut regs);
    assert_eq!(regs.runtime.primary.erdp, (BASE + 16) | 8 | 5);
    assert_eq!(regs.get_erdp(), (BASE + 16) >> 4);
}

#[test]
fn segment_table_entry_bytes() {
    let ring = EventRing::with_capacity(32, 0x10_0000);
    let mut table = EventRingSegmentTable::with_capacity(1, 0x20_0000);
    table.set_event_ring_data(0, &ring);
    assert_eq!(table.len(), 1);
    assert_eq!(table.addr(), 0x20_0000);
    assert_eq!(table.entry_addr(0), 0x10_0000);
    assert_eq!(
        table.entries[0],
        EventRingSegmentTableEntry { address: 0x10_0000, size: 32, _rsvd: 0, _rsvd2: 0 }
    );
    assert_eq!(
        table.entries[0].to_bytes(),
        vec![0x00, 0x00, 0x10, 0x00, 0x00, 0x00, 0x00, 0x00, 0x20, 0x00, 0x00, 0x00, 0x00, 0x00, 0x00, 0x00]
    );
}

#[test]
fn segment_table_entry_bytes_are_little_endian() {
    let mut entry = EventRingSegmentTableEntry::default();
    entry.set_address(0x0102_0304_0506_0708);
    entry.set_size(0x0A0B);
    assert_eq!(
        entry.to_bytes(),
        vec![8, 7, 6, 5, 4, 3, 2, 1, 0x0B, 0x0A, 0, 0, 0, 0, 0, 0]
    );
}

#[test]
fn event_fields() {
    let psc = PortStatusChangeEvent::from(GenericTrb {
        data_low: 0x0700_0000,
        data_high: 0,
        status: 0x0100_0000,
        control: (34 << 10) | 1,
    });
    assert_eq!(psc.port_id(), 7);
    assert_eq!(psc.completion_code(), 1);
    let cc = CommandCompletionEvent::from(GenericTrb {
        data_low: 0x0020_0810,
        data_high: 0x0000_0001,
        status: 0x0B00_0000,
        control: (5 << 24) | (33 << 10) | 1,
    });
    assert_eq!(cc.slot_id(), 5);
    assert_eq!(cc.command_trb_pointer(), 0x0000_0001_0020_0810);
    assert_eq!(cc.completion_code(), 11);
    let te = TransferEvent::from(GenericTrb {
        data_low: 0x1000,
        data_high: 2,
        status: 0x0D00_00DE,
        control: (3 << 24) | (5 << 16) | (32 << 10) | 1,
    });
    assert_eq!(te.slot_id(), 3);
    assert_eq!(te.endpoint_id(), 5);
    assert_eq!(te.transfer_length(), 0xDE);
    assert_eq!(te.completion_code(), 13);
    assert_eq!(te.trb_pointer(), 0x0000_0002_0000_1000);
}

#[test]
fn drain_takes_what_was_posted() {
    let mut ring = EventRing::with_capacity(4, BASE);
    let mut regs = registers();
    assert_eq!(ring.drain(&mut regs), Vec::new());
    assert!(regs.writes.is_empty());
    ring.store(0, event(10, true));
    ring.store(1, event(11, true));
    ring.store(2, event(12, true));
    assert_eq!(ring.drain(&mut regs), vec![event(10, true), event(11, true), event(12, true)]);
    assert_eq!(ring.write_idx, 3);
    assert!(ring.cycle_bit);
    assert_eq!(
        regs.writes,
        vec![
            RegWrite { reg: Reg::Erdp, value: (BASE + 16) | 8 },
            RegWrite { reg: Reg::Erdp, value: (BASE + 32) | 8 },
            RegWrite { reg: Reg::Erdp, value: (BASE + 48) | 8 },
        ]
    );
    ring.store(3, event(13, true));
    ring.store(0, event(14, false));
    ring.store(1, event(15, false));
    assert_eq!(ring.drain(&mut regs), vec![event(13, true), event(14, false), event(15, false)]);
    assert_eq!(ring.write_idx, 2);
    assert!(!ring.cycle_bit);
    assert_eq!(regs.runtime.primary.erdp, (BASE + 32) | 8);
    assert_eq!(ring.drain(&mut regs), Vec::new());
}

#[test]
fn drain_stops_after_a_whole_lap() {
    let mut ring = EventRing::with_capacity(2, BASE);
    let mut regs = registers();
    ring.store(0, event(1, true));
    ring.store(1, event(2, true));
    assert_eq!(ring.drain(&mut regs).len(), 2);
    assert_eq!(ring.write_idx, 0);
    assert!(!ring.cycle_bit);
    assert_eq!(regs.runtime.primary.erdp, BASE | 8);
}
