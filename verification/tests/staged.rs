use fur_shell::resources::buffer::{CpuBuffer, Transfer};

#[test]
fn growth_within_capacity() {
    let buf: CpuBuffer<u32> = CpuBuffer::with_capacity(4);
    let mut batch = buf.batch();
    batch.push(10);
    batch.push(11);
    batch.push(12);
    let (buf, transfer) = batch.close();
    assert_eq!(transfer, Transfer::Write { start: 0, count: 3 });
    assert_eq!(buf.len(), 3);
    assert_eq!(buf.capacity(), 4);
    assert_eq!(buf.records().as_slice(), &[10, 11, 12]);
}

#[test]
fn growth_fills_exact_capacity() {
    let buf: CpuBuffer<u32> = CpuBuffer::with_capacity(4);
    let mut batch = buf.batch();
    for v in 0..4u32 {
        batch.push(v);
    }
    let (buf, transfer) = batch.close();
    assert_eq!(transfer, Transfer::Write { start: 0, count: 4 });
    assert_eq!(buf.capacity(), 4);
}

#[test]
fn growth_past_capacity_reallocates_exactly() {
    let buf: CpuBuffer<u32> = CpuBuffer::with_capacity(4);
    let mut batch = buf.batch();
    for v in 0..5u32 {
        batch.push(v);
    }
    let (buf, transfer) = batch.close();
    assert_eq!(transfer, Transfer::Realloc { count: 5 });
    assert_eq!(buf.capacity(), 5);
    assert_eq!(buf.len(), 5);
    assert_eq!(buf.records().as_slice(), &[0, 1, 2, 3, 4]);
}

#[test]
fn partial_update_transfers_appended_range_only() {
    let buf: CpuBuffer<u64> = CpuBuffer::with_capacity(8);
    let mut batch = buf.batch();
    batch.push(100);
    batch.push(101);
    let (buf, first) = batch.close();
    assert_eq!(first, Transfer::Write { start: 0, count: 2 });

    let mut batch = buf.batch();
    batch.push(102);
    let (buf, second) = batch.close();
    assert_eq!(second, Transfer::Write { start: 2, count: 1 });
    assert_eq!(buf.capacity(), 8);
    assert_eq!(buf.records().as_slice(), &[100, 101, 102]);
}

#[test]
fn empty_transaction_no_transfer() {
    let buf: CpuBuffer<u8> = CpuBuffer::with_capacity(4);
    let batch = buf.batch();
    let (buf, transfer) = batch.close();
    assert_eq!(transfer, Transfer::Skip);
    assert_eq!(buf.capacity(), 4);
    assert_eq!(buf.len(), 0);
}

#[test]
fn empty_transaction_on_populated_buffer() {
    let buf: CpuBuffer<u8> = CpuBuffer::with_capacity(2);
    let mut batch = buf.batch();
    batch.push(7);
    let (buf, _) = batch.close();
    let batch = buf.batch();
    let (buf, transfer) = batch.close();
    assert_eq!(transfer, Transfer::Skip);
    assert_eq!(buf.len(), 1);
    assert_eq!(buf.capacity(), 2);
}

#[test]
fn clear_keeps_allocation() {
    let buf: CpuBuffer<u16> = CpuBuffer::with_capacity(3);
    let mut batch = buf.batch();
    for v in 0..6u16 {
        batch.push(v);
    }
    let (mut buf, transfer) = batch.close();
    assert_eq!(transfer, Transfer::Realloc { count: 6 });
    buf.clear();
    assert_eq!(buf.len(), 0);
    assert_eq!(buf.capacity(), 6);
}

#[test]
fn growth_after_clear_overwrites_from_start() {
    let buf: CpuBuffer<u16> = CpuBuffer::with_capacity(4);
    let mut batch = buf.batch();
    batch.push(1);
    batch.push(2);
    let (mut buf, _) = batch.close();
    buf.clear();
    let mut batch = buf.batch();
    batch.push(9);
    let (buf, transfer) = batch.close();
    assert_eq!(transfer, Transfer::Write { start: 0, count: 1 });
    assert_eq!(buf.records().as_slice(), &[9]);
}
