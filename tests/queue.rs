use std::collections::VecDeque;
use sx126x_spi_buffers::commands::{
    SetSleep, SetStandby, SleepConfig, SpiDescriptor, StdbyConfig, WriteBuffer,
};

#[test]
fn test_queue() {
    let set_sleep = SetSleep::new(SleepConfig::new().with_warm_start(true));
    let set_standby = SetStandby::new(StdbyConfig::StdbyRc);
    let write_buffer: WriteBuffer<7> = WriteBuffer::new(0, [2, 4, 7, 9, 3]);

    let mut queue: VecDeque<SpiDescriptor> = VecDeque::with_capacity(8);
    queue.push_back(SpiDescriptor::new(&set_sleep));
    queue.push_back(SpiDescriptor::new(&set_standby));
    queue.push_back(SpiDescriptor::new(&write_buffer));

    let mut desc = queue.pop_front().unwrap();
    let mut tx_buf = &desc.tx_buf[..desc.transfer_length as usize];
    assert_eq!(tx_buf, [0x84, 1 << 2]);

    desc = queue.pop_front().unwrap();
    tx_buf = &desc.tx_buf[..desc.transfer_length as usize];
    assert_eq!(tx_buf, [0x80, 0]);

    desc = queue.pop_front().unwrap();
    tx_buf = &desc.tx_buf[..desc.transfer_length as usize];
    assert_eq!(tx_buf, [0x0E, 0, 2, 4, 7, 9, 3]);
}

#[test]
fn descriptor_takes_shortened_transfer_length() {
    let mut write_buffer: WriteBuffer<7> = WriteBuffer::new(0x10, *b"hello");
    write_buffer.set_data_length(3);
    let desc = SpiDescriptor::new(&write_buffer);
    assert_eq!(desc.transfer_length, 5);
    assert_eq!(desc.tx_buf.len(), 7);
    assert_eq!(&desc.tx_buf[..desc.transfer_length as usize], [0x0E, 0x10, b'h', b'e', b'l']);
}
