use cairnos::arch::ports::{wait, IoLog, IoOp, Port};

#[test]
fn port_number_and_offset() {
    let p = Port::new(0x3F8);
    assert_eq!(p.number(), 0x3F8);
    assert_eq!(p.add(5).number(), 0x3FD);
    assert_eq!(p.add(0).number(), 0x3F8);
}

#[test]
fn writes_are_logged_in_order() {
    let mut log = IoLog::new();
    assert_eq!(log.len(), 0);
    let p = Port::new(0x21);
    p.out_u8(&mut log, 0xFD);
    p.add(0x80).out_u8(&mut log, 0x01);
    assert_eq!(log.len(), 2);
    assert_eq!(log.get(0), IoOp::Out { port: 0x21, value: 0xFD });
    assert_eq!(log.get(1), IoOp::Out { port: 0xA1, value: 0x01 });
}

#[test]
fn read_returns_the_device_byte_and_is_logged() {
    let mut log = IoLog::new();
    let p = Port::new(0x60);
    let b = p.in_u8(&mut log, 0x5A);
    assert_eq!(b, 0x5A);
    assert_eq!(log.len(), 1);
    assert_eq!(log.get(0), IoOp::In { port: 0x60, value: 0x5A });
}

#[test]
fn slow_write_adds_a_delay_write() {
    let mut log = IoLog::new();
    Port::new(0x20).slow_out_u8(&mut log, 0x11);
    assert_eq!(log.len(), 2);
    assert_eq!(log.get(0), IoOp::Out { port: 0x20, value: 0x11 });
    assert_eq!(log.get(1), IoOp::Out { port: 0x80, value: 0 });
}

#[test]
fn wait_writes_to_the_unused_port() {
    let mut log = IoLog::new();
    wait(&mut log);
    assert_eq!(log.len(), 1);
    assert_eq!(log.get(0), IoOp::Out { port: 0x80, value: 0 });
}
