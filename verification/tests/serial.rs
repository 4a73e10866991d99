use cairnos::arch::ports::{IoLog, IoOp};
use cairnos::io::serial::Console;
use cairnos::io::serial::PORT_COM1;

fn out(port: u16, value: u8) -> IoOp {
    IoOp::Out { port, value }
}

#[test]
fn bring_up_succeeds_when_the_chip_echoes() {
    let mut log = IoLog::new();
    let r = Console::try_new(PORT_COM1, &mut log, 0xAE);
    let console = r.expect("loopback echoed the test byte");
    assert_eq!(console.port(), PORT_COM1);
    assert_eq!(log.len(), 11);
    // the fixed setup writes
    assert_eq!(log.get(0), out(PORT_COM1 + 1, 0x00));
    assert_eq!(log.get(1), out(PORT_COM1 + 3, 0x80));
    assert_eq!(log.get(2), out(PORT_COM1, 0x03));
    assert_eq!(log.get(3), out(PORT_COM1 + 1, 0x00));
    assert_eq!(log.get(4), out(PORT_COM1 + 3, 0x03));
    assert_eq!(log.get(5), out(PORT_COM1 + 2, 0xC7));
    assert_eq!(log.get(6), out(PORT_COM1 + 4, 0x0B));
    assert_eq!(log.get(7), out(PORT_COM1 + 4, 0x1E));
    assert_eq!(log.get(8), out(PORT_COM1, 0xAE));
    // the loopback answer, then the switch to normal operation
    assert_eq!(log.get(9), IoOp::In { port: PORT_COM1, value: 0xAE });
    assert_eq!(log.get(10), out(PORT_COM1 + 4, 0x0F));
}

#[test]
fn bring_up_fails_on_a_faulty_chip() {
    let mut log = IoLog::new();
    let r = Console::try_new(PORT_COM1, &mut log, 0x00);
    assert!(r.is_err());
    // same transactions up to the read, and no switch to normal operation
    assert_eq!(log.len(), 10);
    assert_eq!(log.get(9), IoOp::In { port: PORT_COM1, value: 0x00 });
}

#[test]
fn transmit_ready_tests_bit_5_of_the_line_status() {
    let mut log = IoLog::new();
    let console = Console::try_new(PORT_COM1, &mut log, 0xAE).unwrap();
    let mut poll = IoLog::new();
    assert!(console.is_transmit_ready(&mut poll, 0x20));
    assert!(console.is_transmit_ready(&mut poll, 0x60));
    assert!(!console.is_transmit_ready(&mut poll, 0x00));
    assert!(!console.is_transmit_ready(&mut poll, 0xDF));
    assert_eq!(poll.len(), 4);
    assert_eq!(poll.get(0), IoOp::In { port: PORT_COM1 + 5, value: 0x20 });
}

#[test]
fn legacy_console_speaks_the_same_protocol() {
    let mut log = IoLog::new();
    let r = cairnos::serial::Console::new(PORT_COM1, &mut log, 0xAE);
    let console = r.expect("loopback echoed the test byte");
    assert_eq!(console.port, PORT_COM1);
    assert_eq!(log.len(), 11);
    assert_eq!(log.get(10), out(PORT_COM1 + 4, 0x0F));

    let mut log2 = IoLog::new();
    let mut reference = IoLog::new();
    assert!(cairnos::serial::Console::new(PORT_COM1, &mut log2, 0x55).is_err());
    assert!(Console::try_new(PORT_COM1, &mut reference, 0x55).is_err());
    assert_eq!(log2.len(), reference.len());
    for i in 0..log2.len() {
        assert_eq!(log2.get(i), reference.get(i));
    }
}

#[test]
fn legacy_console_new_uninit_only_stores_the_port() {
    let console = cairnos::serial::Console::new_uninit(0x2F8);
    assert_eq!(console.port, 0x2F8);
}
