use cairnos::io::WriteBytes;

/// A sink that records what it was handed, exercising the default
/// byte-sequence method of the output-sink capability.
struct Recorder {
    seen: Vec<u8>,
}

impl WriteBytes for Recorder {
    fn write_byte(&mut self, byte: u8) {
        self.seen.push(byte);
    }
}

#[test]
fn write_bytes_hands_over_every_byte_in_order() {
    let mut sink = Recorder { seen: Vec::new() };
    sink.write_bytes(b"GDT loaded\n");
    assert_eq!(sink.seen, b"GDT loaded\n");
    sink.write_byte(b'!');
    assert_eq!(sink.seen.last(), Some(&b'!'));
}

#[test]
fn write_bytes_accepts_an_empty_sequence() {
    let mut sink = Recorder { seen: Vec::new() };
    sink.write_bytes(&[]);
    assert!(sink.seen.is_empty());
}
