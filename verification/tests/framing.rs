use alcro::pipe::{PipeReadError, PipeReader, PipeWriteError, PipeWriter};

fn frame(message: &str) -> Vec<u8> {
    let mut w = PipeWriter::new();
    w.write(message.to_string()).unwrap();
    w.take()
}

#[test]
fn write_appends_one_delimiter() {
    let mut w = PipeWriter::new();
    assert_eq!(w.write("abc".to_string()).unwrap(), 4);
    assert_eq!(w.take(), vec![b'a', b'b', b'c', 0]);
    assert_eq!(w.take(), Vec::<u8>::new());
}

#[test]
fn write_counts_bytes_not_characters() {
    let mut w = PipeWriter::new();
    assert_eq!(w.write("é€".to_string()).unwrap(), 6);
    assert_eq!(w.take(), vec![0xc3, 0xa9, 0xe2, 0x82, 0xac, 0]);
}

#[test]
fn write_collects_frames_in_order() {
    let mut w = PipeWriter::new();
    w.write("a".to_string()).unwrap();
    w.write("".to_string()).unwrap();
    w.write("bc".to_string()).unwrap();
    assert_eq!(w.take(), vec![b'a', 0, 0, b'b', b'c', 0]);
}

#[test]
fn write_refuses_the_delimiter() {
    let mut w = PipeWriter::new();
    w.write("ok".to_string()).unwrap();
    assert!(matches!(
        w.write("a\0b".to_string()),
        Err(PipeWriteError::NullCharacterPresent)
    ));
    assert!(matches!(
        w.write("\0".to_string()),
        Err(PipeWriteError::NullCharacterPresent)
    ));
    assert_eq!(w.take(), vec![b'o', b'k', 0]);
}

#[test]
fn read_round_trip() {
    for message in ["", "x", "{\"id\":1}", "héllo wörld €", "a b\tc\n"] {
        let mut r = PipeReader::new();
        r.feed(&frame(message));
        assert_eq!(r.read().unwrap(), Some(message.to_string()));
        assert_eq!(r.read().unwrap(), None);
    }
}

#[test]
fn read_waits_for_the_delimiter() {
    let mut r = PipeReader::new();
    assert_eq!(r.read().unwrap(), None);
    r.feed(b"abc");
    assert_eq!(r.read().unwrap(), None);
    r.feed(b"");
    assert_eq!(r.read().unwrap(), None);
    r.feed(b"d\0");
    assert_eq!(r.read().unwrap(), Some("abcd".to_string()));
    assert_eq!(r.read().unwrap(), None);
}

#[test]
fn read_reassembles_a_frame_split_anywhere() {
    let message = "{\"method\":\"Ünïcode €\",\"id\":7}";
    let bytes = frame(message);
    for cut in 0..=bytes.len() {
        let mut r = PipeReader::new();
        r.feed(&bytes[..cut]);
        if cut < bytes.len() {
            assert_eq!(r.read().unwrap(), None);
        }
        r.feed(&bytes[cut..]);
        assert_eq!(r.read().unwrap(), Some(message.to_string()));
        assert_eq!(r.read().unwrap(), None);
    }
}

#[test]
fn read_reassembles_a_frame_fed_byte_by_byte() {
    let message = "byte by byte €";
    let bytes = frame(message);
    let mut r = PipeReader::new();
    for (i, b) in bytes.iter().enumerate() {
        r.feed(&[*b]);
        if i + 1 < bytes.len() {
            assert_eq!(r.read().unwrap(), None);
        }
    }
    assert_eq!(r.read().unwrap(), Some(message.to_string()));
}

#[test]
fn read_splits_two_frames_in_one_chunk() {
    let message = "same message";
    let mut bytes = frame(message);
    bytes.extend(frame(message));
    let mut r = PipeReader::new();
    r.feed(&bytes);
    assert_eq!(r.read().unwrap(), Some(message.to_string()));
    assert_eq!(r.read().unwrap(), Some(message.to_string()));
    assert_eq!(r.read().unwrap(), None);
}

#[test]
fn read_splits_many_frames_and_keeps_the_rest() {
    let mut r = PipeReader::new();
    r.feed(b"one\0two\0\0thr");
    assert_eq!(r.read().unwrap(), Some("one".to_string()));
    assert_eq!(r.read().unwrap(), Some("two".to_string()));
    assert_eq!(r.read().unwrap(), Some("".to_string()));
    assert_eq!(r.read().unwrap(), None);
    r.feed(b"ee\0");
    assert_eq!(r.read().unwrap(), Some("three".to_string()));
}

#[test]
fn read_rejects_invalid_utf8_and_goes_on() {
    let mut r = PipeReader::new();
    r.feed(&[0xff, 0xfe, 0, b'o', b'k', 0]);
    assert!(matches!(r.read(), Err(PipeReadError::InvalidUtf8Error)));
    assert_eq!(r.read().unwrap(), Some("ok".to_string()));
}

#[test]
fn read_rejects_a_truncated_character() {
    let mut r = PipeReader::new();
    r.feed(&[0xe2, 0x82, 0]);
    assert!(matches!(r.read(), Err(PipeReadError::InvalidUtf8Error)));
    assert_eq!(r.read().unwrap(), None);
}
