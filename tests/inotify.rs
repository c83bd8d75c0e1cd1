use rsix::abi::{INOTIFY_ALIGN, INOTIFY_HEADER_SIZE};
use rsix::errno::{Errno, EINVAL, EIO};
use rsix::inotify::{EventAction, InotifyEvent, ReadFlags, Reader};
use linux_raw_sys::general::inotify_event;

/// One `struct inotify_event`: the name is followed by NULs up to `len`.
fn event(wd: i32, mask: u32, cookie: u32, name: &[u8], len: u32) -> Vec<u8> {
    let mut r = Vec::new();
    r.extend_from_slice(&wd.to_le_bytes());
    r.extend_from_slice(&mask.to_le_bytes());
    r.extend_from_slice(&cookie.to_le_bytes());
    r.extend_from_slice(&len.to_le_bytes());
    r.extend_from_slice(name);
    while r.len() < INOTIFY_HEADER_SIZE + len as usize {
        r.push(0);
    }
    r
}

/// Serves one read of `bytes` when the reader asks for one.
fn serve(reader: &mut Reader<()>, act: EventAction, bytes: &[u8]) -> EventAction {
    match act {
        EventAction::Read(mut buf) => {
            let start = reader.start();
            buf[start..start + bytes.len()].copy_from_slice(bytes);
            reader.read_done(buf, Ok(bytes.len()))
        }
        other => other,
    }
}

fn expect_event(act: EventAction) -> InotifyEvent {
    match act {
        EventAction::Event(e) => e,
        other => panic!("unexpected {:?}", other),
    }
}

#[test]
fn three_events_from_one_read() {
    let mut bytes = event(1, 0x100, 0, b"abc", 4);
    bytes.extend(event(2, 0x4, 0, b"", 0));
    bytes.extend(event(3, 0x40, 77, b"directory", 10));
    let mut reader = Reader::new((), vec![0u8; 256], 0);
    assert!(reader.is_buffer_empty());
    let first = reader.next_action();
    let e1 = expect_event(serve(&mut reader, first, &bytes));
    assert_eq!(e1.wd(), 1);
    assert_eq!(e1.events().bits(), 0x100);
    assert_eq!(e1.cookie(), 0);
    assert_eq!(e1.file_name(), Some(&b"abc"[..]));
    assert!(!reader.is_buffer_empty());

    let e2 = expect_event(reader.next_action());
    assert_eq!(e2.wd(), 2);
    assert_eq!(e2.file_name(), None);
    assert!(!reader.is_buffer_empty());

    let e3 = expect_event(reader.next_action());
    assert_eq!(e3.wd(), 3);
    assert_eq!(e3.cookie(), 77);
    assert!(e3.events().contains(ReadFlags::from_bits_retain(0x40)));
    assert!(!e3.events().contains(ReadFlags::from_bits_retain(0x80)));
    assert_eq!(e3.file_name(), Some(&b"directory"[..]));
    assert!(reader.is_buffer_empty());

    assert!(matches!(reader.next_action(), EventAction::Read(_)));
}

#[test]
fn read_of_no_bytes_is_an_error() {
    let mut reader = Reader::new((), vec![0u8; 64], 0);
    match reader.next_action() {
        EventAction::Read(buf) => match reader.read_done(buf, Ok(0)) {
            EventAction::Fail(e) => {
                assert_eq!(e, Errno(EIO));
                assert_ne!(e, Errno(EINVAL));
            }
            other => panic!("unexpected {:?}", other),
        },
        other => panic!("unexpected {:?}", other),
    }
    assert!(reader.is_buffer_empty());
}

#[test]
fn failed_reads_keep_the_reader_usable() {
    let bytes = event(4, 0x8, 0, b"", 0);
    let mut reader = Reader::new((), vec![0u8; 64], 0);
    let first = reader.next_action();
    let _ = expect_event(serve(&mut reader, first, &bytes));
    assert!(reader.is_buffer_empty());
    // A read of nothing and a failed read: still empty, the buffer kept.
    match reader.next_action() {
        EventAction::Read(buf) => assert!(matches!(reader.read_done(buf, Ok(0)), EventAction::Fail(Errno(EIO)))),
        other => panic!("unexpected {:?}", other),
    }
    assert!(reader.is_buffer_empty());
    match reader.next_action() {
        EventAction::Read(buf) => {
            assert_eq!(buf.len(), 64);
            assert!(matches!(reader.read_done(buf, Err(Errno(EINVAL))), EventAction::Fail(Errno(EINVAL))));
        }
        other => panic!("unexpected {:?}", other),
    }
    assert!(reader.is_buffer_empty());
    let act = reader.next_action();
    let e = expect_event(serve(&mut reader, act, &bytes));
    assert_eq!(e.wd(), 4);
}

#[test]
fn read_error_is_returned() {
    let mut reader = Reader::new((), vec![0u8; 64], 0);
    match reader.next_action() {
        EventAction::Read(buf) => {
            assert!(matches!(reader.read_done(buf, Err(Errno(11))), EventAction::Fail(Errno(11))))
        }
        other => panic!("unexpected {:?}", other),
    }
}

#[test]
fn misaligned_buffer_starts_at_next_aligned_address() {
    for base in 0..16usize {
        let reader = Reader::new((), vec![0u8; 64], base);
        let start = reader.start();
        assert!(start < INOTIFY_ALIGN);
        assert_eq!((base + start) % INOTIFY_ALIGN, 0);
    }
    assert_eq!(Reader::new((), vec![0u8; 64], 4097).start(), 3);
    // No aligned address inside the buffer: nothing is usable.
    assert_eq!(Reader::new((), vec![0u8; 2], 1).start(), 2);
    assert_eq!(Reader::new((), vec![0u8; 3], 1).start(), 3);
    assert_eq!(Reader::new((), vec![0u8; 4], 1).start(), 3);
}

#[test]
fn misaligned_buffer_decodes_events() {
    let bytes = event(9, 0x2, 5, b"file", 16);
    let mut reader = Reader::new((), vec![0xEEu8; 128], 4094);
    assert_eq!(reader.start(), 2);
    let first = reader.next_action();
    let e = expect_event(serve(&mut reader, first, &bytes));
    assert_eq!(e.wd(), 9);
    assert_eq!(e.cookie(), 5);
    assert_eq!(e.file_name(), Some(&b"file"[..]));
    assert!(reader.is_buffer_empty());
}

#[test]
fn truncated_event_fails_with_eio() {
    let bytes = event(1, 0x100, 0, b"abc", 8);
    let mut reader = Reader::new((), vec![0u8; 64], 0);
    let act = reader.next_action();
    let out = serve(&mut reader, act, &bytes[..bytes.len() - 2]);
    assert!(matches!(out, EventAction::Fail(Errno(EIO))));
    assert!(reader.is_buffer_empty());
}

#[test]
fn name_without_nul_fails_with_eio() {
    let bytes = event(1, 0x100, 0, b"abcd", 4);
    let mut reader = Reader::new((), vec![0u8; 64], 0);
    let act = reader.next_action();
    assert!(matches!(serve(&mut reader, act, &bytes), EventAction::Fail(Errno(EIO))));
}

#[test]
fn negative_watch_descriptor() {
    let bytes = event(-1, 0x4000, 0, b"", 0);
    let mut reader = Reader::new((), vec![0u8; 64], 0);
    let act = reader.next_action();
    let e = expect_event(serve(&mut reader, act, &bytes));
    assert_eq!(e.wd(), -1);
    assert_eq!(e.events().bits(), 0x4000);
}

#[test]
fn event_layout_matches_kernel_headers() {
    assert_eq!(core::mem::size_of::<inotify_event>(), INOTIFY_HEADER_SIZE);
    assert_eq!(core::mem::align_of::<inotify_event>(), INOTIFY_ALIGN);
}
