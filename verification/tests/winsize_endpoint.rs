use pty_endpoints::error::Error;
use pty_endpoints::flags::O_RDWR;
use pty_endpoints::pty::Pty;
use pty_endpoints::winsize::PtyWinsize;

fn pty_with_record(record: &[u8]) -> Pty {
    Pty::new(b"pty/1".to_vec(), record.to_vec())
}

#[test]
fn winsize_write_then_read_round_trips() {
    // Buffers at least as long as the record round-trip its exact bytes.
    let mut pty = Some(pty_with_record(&[0u8; 4]));
    let handle = PtyWinsize::new(O_RDWR);
    let written = vec![80, 0, 24, 0];
    assert_eq!(handle.write(&mut pty, &written), Ok(Some(4)));
    let mut readback = vec![0u8; 4];
    assert_eq!(handle.read(&pty, &mut readback), Ok(Some(4)));
    assert_eq!(readback, written);
}

#[test]
fn winsize_write_truncates_to_record() {
    // The record is fixed-size: a longer write stops at the record's end.
    let mut pty = Some(pty_with_record(&[9u8; 2]));
    let handle = PtyWinsize::new(O_RDWR);
    assert_eq!(handle.write(&mut pty, &vec![1, 2, 3, 4]), Ok(Some(2)));
    assert_eq!(pty.unwrap().winsize, vec![1, 2]);
}

#[test]
fn winsize_short_write_keeps_record_tail() {
    let mut pty = Some(pty_with_record(&[7, 7, 7, 7]));
    let handle = PtyWinsize::new(O_RDWR);
    assert_eq!(handle.write(&mut pty, &vec![1]), Ok(Some(1)));
    assert_eq!(pty.unwrap().winsize, vec![1, 7, 7, 7]);
}

#[test]
fn winsize_read_truncates_to_buffer() {
    let pty = Some(pty_with_record(&[10, 20, 30, 40]));
    let handle = PtyWinsize::new(O_RDWR);
    let mut buf = vec![0u8; 2];
    assert_eq!(handle.read(&pty, &mut buf), Ok(Some(2)));
    assert_eq!(buf, vec![10, 20]);
}

#[test]
fn winsize_read_dead_pty_reports_zero() {
    let pty: Option<Pty> = None;
    let handle = PtyWinsize::new(O_RDWR);
    let mut buf = vec![3u8; 4];
    assert_eq!(handle.read(&pty, &mut buf), Ok(Some(0)));
    assert_eq!(buf, vec![3u8; 4]);
}

#[test]
fn winsize_write_dead_pty_is_broken_pipe() {
    let mut pty: Option<Pty> = None;
    let handle = PtyWinsize::new(O_RDWR);
    assert_eq!(handle.write(&mut pty, &vec![1, 2]), Err(Error::BrokenPipe));
}

#[test]
fn winsize_sync_succeeds_trivially() {
    let handle = PtyWinsize::new(O_RDWR);
    assert_eq!(handle.sync(), Ok(0));
}

#[test]
fn winsize_is_not_pollable() {
    // Registration fails with BadDescriptor; the poll reports no event.
    let mut handle = PtyWinsize::new(O_RDWR);
    assert_eq!(handle.fevent(), Err(Error::BadDescriptor));
    assert_eq!(handle.fevent_count(), None);
    assert!(!handle.fevent_writable());
}

#[test]
fn winsize_path_copies_display_name() {
    let pty = Some(pty_with_record(&[0u8; 4]));
    let handle = PtyWinsize::new(O_RDWR);
    let mut buf = vec![0u8; 8];
    assert_eq!(handle.path(&pty, &mut buf), Ok(5));
    assert_eq!(&buf[..5], b"pty/1");
}

#[test]
fn winsize_path_dead_pty_is_broken_pipe() {
    let pty: Option<Pty> = None;
    let handle = PtyWinsize::new(O_RDWR);
    let mut buf = vec![0u8; 8];
    assert_eq!(handle.path(&pty, &mut buf), Err(Error::BrokenPipe));
}

#[test]
fn boxed_clone_copies_winsize_flags() {
    let handle = PtyWinsize::new(O_RDWR);
    let dup = handle.boxed_clone();
    assert_eq!(dup.flags(), O_RDWR);
    assert_eq!(*dup, handle);
}

#[test]
fn writes_overwrite_last_write_wins() {
    let mut pty = Some(pty_with_record(&[0u8; 2]));
    let handle = PtyWinsize::new(O_RDWR);
    assert_eq!(handle.write(&mut pty, &vec![1, 1]), Ok(Some(2)));
    assert_eq!(handle.write(&mut pty, &vec![2, 2]), Ok(Some(2)));
    let mut buf = vec![0u8; 2];
    assert_eq!(handle.read(&pty, &mut buf), Ok(Some(2)));
    assert_eq!(buf, vec![2, 2]);
}
