use pty_endpoints::error::Error;
use pty_endpoints::flags::{F_GETFL, F_SETFL, O_ACCMODE, O_NONBLOCK, O_RDONLY, O_RDWR, O_WRONLY};
use pty_endpoints::slave::PtySlave;
use pty_endpoints::winsize::PtyWinsize;

#[test]
fn set_flags_keeps_access_mode_bits() {
    // SET_FLAGS then GET_FLAGS reports (old & O_ACCMODE) | (arg & !O_ACCMODE).
    let mut slave = PtySlave::new(O_RDWR);
    assert_eq!(slave.fcntl(F_SETFL, O_RDONLY | O_NONBLOCK), Ok(0));
    assert_eq!(slave.fcntl(F_GETFL, 0), Ok(O_RDWR | O_NONBLOCK));
}

#[test]
fn set_flags_clears_old_status_bits() {
    let mut slave = PtySlave::new(O_WRONLY | O_NONBLOCK);
    assert_eq!(slave.fcntl(F_SETFL, 0), Ok(0));
    assert_eq!(slave.fcntl(F_GETFL, 0), Ok(O_WRONLY));
}

#[test]
fn get_flags_reports_initial_flags() {
    let mut slave = PtySlave::new(O_RDONLY | O_NONBLOCK);
    assert_eq!(slave.fcntl(F_GETFL, 12345), Ok(O_RDONLY | O_NONBLOCK));
}

#[test]
fn unknown_command_is_invalid_argument() {
    let mut slave = PtySlave::new(O_RDWR);
    assert_eq!(slave.fcntl(9999, 0), Err(Error::InvalidArgument));
    assert_eq!(slave.flags(), O_RDWR);
}

#[test]
fn winsize_fcntl_matches_slave_fcntl() {
    let mut handle = PtyWinsize::new(O_RDWR);
    assert_eq!(handle.fcntl(F_SETFL, O_NONBLOCK | 0x8), Ok(0));
    assert_eq!(handle.fcntl(F_GETFL, 0), Ok(O_RDWR | O_NONBLOCK | 0x8));
    assert_eq!(handle.fcntl(7777, 1), Err(Error::InvalidArgument));
}

#[test]
fn nonblocking_bit_survives_set_flags() {
    let mut slave = PtySlave::new(O_RDWR);
    assert_eq!(slave.fcntl(F_SETFL, O_NONBLOCK), Ok(0));
    assert_eq!(slave.flags() & O_NONBLOCK, O_NONBLOCK);
}

#[test]
fn flag_constants_match_the_syscall_crate() {
    // The handle flag words use the exact bit layout of Redox's syscall
    // crate, so flag values can pass through the dispatch layer unchanged.
    assert_eq!(F_GETFL, syscall::flag::F_GETFL);
    assert_eq!(F_SETFL, syscall::flag::F_SETFL);
    assert_eq!(O_ACCMODE, syscall::flag::O_ACCMODE);
    assert_eq!(O_NONBLOCK, syscall::flag::O_NONBLOCK);
    assert_eq!(O_RDONLY, syscall::flag::O_RDONLY);
    assert_eq!(O_WRONLY, syscall::flag::O_WRONLY);
    assert_eq!(O_RDWR, syscall::flag::O_RDWR);
}
