use rsix::conv::{
    no_fd, nonnegative_ret, ret, ret_c_int, ret_discarded_fd, ret_off_t, ret_send_recv,
    ret_ssize_t, ret_u32, send_recv_len, syscall_ret, syscall_ret_ssize_t, syscall_ret_u32,
};
use rsix::dec_int::DecInt;
use rsix::errno::{Errno, EINVAL};
use rsix::process::{rlimit_from_raw, rlimit_to_raw, wait_result, Rlimit, RLIM_INFINITY};
use rsix::net_types::{AddressFamily, Protocol, SocketType};

#[test]
fn dec_int_writes_decimal() {
    let t = DecInt::new(43110);
    assert_eq!(t.as_bytes(), b"43110");
    assert_eq!(DecInt::new(0).as_bytes(), b"0");
    assert_eq!(DecInt::new(-7).as_bytes(), b"-7");
    assert_eq!(DecInt::new(i64::MIN).as_bytes(), b"-9223372036854775808");
    assert_eq!(DecInt::new(i64::MAX).as_bytes(), b"9223372036854775807");
    assert_eq!(DecInt::from_fd(3).as_bytes(), b"3");
    let copy = t;
    assert_eq!(copy.as_bytes(), t.as_bytes());
}

#[test]
fn socket_type_round_trips() {
    assert_eq!(SocketType::from_raw(1).as_raw(), 1);
    assert_eq!(SocketType::from_raw(5), SocketType::from_raw(5));
    assert_ne!(SocketType::from_raw(1), SocketType::from_raw(2));
}

#[test]
fn protocol_round_trips() {
    assert_eq!(Protocol::from_raw(6).as_raw(), 6);
    assert_eq!(Protocol::from_raw(17), Protocol::from_raw(17));
}

#[test]
fn sizes_fit_c_int() {
    assert_eq!(core::mem::size_of::<SocketType>(), core::mem::size_of::<i32>());
    assert_eq!(core::mem::size_of::<Protocol>(), core::mem::size_of::<i32>());
}

#[test]
fn return_codes() {
    assert_eq!(no_fd(), -1);
    assert_eq!(ret(0), Ok(()));
    assert!(ret(-1).is_err());
    assert_eq!(syscall_ret(0), Ok(()));
    assert!(syscall_ret(-1).is_err());
    assert_eq!(nonnegative_ret(3), Ok(()));
    assert!(nonnegative_ret(-2).is_err());
    assert_eq!(ret_c_int(42), Ok(42));
    assert!(ret_c_int(-1).is_err());
    assert_eq!(ret_u32(7), Ok(7));
    assert!(ret_u32(-1).is_err());
    assert_eq!(ret_ssize_t(100), Ok(100));
    assert!(ret_ssize_t(-1).is_err());
    assert_eq!(syscall_ret_ssize_t(9), Ok(9));
    assert_eq!(syscall_ret_u32(0xffff_ffff), Ok(0xffff_ffff));
    assert!(syscall_ret_u32(-1).is_err());
    assert_eq!(ret_off_t(1 << 40), Ok(1 << 40));
    assert!(ret_off_t(-1).is_err());
    assert_eq!(ret_discarded_fd(4), Ok(()));
    assert!(ret_discarded_fd(-1).is_err());
    assert_eq!(send_recv_len(12), 12);
    assert_eq!(ret_send_recv(5), Ok(5));
}

#[test]
fn errno_round_trips() {
    let e = Errno::from_raw(EINVAL);
    assert_eq!(e.raw(), 22);
    assert_eq!(e, Errno(22));
    assert_eq!(EINVAL as i32, linux_raw_sys::errno::EINVAL as i32);
}

#[test]
fn address_family_round_trips() {
    assert_eq!(AddressFamily::from_raw(10).as_raw(), 10);
    assert_eq!(AddressFamily::from_raw(2), AddressFamily::from_raw(libc::AF_INET as u16));
}

#[test]
fn rlimit_conversions() {
    let r = rlimit_from_raw(1024, RLIM_INFINITY);
    assert_eq!(r, Rlimit { current: Some(1024), maximum: None });
    assert_eq!(rlimit_to_raw(r), (1024, RLIM_INFINITY));
    assert_eq!(rlimit_to_raw(Rlimit { current: None, maximum: Some(7) }), (RLIM_INFINITY, 7));
    assert_eq!(RLIM_INFINITY, libc::RLIM_INFINITY as u64);
}

#[test]
fn wait_results() {
    assert_eq!(wait_result(0, 0), None);
    assert_eq!(wait_result(1234, 0x100), Some((1234, 0x100)));
}
