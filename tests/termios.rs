use rsix::termios::{
    cfmakeraw, decode_speed, foreground_pgrp, ttyname_check_len, ttyname_check_mode,
    ttyname_check_same, encode_speed, infer_speeds, set_input_speed, set_output_speed,
    set_speed, tcsetattr_request, OptionalActions, Termios, BOTHER, CBAUD, CIBAUD, CS8, CSIZE,
    IBSHIFT, ICANON, ECHO, ICRNL, IEXTEN, IXON, NCCS, OPOST, PARENB, TCSETS, TCSETS2, VMIN, VTIME,
};
use linux_raw_sys::general as g;
use rsix::errno::{Errno, ENODEV, ENOTTY, EOPNOTSUPP, ERANGE};

fn sample() -> Termios {
    Termios {
        input_modes: ICRNL | IXON | 0o20000,
        output_modes: OPOST | 0o4,
        control_modes: 0o15 | (0o15 << IBSHIFT) | 0o60 | 0o200,
        local_modes: ECHO | ICANON | IEXTEN | 0o20,
        line_discipline: 0,
        special_codes: [3u8; 19],
        input_speed: 9600,
        output_speed: 9600,
    }
}

#[test]
fn set_speed_with_a_code() {
    let mut t = sample();
    assert_eq!(set_speed(&mut t, 115200), Ok(()));
    assert_eq!(t.control_modes & CBAUD, 0o10002);
    assert_eq!((t.control_modes & CIBAUD) >> IBSHIFT, 0o10002);
    assert_eq!(t.control_modes & !(CBAUD | CIBAUD), 0o260);
    assert_eq!(t.input_speed, 115200);
    assert_eq!(t.output_speed, 115200);
    assert_eq!(t.input_modes, sample().input_modes);
}

#[test]
fn set_speed_without_a_code_uses_bother() {
    let mut t = sample();
    set_speed(&mut t, 12345).unwrap();
    assert_eq!(t.control_modes & CBAUD, BOTHER);
    assert_eq!((t.control_modes & CIBAUD) >> IBSHIFT, BOTHER);
    assert_eq!(t.output_speed, 12345);
    assert_eq!(tcsetattr_request(&t, OptionalActions::Drain), TCSETS2 + 1);
    assert_eq!(infer_speeds(t.control_modes), None);
}

#[test]
fn set_output_speed_keeps_input() {
    let mut t = sample();
    set_output_speed(&mut t, 38400).unwrap();
    assert_eq!(t.control_modes & CBAUD, 0o17);
    assert_eq!((t.control_modes & CIBAUD) >> IBSHIFT, 0o15);
    assert_eq!(t.output_speed, 38400);
    assert_eq!(t.input_speed, 9600);
    assert_eq!(infer_speeds(t.control_modes), Some((38400, 9600)));
}

#[test]
fn set_input_speed_keeps_output() {
    let mut t = sample();
    set_input_speed(&mut t, 4000000).unwrap();
    assert_eq!(t.control_modes & CBAUD, 0o15);
    assert_eq!((t.control_modes & CIBAUD) >> IBSHIFT, 0o10017);
    assert_eq!(t.input_speed, 4000000);
    assert_eq!(t.output_speed, 9600);
    assert_eq!(infer_speeds(t.control_modes), Some((9600, 4000000)));
}

#[test]
fn input_code_zero_means_output_speed() {
    assert_eq!(infer_speeds(0o13), Some((2400, 2400)));
    assert_eq!(infer_speeds(0o13 | (0o14 << IBSHIFT)), Some((2400, 4800)));
    assert_eq!(infer_speeds(BOTHER), None);
}

#[test]
fn raw_mode() {
    let mut t = sample();
    t.control_modes |= PARENB;
    cfmakeraw(&mut t);
    assert_eq!(t.input_modes, 0o20000);
    assert_eq!(t.output_modes, 0o4);
    assert_eq!(t.local_modes, 0o20);
    assert_eq!(t.control_modes & CSIZE, CS8);
    assert_eq!(t.control_modes & PARENB, 0);
    assert_eq!(t.control_modes & CBAUD, 0o15);
    assert_eq!(t.special_codes[VMIN], 1);
    assert_eq!(t.special_codes[VTIME], 0);
    assert_eq!(t.special_codes[0], 3);
    assert_eq!(t.input_speed, 9600);
}

#[test]
fn request_without_bother() {
    let t = sample();
    assert_eq!(tcsetattr_request(&t, OptionalActions::Now), TCSETS);
    assert_eq!(tcsetattr_request(&t, OptionalActions::Flush), TCSETS + 2);
}

#[test]
fn speed_table_round_trips() {
    let speeds = [
        0u32, 50, 75, 110, 134, 150, 200, 300, 600, 1200, 1800, 2400, 4800, 9600, 19200, 38400,
        57600, 115200, 230400, 460800, 500000, 576000, 921600, 1000000, 1152000, 1500000,
        2000000, 2500000, 3000000, 3500000, 4000000,
    ];
    for s in speeds {
        let code = encode_speed(s).unwrap();
        assert_eq!(decode_speed(code), Some(s));
    }
    assert_eq!(encode_speed(9600), Some(g::B9600));
    assert_eq!(encode_speed(4000000), Some(g::B4000000));
    assert_eq!(encode_speed(1), None);
    assert_eq!(decode_speed(BOTHER), None);
    assert_eq!(decode_speed(16), None);
}

#[test]
fn constants_match_kernel_headers() {
    assert_eq!(CBAUD, g::CBAUD);
    assert_eq!(CIBAUD, g::CIBAUD);
    assert_eq!(IBSHIFT, g::IBSHIFT);
    assert_eq!(BOTHER, g::BOTHER);
    assert_eq!(CSIZE, g::CSIZE);
    assert_eq!(CS8, g::CS8);
    assert_eq!(PARENB, g::PARENB);
    assert_eq!(OPOST, g::OPOST);
    assert_eq!(IEXTEN, g::IEXTEN);
    assert_eq!(NCCS, g::NCCS as usize);
    assert_eq!(VMIN, g::VMIN as usize);
    assert_eq!(VTIME, g::VTIME as usize);
    assert_eq!(TCSETS as u64, libc::TCSETS as u64);
    assert_eq!(TCSETS2 as u64, libc::TCSETS2 as u64);
}

#[test]
fn zero_foreground_group_is_unsupported() {
    assert_eq!(foreground_pgrp(0), Err(Errno(EOPNOTSUPP)));
    assert_eq!(foreground_pgrp(1234), Ok(1234));
    assert_eq!(EOPNOTSUPP as u32, linux_raw_sys::errno::EOPNOTSUPP);
}

#[test]
fn ttyname_checks() {
    assert_eq!(ttyname_check_mode(0o020620), Ok(()));
    assert_eq!(ttyname_check_mode(0o100644), Err(Errno(ENOTTY)));
    assert_eq!(ttyname_check_mode(0o060660), Err(Errno(ENOTTY)));
    assert_eq!(ttyname_check_len(10, 64), Ok(10));
    assert_eq!(ttyname_check_len(64, 64), Err(Errno(ERANGE)));
    assert_eq!(ttyname_check_same(5, 9, 5, 9), Ok(()));
    assert_eq!(ttyname_check_same(5, 9, 5, 8), Err(Errno(ENODEV)));
    assert_eq!(ttyname_check_same(5, 9, 6, 9), Err(Errno(ENODEV)));
    assert_eq!(ENOTTY as u32, linux_raw_sys::errno::ENOTTY);
    assert_eq!(ERANGE as u32, linux_raw_sys::errno::ERANGE);
    assert_eq!(ENODEV as u32, linux_raw_sys::errno::ENODEV);
}
