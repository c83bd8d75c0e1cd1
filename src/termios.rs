//! The parts of terminal control that are computation: editing the mode
//! bits and speeds of a `Termios`, and choosing the `ioctl` that reads or
//! writes it. The `ioctl` calls themselves are made by the caller.
use vstd::prelude::*;
use crate::errno::{Errno, ENODEV, ENOTTY, EOPNOTSUPP, ERANGE};
use crate::file_type::{mode_kind, FileType};

verus! {

/// `IGNBRK`: ignore a break condition.
pub const IGNBRK: u32 = 0o1;
/// `BRKINT`: a break flushes the queues and sends `SIGINT`.
pub const BRKINT: u32 = 0o2;
/// `PARMRK`: mark parity errors.
pub const PARMRK: u32 = 0o10;
/// `ISTRIP`: strip the eighth bit.
pub const ISTRIP: u32 = 0o40;
/// `INLCR`: turn NL into CR on input.
pub const INLCR: u32 = 0o100;
/// `IGNCR`: ignore CR on input.
pub const IGNCR: u32 = 0o200;
/// `ICRNL`: turn CR into NL on input.
pub const ICRNL: u32 = 0o400;
/// `IXON`: XON/XOFF flow control on output.
pub const IXON: u32 = 0o2000;
/// `OPOST`: process output.
pub const OPOST: u32 = 0o1;
/// `ISIG`: generate signals for INTR, QUIT and SUSP.
pub const ISIG: u32 = 0o1;
/// `ICANON`: canonical input, line by line.
pub const ICANON: u32 = 0o2;
/// `ECHO`: echo input characters.
pub const ECHO: u32 = 0o10;
/// `ECHONL`: echo NL even without `ECHO`.
pub const ECHONL: u32 = 0o100;
/// `IEXTEN`: implementation-defined input processing.
pub const IEXTEN: u32 = 0o100000;
/// `CSIZE`: the character size bits.
pub const CSIZE: u32 = 0o60;
/// `CS8`: eight-bit characters.
pub const CS8: u32 = 0o60;
/// `PARENB`: parity on.
pub const PARENB: u32 = 0o400;
/// `CBAUD`: the output speed code bits of the control modes.
pub const CBAUD: u32 = 0o10017;
/// `CIBAUD`: the input speed code bits, `CBAUD` moved up by `IBSHIFT`.
pub const CIBAUD: u32 = 0o2003600000;
/// `IBSHIFT`: how far `CIBAUD` lies above `CBAUD`.
pub const IBSHIFT: u32 = 16;
/// `BOTHER`: the speed code that says "the speed field holds the speed".
pub const BOTHER: u32 = 0o10000;
/// `B0`: the speed code of speed zero; as an input speed, "same as output".
pub const B0: u32 = 0;
/// `NCCS`: the number of special characters.
pub const NCCS: usize = 19;
/// `VTIME`: the index of the read timeout.
pub const VTIME: usize = 5;
/// `VMIN`: the index of the read minimum.
pub const VMIN: usize = 6;
/// `TCSETS`: the `ioctl` that writes `struct termios`.
pub const TCSETS: u32 = 0x5402;
/// `TCSETS2`: the `ioctl` that writes `struct termios2`, with speeds.
pub const TCSETS2: u32 = 0x402C542B;

/// The terminal attributes: mode bits, line discipline, special characters
/// and the two speeds.
#[derive(Clone, Copy, Debug, PartialEq, Eq)]
pub struct Termios {
    /// `c_iflag`
    pub input_modes: u32,
    /// `c_oflag`
    pub output_modes: u32,
    /// `c_cflag`
    pub control_modes: u32,
    /// `c_lflag`
    pub local_modes: u32,
    /// `c_line`
    pub line_discipline: u8,
    /// `c_cc`
    pub special_codes: [u8; 19],
    /// `c_ispeed`, in bits per second.
    pub input_speed: u32,
    /// `c_ospeed`, in bits per second.
    pub output_speed: u32,
}

/// When `tcsetattr` applies the new attributes.
#[derive(Clone, Copy, Debug, PartialEq, Eq, Structural)]
pub enum OptionalActions {
    /// `TCSANOW`: at once.
    Now,
    /// `TCSADRAIN`: once the output is written.
    Drain,
    /// `TCSAFLUSH`: once the output is written, dropping pending input.
    Flush,
}

/// The `TCSA*` number of an action.
pub open spec fn action_number(a: OptionalActions) -> u32 {
    match a {
        OptionalActions::Now => 0,
        OptionalActions::Drain => 1,
        OptionalActions::Flush => 2,
    }
}

/// The speed code (`B*`) of a speed in bits per second, where it has one.
pub open spec fn speed_code(speed: u32) -> Option<u32> {
    match speed {
        0 => Some(0u32),
        50 => Some(1u32),
        75 => Some(2u32),
        110 => Some(3u32),
        134 => Some(4u32),
        150 => Some(5u32),
        200 => Some(6u32),
        300 => Some(7u32),
        600 => Some(8u32),
        1200 => Some(9u32),
        1800 => Some(10u32),
        2400 => Some(11u32),
        4800 => Some(12u32),
        9600 => Some(13u32),
        19200 => Some(14u32),
        38400 => Some(15u32),
        57600 => Some(0o10001u32),
        115200 => Some(0o10002u32),
        230400 => Some(0o10003u32),
        460800 => Some(0o10004u32),
        500000 => Some(0o10005u32),
        576000 => Some(0o10006u32),
        921600 => Some(0o10007u32),
        1000000 => Some(0o10010u32),
        1152000 => Some(0o10011u32),
        1500000 => Some(0o10012u32),
        2000000 => Some(0o10013u32),
        2500000 => Some(0o10014u32),
        3000000 => Some(0o10015u32),
        3500000 => Some(0o10016u32),
        4000000 => Some(0o10017u32),
        _ => None,
    }
}

/// The speed in bits per second that a speed code stands for, where it
/// stands for one: the code of exactly one speed.
pub open spec fn code_speed(code: u32) -> Option<u32> {
    if exists|s: u32| speed_code(s) == Some(code) {
        Some(choose|s: u32| speed_code(s) == Some(code))
    } else {
        None
    }
}

/// The code that a speed is written with in the control modes: its own
/// code, or `BOTHER` where it has none.
pub open spec fn encoded_speed(speed: u32) -> u32 {
    match speed_code(speed) {
        Some(c) => c,
        None => BOTHER,
    }
}

/// The output speed code held in control modes `c`.
pub open spec fn output_code(c: u32) -> u32 {
    c & CBAUD
}

/// The input speed code held in control modes `c`.
pub open spec fn input_code(c: u32) -> u32 {
    (c & CIBAUD) >> IBSHIFT
}

/// Returns the speed code of `speed` in bits per second, if it has one.
pub fn encode_speed(speed: u32) -> (r: Option<u32>)
    ensures
        r == speed_code(speed),
{
    match speed {
        0 => Some(0),
        50 => Some(1),
        75 => Some(2),
        110 => Some(3),
        134 => Some(4),
        150 => Some(5),
        200 => Some(6),
        300 => Some(7),
        600 => Some(8),
        1200 => Some(9),
        1800 => Some(10),
        2400 => Some(11),
        4800 => Some(12),
        9600 => Some(13),
        19200 => Some(14),
        38400 => Some(15),
        57600 => Some(0o10001),
        115200 => Some(0o10002),
        230400 => Some(0o10003),
        460800 => Some(0o10004),
        500000 => Some(0o10005),
        576000 => Some(0o10006),
        921600 => Some(0o10007),
        1000000 => Some(0o10010),
        1152000 => Some(0o10011),
        1500000 => Some(0o10012),
        2000000 => Some(0o10013),
        2500000 => Some(0o10014),
        3000000 => Some(0o10015),
        3500000 => Some(0o10016),
        4000000 => Some(0o10017),
        _ => None,
    }
}

/// Returns the speed in bits per second of a speed code, if it stands for
/// one.
pub fn decode_speed(code: u32) -> (r: Option<u32>)
    ensures
        r == code_speed(code),
        r matches Some(s) ==> speed_code(s) == Some(code),
        code <= 15 || (0o10001 <= code <= 0o10017) ==> r is Some,
{
    let r: Option<u32> = match code {
        0 => Some(0),
        1 => Some(50),
        2 => Some(75),
        3 => Some(110),
        4 => Some(134),
        5 => Some(150),
        6 => Some(200),
        7 => Some(300),
        8 => Some(600),
        9 => Some(1200),
        10 => Some(1800),
        11 => Some(2400),
        12 => Some(4800),
        13 => Some(9600),
        14 => Some(19200),
        15 => Some(38400),
        0o10001 => Some(57600),
        0o10002 => Some(115200),
        0o10003 => Some(230400),
        0o10004 => Some(460800),
        0o10005 => Some(500000),
        0o10006 => Some(576000),
        0o10007 => Some(921600),
        0o10010 => Some(1000000),
        0o10011 => Some(1152000),
        0o10012 => Some(1500000),
        0o10013 => Some(2000000),
        0o10014 => Some(2500000),
        0o10015 => Some(3000000),
        0o10016 => Some(3500000),
        0o10017 => Some(4000000),
        _ => None,
    };
    proof {
        lemma_code_speed(code);
    }
    r
}

/// Each speed code stands for at most one speed, and `code_speed` finds it.
proof fn lemma_code_speed(code: u32)
    ensures
        forall|s: u32| speed_code(s) == Some(code) ==> code_speed(code) == Some(s),
        code_speed(code) matches Some(s) ==> speed_code(s) == Some(code),
{
    assert forall|s: u32, t: u32|
        speed_code(s) == Some(code) && speed_code(t) == Some(code) implies s == t by {}
}

/// Every speed that has a code is found again from it.
pub proof fn lemma_speed_round_trip(speed: u32)
    requires
        speed_code(speed) is Some,
    ensures
        code_speed(speed_code(speed)->Some_0) == Some(speed),
{
    lemma_code_speed(speed_code(speed)->Some_0);
}

/// Sets both speeds to `arbitrary_speed`, in bits per second. A speed
/// without a code of its own is written with `BOTHER`, to go by the speed
/// fields. This cannot fail.
pub fn set_speed(termios: &mut Termios, arbitrary_speed: u32) -> (r: Result<(), Errno>)
    ensures
        r is Ok,
        final(termios).control_modes == (old(termios).control_modes & !(CBAUD | CIBAUD)) | (
        encoded_speed(arbitrary_speed) | (encoded_speed(arbitrary_speed) << IBSHIFT)),
        output_code(final(termios).control_modes) == encoded_speed(arbitrary_speed),
        input_code(final(termios).control_modes) == encoded_speed(arbitrary_speed),
        final(termios).input_speed == arbitrary_speed,
        final(termios).output_speed == arbitrary_speed,
        final(termios).input_modes == old(termios).input_modes,
        final(termios).output_modes == old(termios).output_modes,
        final(termios).local_modes == old(termios).local_modes,
        final(termios).line_discipline == old(termios).line_discipline,
        final(termios).special_codes == old(termios).special_codes,
{
    let encoded = match encode_speed(arbitrary_speed) {
        Some(c) => c,
        None => BOTHER,
    };
    let old_c = termios.control_modes;
    let new_c = (old_c & !(CBAUD | CIBAUD)) | (encoded | (encoded << IBSHIFT));
    proof {
        lemma_speed_codes_fit(arbitrary_speed);
        assert(new_c & 0o10017u32 == encoded && (new_c & 0o2003600000u32) >> 16u32 == encoded)
            by (bit_vector)
            requires
                encoded & !0o10017u32 == 0,
                new_c == (old_c & !(0o10017u32 | 0o2003600000u32)) | (encoded | (encoded << 16u32)),
        ;
    }
    termios.control_modes = new_c;
    termios.input_speed = arbitrary_speed;
    termios.output_speed = arbitrary_speed;
    Ok(())
}

/// Sets the output speed to `arbitrary_speed`, in bits per second, leaving
/// the input speed as it is. This cannot fail.
pub fn set_output_speed(termios: &mut Termios, arbitrary_speed: u32) -> (r: Result<(), Errno>)
    ensures
        r is Ok,
        final(termios).control_modes == (old(termios).control_modes & !CBAUD) | encoded_speed(
            arbitrary_speed,
        ),
        output_code(final(termios).control_modes) == encoded_speed(arbitrary_speed),
        input_code(final(termios).control_modes) == input_code(old(termios).control_modes),
        final(termios).output_speed == arbitrary_speed,
        final(termios).input_speed == old(termios).input_speed,
        final(termios).input_modes == old(termios).input_modes,
        final(termios).output_modes == old(termios).output_modes,
        final(termios).local_modes == old(termios).local_modes,
        final(termios).line_discipline == old(termios).line_discipline,
        final(termios).special_codes == old(termios).special_codes,
{
    let encoded = match encode_speed(arbitrary_speed) {
        Some(c) => c,
        None => BOTHER,
    };
    let old_c = termios.control_modes;
    let new_c = (old_c & !CBAUD) | encoded;
    proof {
        lemma_speed_codes_fit(arbitrary_speed);
        assert(new_c & 0o10017u32 == encoded && (new_c & 0o2003600000u32) >> 16u32 == (old_c
            & 0o2003600000u32) >> 16u32) by (bit_vector)
            requires
                encoded & !0o10017u32 == 0,
                new_c == (old_c & !0o10017u32) | encoded,
        ;
    }
    termios.control_modes = new_c;
    termios.output_speed = arbitrary_speed;
    Ok(())
}

/// Sets the input speed to `arbitrary_speed`, in bits per second, leaving
/// the output speed as it is. This cannot fail.
pub fn set_input_speed(termios: &mut Termios, arbitrary_speed: u32) -> (r: Result<(), Errno>)
    ensures
        r is Ok,
        final(termios).control_modes == (old(termios).control_modes & !CIBAUD) | (
        encoded_speed(arbitrary_speed) << IBSHIFT),
        input_code(final(termios).control_modes) == encoded_speed(arbitrary_speed),
        output_code(final(termios).control_modes) == output_code(old(termios).control_modes),
        final(termios).input_speed == arbitrary_speed,
        final(termios).output_speed == old(termios).output_speed,
        final(termios).input_modes == old(termios).input_modes,
        final(termios).output_modes == old(termios).output_modes,
        final(termios).local_modes == old(termios).local_modes,
        final(termios).line_discipline == old(termios).line_discipline,
        final(termios).special_codes == old(termios).special_codes,
{
    let encoded = match encode_speed(arbitrary_speed) {
        Some(c) => c,
        None => BOTHER,
    };
    let old_c = termios.control_modes;
    let new_c = (old_c & !CIBAUD) | (encoded << IBSHIFT);
    proof {
        lemma_speed_codes_fit(arbitrary_speed);
        assert((new_c & 0o2003600000u32) >> 16u32 == encoded && new_c & 0o10017u32 == old_c
            & 0o10017u32) by (bit_vector)
            requires
                encoded & !0o10017u32 == 0,
                new_c == (old_c & !0o2003600000u32) | (encoded << 16u32),
        ;
    }
    termios.control_modes = new_c;
    termios.input_speed = arbitrary_speed;
    Ok(())
}

/// Every code that a speed is written with lies within `CBAUD`.
proof fn lemma_speed_codes_fit(speed: u32)
    ensures
        encoded_speed(speed) & !CBAUD == 0,
{
    let e = encoded_speed(speed);
    assert(e <= 15 || (0o10000 <= e <= 0o10017));
    assert(e & !0o10017u32 == 0) by (bit_vector)
        requires
            e <= 15 || (0o10000 <= e && e <= 0o10017),
    ;
}

/// The input modes that raw mode clears.
pub open spec fn raw_cleared_input() -> u32 {
    IGNBRK | BRKINT | PARMRK | ISTRIP | INLCR | IGNCR | ICRNL | IXON
}

/// The local modes that raw mode clears.
pub open spec fn raw_cleared_local() -> u32 {
    ECHO | ECHONL | ICANON | ISIG | IEXTEN
}

/// Puts the attributes in raw mode, as `cfmakeraw` does: no input or
/// output processing, no echo, no signals, eight-bit characters without
/// parity, and reads that return after one byte with no timeout.
pub fn cfmakeraw(termios: &mut Termios)
    ensures
        final(termios).input_modes == old(termios).input_modes & !raw_cleared_input(),
        final(termios).output_modes == old(termios).output_modes & !OPOST,
        final(termios).local_modes == old(termios).local_modes & !raw_cleared_local(),
        final(termios).control_modes == (old(termios).control_modes & !(CSIZE | PARENB)) | CS8,
        final(termios).special_codes@ == old(termios).special_codes@.update(
            VMIN as int,
            1u8,
        ).update(VTIME as int, 0u8),
        final(termios).line_discipline == old(termios).line_discipline,
        final(termios).input_speed == old(termios).input_speed,
        final(termios).output_speed == old(termios).output_speed,
{
    termios.input_modes = termios.input_modes & !(IGNBRK | BRKINT | PARMRK | ISTRIP | INLCR
        | IGNCR | ICRNL | IXON);
    termios.output_modes = termios.output_modes & !OPOST;
    termios.local_modes = termios.local_modes & !(ECHO | ECHONL | ICANON | ISIG | IEXTEN);
    termios.control_modes = (termios.control_modes & !(CSIZE | PARENB)) | CS8;
    termios.special_codes[VMIN] = 1;
    termios.special_codes[VTIME] = 0;
}

/// The `ioctl` request that `tcsetattr` writes `termios` with: `TCSETS2`
/// plus the action where either speed goes by the speed fields (`BOTHER`),
/// else `TCSETS` plus the action.
pub fn tcsetattr_request(termios: &Termios, optional_actions: OptionalActions) -> (r: u32)
    ensures
        r == if output_code(termios.control_modes) == BOTHER || input_code(termios.control_modes)
            == BOTHER {
            TCSETS2 + action_number(optional_actions)
        } else {
            TCSETS + action_number(optional_actions)
        },
{
    let action: u32 = match optional_actions {
        OptionalActions::Now => 0,
        OptionalActions::Drain => 1,
        OptionalActions::Flush => 2,
    };
    let encoded_out = termios.control_modes & CBAUD;
    let encoded_in = (termios.control_modes & CIBAUD) >> IBSHIFT;
    if encoded_out == BOTHER || encoded_in == BOTHER {
        TCSETS2 + action
    } else {
        TCSETS + action
    }
}

/// The foreground process group that `TIOCGPGRP` reported. A pseudo-terminal
/// may report zero, which names no group: that is `EOPNOTSUPP`.
pub fn foreground_pgrp(pid: i32) -> (r: Result<i32, Errno>)
    ensures
        r == if pid == 0 {
            Err::<i32, Errno>(Errno(EOPNOTSUPP))
        } else {
            Ok::<i32, Errno>(pid)
        },
{
    if pid == 0 {
        Err(Errno(EOPNOTSUPP))
    } else {
        Ok(pid)
    }
}

/// The first check of `ttyname`: a file that is no character device is no
/// terminal.
pub fn ttyname_check_mode(st_mode: u32) -> (r: Result<(), Errno>)
    ensures
        r == if mode_kind(st_mode) == FileType::CharacterDevice {
            Ok::<(), Errno>(())
        } else {
            Err::<(), Errno>(Errno(ENOTTY))
        },
{
    if FileType::from_raw_mode(st_mode) == FileType::CharacterDevice {
        Ok(())
    } else {
        Err(Errno(ENOTTY))
    }
}

/// The check of `ttyname` after `readlink` of `/proc/self/fd/<fd>` wrote
/// `link_len` bytes into a buffer of `buf_len`: a link that fills the buffer
/// may be cut short, and leaves no room for the NUL.
pub fn ttyname_check_len(link_len: usize, buf_len: usize) -> (r: Result<usize, Errno>)
    ensures
        r == if link_len == buf_len {
            Err::<usize, Errno>(Errno(ERANGE))
        } else {
            Ok::<usize, Errno>(link_len)
        },
{
    if link_len == buf_len {
        Err(Errno(ERANGE))
    } else {
        Ok(link_len)
    }
}

/// The last check of `ttyname`: the path that the link names must be the
/// terminal's own file, the same device and inode.
pub fn ttyname_check_same(fd_dev: u64, fd_ino: u64, path_dev: u64, path_ino: u64) -> (r: Result<
    (),
    Errno,
>)
    ensures
        r == if fd_dev == path_dev && fd_ino == path_ino {
            Ok::<(), Errno>(())
        } else {
            Err::<(), Errno>(Errno(ENODEV))
        },
{
    if path_dev != fd_dev || path_ino != fd_ino {
        Err(Errno(ENODEV))
    } else {
        Ok(())
    }
}

/// The speeds, output first, that control modes `c` state by their codes
/// alone, after a `TCGETS` that leaves the speed fields unset: `None` where
/// either code is `BOTHER`, so that `TCGETS2` must read the speed fields. An
/// input code of `B0` means the output speed.
pub fn infer_speeds(c: u32) -> (r: Option<(u32, u32)>)
    ensures
        output_code(c) == BOTHER || input_code(c) == BOTHER ==> r is None,
        output_code(c) != BOTHER && input_code(c) != BOTHER ==> {
            &&& r is Some
            &&& Some(r->Some_0.0) == code_speed(output_code(c))
            &&& input_code(c) == B0 ==> r->Some_0.1 == r->Some_0.0
            &&& input_code(c) != B0 ==> Some(r->Some_0.1) == code_speed(input_code(c))
        },
{
    let encoded_out = c & CBAUD;
    let encoded_in = (c & CIBAUD) >> IBSHIFT;
    if encoded_out == BOTHER || encoded_in == BOTHER {
        return None;
    }
    proof {
        assert(encoded_out <= 15 || (0o10000 <= encoded_out && encoded_out <= 0o10017))
            by (bit_vector)
            requires
                encoded_out == c & 0o10017u32,
        ;
        assert(encoded_in <= 15 || (0o10000 <= encoded_in && encoded_in <= 0o10017))
            by (bit_vector)
            requires
                encoded_in == (c & 0o2003600000u32) >> 16u32,
        ;
    }
    let output_speed = match decode_speed(encoded_out) {
        Some(s) => s,
        None => {
            proof {
                assert(false);
            }
            0
        },
    };
    let input_speed = if encoded_in == B0 {
        output_speed
    } else {
        match decode_speed(encoded_in) {
            Some(s) => s,
            None => {
                proof {
                    assert(false);
                }
                0
            },
        }
    };
    Some((output_speed, input_speed))
}

} // verus!
