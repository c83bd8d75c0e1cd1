//! Safe access to Linux system-call data: decoders for the variable-length
//! records that the kernel writes into caller buffers (directory entries
//! from `getdents64`, inotify events from `read`), the parser of the
//! auxiliary vector handed to a new process, and the computation around
//! terminal attributes, socket numbers and C return codes. The calls
//! themselves are made by the caller.

pub mod abi;
pub mod auxv;
pub mod conv;
pub mod dec_int;
pub mod errno;
pub mod file_type;
pub mod inotify;
pub mod net_types;
pub mod process;
pub mod raw_dir;
pub mod termios;
