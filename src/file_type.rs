use vstd::prelude::*;

verus! {

/// The kind of a file, as a directory entry's `d_type` reports it.
#[derive(Clone, Copy, Debug, PartialEq, Eq, Structural)]
pub enum FileType {
    /// A regular file.
    RegularFile,
    /// A directory.
    Directory,
    /// A symbolic link.
    Symlink,
    /// A named pipe.
    Fifo,
    /// A Unix-domain socket.
    Socket,
    /// A character device.
    CharacterDevice,
    /// A block device.
    BlockDevice,
    /// The file system did not say.
    Unknown,
}

/// The file type that a `d_type` value names (`DT_*` in `<dirent.h>`).
pub open spec fn d_type_kind(d_type: u8) -> FileType {
    if d_type == 1 {
        FileType::Fifo
    } else if d_type == 2 {
        FileType::CharacterDevice
    } else if d_type == 4 {
        FileType::Directory
    } else if d_type == 6 {
        FileType::BlockDevice
    } else if d_type == 8 {
        FileType::RegularFile
    } else if d_type == 10 {
        FileType::Symlink
    } else if d_type == 12 {
        FileType::Socket
    } else {
        FileType::Unknown
    }
}

/// The file type that the `S_IFMT` bits of a `st_mode` name.
pub open spec fn mode_kind(mode: u32) -> FileType {
    let fmt = mode & 0o170000;
    if fmt == 0o100000 {
        FileType::RegularFile
    } else if fmt == 0o040000 {
        FileType::Directory
    } else if fmt == 0o120000 {
        FileType::Symlink
    } else if fmt == 0o010000 {
        FileType::Fifo
    } else if fmt == 0o140000 {
        FileType::Socket
    } else if fmt == 0o020000 {
        FileType::CharacterDevice
    } else if fmt == 0o060000 {
        FileType::BlockDevice
    } else {
        FileType::Unknown
    }
}

impl FileType {
    /// Converts the `st_mode` of a `stat` result into a file type.
    pub fn from_raw_mode(mode: u32) -> (r: FileType)
        ensures
            r == mode_kind(mode),
    {
        let fmt = mode & 0o170000;
        if fmt == 0o100000 {
            FileType::RegularFile
        } else if fmt == 0o040000 {
            FileType::Directory
        } else if fmt == 0o120000 {
            FileType::Symlink
        } else if fmt == 0o010000 {
            FileType::Fifo
        } else if fmt == 0o140000 {
            FileType::Socket
        } else if fmt == 0o020000 {
            FileType::CharacterDevice
        } else if fmt == 0o060000 {
            FileType::BlockDevice
        } else {
            FileType::Unknown
        }
    }

    /// Converts a directory entry's `d_type` field into a file type.
    pub fn from_dirent_d_type(d_type: u8) -> (r: FileType)
        ensures
            r == d_type_kind(d_type),
    {
        match d_type {
            1 => FileType::Fifo,
            2 => FileType::CharacterDevice,
            4 => FileType::Directory,
            6 => FileType::BlockDevice,
            8 => FileType::RegularFile,
            10 => FileType::Symlink,
            12 => FileType::Socket,
            _ => FileType::Unknown,
        }
    }
}

} // verus!
