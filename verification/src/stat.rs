//! Fixed stat records for the namespace and its streams.
//!
//! Neither the virtual directory nor a capability stream is a real
//! filesystem object: both report a fixed, zero-size, linkless,
//! timestamp-less record that differs only in its file kind.

use vstd::prelude::*;

verus! {

/// The kind of entry a stat record describes.
#[derive(Clone, Copy, Debug, PartialEq, Eq, Structural)]
pub enum FileKind {
    /// The fixed capability namespace itself.
    Directory,
    /// A capability stream: a sequential request/response channel.
    Pipe,
}

/// A stat record. The bridge only ever returns fixed records: streams are
/// not seekable and have no persistent length, and the namespace has no
/// timestamps, so every numeric field is zero and every timestamp absent.
#[derive(Clone, Copy, Debug, PartialEq, Eq)]
pub struct Filestat {
    pub device_id: u64,
    pub inode: u64,
    pub filetype: FileKind,
    pub nlink: u64,
    pub size: u64,
    pub atim: Option<u64>,
    pub mtim: Option<u64>,
    pub ctim: Option<u64>,
}

/// The fixed record for the namespace: directory-typed, zero-size,
/// linkless, timestamp-less.
pub open spec fn spec_directory_stat() -> Filestat {
    Filestat {
        device_id: 0,
        inode: 0,
        filetype: FileKind::Directory,
        nlink: 0,
        size: 0,
        atim: None,
        mtim: None,
        ctim: None,
    }
}

/// The fixed record for a capability stream: stream-typed, size reported
/// as zero (the channel is not seekable and has no persistent length).
pub open spec fn spec_stream_stat() -> Filestat {
    Filestat {
        device_id: 0,
        inode: 0,
        filetype: FileKind::Pipe,
        nlink: 0,
        size: 0,
        atim: None,
        mtim: None,
        ctim: None,
    }
}

} // verus!
