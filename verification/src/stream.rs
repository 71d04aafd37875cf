//! Stream handles: the per-open objects returned by a successful open.
//!
//! A handle is bound to one capability of one table and carries the
//! read/write intents it was granted at open time. A write is one complete
//! logical request: the payload is processed synchronously against the
//! capability's state, the successor state is committed, and the response
//! is buffered for the reader. A read drains the buffered response in FIFO
//! order; a drained handle reads zero bytes until the next successful
//! write. Two handles opened on the same name share the capability's state
//! but nothing else: each handle's buffer is private to it.

use vstd::prelude::*;

use crate::error::BridgeError;
use crate::handler::ReadWrite;
use crate::map::HandlerMap;
use crate::stat::{spec_stream_stat, FileKind, Filestat};

verus! {

/// A per-open stream bound to a capability, identified by its position in
/// the table the handle was opened from.
pub struct StreamHandle {
    /// The position of the bound capability in the table's entries.
    pub cap_index: usize,
    /// Whether the open was granted read intent.
    pub can_read: bool,
    /// Whether the open was granted write intent.
    pub can_write: bool,
    /// The buffered response of the last successful write.
    pub output: Vec<u8>,
    /// How much of `output` has already been drained by reads.
    pub out_pos: usize,
}

impl StreamHandle {
    /// The drain position never runs past the buffered response.
    pub open spec fn inv(self) -> bool {
        self.out_pos <= self.output@.len()
    }

    /// The not-yet-read part of the buffered response, in FIFO order.
    pub open spec fn pending(self) -> Seq<u8> {
        self.output@.skip(self.out_pos as int)
    }

    /// The binding and intents of `self` equal those of `other`: a handle
    /// never changes which capability it is bound to, nor the intents it
    /// was granted at open time.
    pub open spec fn same_grant(self, other: StreamHandle) -> bool {
        self.cap_index == other.cap_index && self.can_read == other.can_read && self.can_write
            == other.can_write
    }

    /// Write one complete request payload to the bound capability.
    ///
    /// Fails `PermissionDenied` when the handle was opened without write
    /// intent. Otherwise the payload is processed synchronously: on
    /// success the capability's successor state is committed into the
    /// table, the response replaces any prior unread output, and the whole
    /// payload counts as written; on `ProcessingFailure` nothing is
    /// committed. Either way the table's skeleton — every name, mode and
    /// processor, and every other capability's state — is untouched.
    pub fn write<P: ReadWrite>(&mut self, dir: &mut HandlerMap<P>, input: &Vec<u8>) -> (r: Result<
        usize,
        BridgeError,
    >)
        requires
            old(self).inv(),
            old(self).cap_index < old(dir).entries@.len(),
        ensures
            final(self).inv(),
            final(self).same_grant(*old(self)),
            final(dir).sealed == old(dir).sealed,
            final(dir).entries@.len() == old(dir).entries@.len(),
            final(dir).skeleton() == old(dir).skeleton(),
            old(dir).wf() ==> final(dir).wf(),
            !old(self).can_write ==> r == Err::<usize, BridgeError>(BridgeError::PermissionDenied)
                && *final(self) == *old(self) && final(dir).entries@ == old(dir).entries@,
            old(self).can_write ==> ({
                let idx = old(self).cap_index as int;
                let cap = old(dir).entries@[idx].1;
                if cap.processor.accepts(cap.state@, input@) {
                    &&& r == Ok::<usize, BridgeError>(input.len())
                    &&& forall|j: int|
                        0 <= j < final(dir).entries@.len() && j != idx ==> final(dir).entries@[j]
                            == old(dir).entries@[j]
                    &&& final(dir).entries@[idx].0 == old(dir).entries@[idx].0
                    &&& final(dir).entries@[idx].1.mode == cap.mode
                    &&& final(dir).entries@[idx].1.processor == cap.processor
                    &&& final(dir).entries@[idx].1.state@ == cap.processor.next_state(
                        cap.state@,
                        input@,
                    )
                    &&& final(self).pending() == cap.processor.response(cap.state@, input@)
                } else {
                    &&& r == Err::<usize, BridgeError>(BridgeError::ProcessingFailure)
                    &&& *final(self) == *old(self)
                    &&& final(dir).entries@ == old(dir).entries@
                }
            }),
    {
        if !self.can_write {
            return Err(BridgeError::PermissionDenied);
        }
        let idx = self.cap_index;
        let entry = &mut dir.entries[idx];
        let outcome = entry.1.processor.process(&entry.1.state, input);
        match outcome {
            Ok((s2, out)) => {
                entry.1.state = s2;
                self.output = out;
                self.out_pos = 0;
                proof {
                    assert(self.pending() =~= self.output@);
                    assert(dir.skeleton() =~= old(dir).skeleton());
                }
                Ok(input.len())
            }
            Err(()) => {
                proof {
                    assert(dir.entries@ =~= old(dir).entries@);
                    assert(dir.skeleton() =~= old(dir).skeleton());
                }
                Err(BridgeError::ProcessingFailure)
            }
        }
    }

    /// Read up to `buf_len` bytes of the buffered response, in FIFO order.
    ///
    /// Fails `PermissionDenied` when the handle was opened without read
    /// intent. Otherwise returns however many of the pending bytes fit; a
    /// drained handle returns zero bytes — end of output, not an error —
    /// until the next successful write buffers a new response. Never
    /// touches the table or the capability's state.
    pub fn read(&mut self, buf_len: usize) -> (r: Result<Vec<u8>, BridgeError>)
        requires
            old(self).inv(),
        ensures
            final(self).inv(),
            final(self).same_grant(*old(self)),
            !old(self).can_read ==> r == Err::<Vec<u8>, BridgeError>(BridgeError::PermissionDenied)
                && *final(self) == *old(self),
            old(self).can_read ==> ({
                let n = if buf_len as int <= old(self).pending().len() {
                    buf_len as int
                } else {
                    old(self).pending().len() as int
                };
                &&& r matches Ok(data)
                &&& data@ == old(self).pending().take(n)
                &&& final(self).pending() == old(self).pending().skip(n)
            }),
    {
        if !self.can_read {
            return Err(BridgeError::PermissionDenied);
        }
        let mut data: Vec<u8> = Vec::new();
        let ghost start = self.out_pos as int;
        while self.out_pos < self.output.len() && data.len() < buf_len
            invariant
                self.inv(),
                self.cap_index == old(self).cap_index,
                self.can_read == old(self).can_read,
                self.can_write == old(self).can_write,
                self.output@ == old(self).output@,
                0 <= start <= self.out_pos as int,
                data@.len() == self.out_pos as int - start,
                data@ == self.output@.subrange(start, self.out_pos as int),
                data@.len() <= buf_len,
            decreases self.output@.len() - self.out_pos,
        {
            let b = self.output[self.out_pos];
            data.push(b);
            self.out_pos += 1;
            proof {
                assert(data@ =~= self.output@.subrange(start, self.out_pos as int));
            }
        }
        proof {
            let n = if buf_len as int <= old(self).pending().len() {
                buf_len as int
            } else {
                old(self).pending().len() as int
            };
            assert(data@.len() == n);
            assert(data@ =~= old(self).pending().take(n));
            assert(self.pending() =~= old(self).pending().skip(n));
        }
        Ok(data)
    }

    /// The fixed stat record of a capability stream: stream-typed, size
    /// reported as zero (the channel is not seekable and has no persistent
    /// length), no timestamps.
    pub fn get_filestat(&self) -> (r: Filestat)
        ensures
            r == spec_stream_stat(),
    {
        Filestat {
            device_id: 0,
            inode: 0,
            filetype: FileKind::Pipe,
            nlink: 0,
            size: 0,
            atim: None,
            mtim: None,
            ctim: None,
        }
    }

    /// A capability stream is a pipe.
    pub fn get_filetype(&self) -> (r: FileKind)
        ensures
            r == FileKind::Pipe,
    {
        FileKind::Pipe
    }

    /// Streams need no flushing: every committed write already lives in
    /// the capability's state.
    pub fn datasync(&self) -> (r: Result<(), BridgeError>)
        ensures
            r == Ok::<(), BridgeError>(()),
    {
        Ok(())
    }

    /// Streams need no flushing: every committed write already lives in
    /// the capability's state.
    pub fn sync(&self) -> (r: Result<(), BridgeError>)
        ensures
            r == Ok::<(), BridgeError>(()),
    {
        Ok(())
    }

    /// The stream is purely sequential: reading at an offset is
    /// unsupported.
    pub fn read_at(&self, _offset: u64) -> (r: Result<Vec<u8>, BridgeError>)
        ensures
            r == Err::<Vec<u8>, BridgeError>(BridgeError::Unsupported),
    {
        Err(BridgeError::Unsupported)
    }

    /// The stream is purely sequential: writing at an offset is
    /// unsupported.
    pub fn write_at(&self, _offset: u64) -> (r: Result<usize, BridgeError>)
        ensures
            r == Err::<usize, BridgeError>(BridgeError::Unsupported),
    {
        Err(BridgeError::Unsupported)
    }

    /// The stream is not seekable.
    pub fn seek(&self, _offset: i64) -> (r: Result<u64, BridgeError>)
        ensures
            r == Err::<u64, BridgeError>(BridgeError::Unsupported),
    {
        Err(BridgeError::Unsupported)
    }

    /// No peeking: a response can only be drained, in order.
    pub fn peek(&self) -> (r: Result<Vec<u8>, BridgeError>)
        ensures
            r == Err::<Vec<u8>, BridgeError>(BridgeError::Unsupported),
    {
        Err(BridgeError::Unsupported)
    }

    /// The stream has no allocatable extent.
    pub fn allocate(&self, _offset: u64, _len: u64) -> (r: Result<(), BridgeError>)
        ensures
            r == Err::<(), BridgeError>(BridgeError::Unsupported),
    {
        Err(BridgeError::Unsupported)
    }

    /// There is no access pattern to advise about.
    pub fn advise(&self, _offset: u64, _len: u64) -> (r: Result<(), BridgeError>)
        ensures
            r == Err::<(), BridgeError>(BridgeError::Unsupported),
    {
        Err(BridgeError::Unsupported)
    }

    /// The stream has no persistent length to set.
    pub fn set_filestat_size(&self, _size: u64) -> (r: Result<(), BridgeError>)
        ensures
            r == Err::<(), BridgeError>(BridgeError::Unsupported),
    {
        Err(BridgeError::Unsupported)
    }

    /// The stream has no timestamps to set.
    pub fn set_times(&self, _atim: Option<u64>, _mtim: Option<u64>) -> (r: Result<(), BridgeError>)
        ensures
            r == Err::<(), BridgeError>(BridgeError::Unsupported),
    {
        Err(BridgeError::Unsupported)
    }

    /// Close the handle: its private buffer is dropped with it. The
    /// capability's state is unaffected and persists, in the table, for
    /// the next open.
    pub fn close(self) {
    }
}

} // verus!
