//! The capability table and the virtual directory over it.
//!
//! The table maps names to capabilities. It is built by registering
//! capabilities one by one, then sealed; after sealing no registration is
//! possible, so lookups never race with mutation. The directory side
//! resolves a name, checks the requested intents against the capability's
//! permission mode, and hands out a stream handle; every structural
//! mutation of the namespace is rejected.

use vstd::prelude::*;

use crate::error::BridgeError;
use crate::error::RegisterError;
use crate::handler::{mode_allows, Handler, Mode, ReadWrite};
use crate::stat::{spec_directory_stat, spec_stream_stat, FileKind, Filestat};
use crate::stream::StreamHandle;

verus! {

/// Compare two names character for character.
fn name_eq(a: &String, b: &String) -> (r: bool)
    ensures
        r == (a@ == b@),
{
    *a == *b
}

/// The name-addressed table of capabilities, and the virtual directory
/// that exposes it to the engine.
pub struct HandlerMap<P: ReadWrite> {
    /// The registered capabilities, each under its name. Names are unique;
    /// see [`HandlerMap::wf`].
    pub entries: Vec<(String, Handler<P>)>,
    /// Whether the table has been sealed. A sealed table accepts no
    /// further registration.
    pub sealed: bool,
}

impl<P: ReadWrite> HandlerMap<P> {
    /// No two entries share a name.
    pub open spec fn wf(self) -> bool {
        forall|i: int, j: int|
            0 <= i < j < self.entries@.len() ==> self.entries@[i].0@ != self.entries@[j].0@
    }

    /// Whether some entry is registered under `name`.
    pub open spec fn has_name(self, name: Seq<char>) -> bool {
        exists|i: int| 0 <= i < self.entries@.len() && self.entries@[i].0@ == name
    }

    /// The position of the entry registered under `name`; meaningful only
    /// when `has_name(name)` holds (and then unique, by `wf`).
    pub open spec fn index_of(self, name: Seq<char>) -> int {
        choose|i: int| 0 <= i < self.entries@.len() && self.entries@[i].0@ == name
    }

    /// The capability registered under `name`; meaningful only when
    /// `has_name(name)` holds.
    pub open spec fn handler_at(self, name: Seq<char>) -> Handler<P> {
        self.entries@[self.index_of(name)].1
    }

    /// The immutable skeleton of the table: every entry's name, permission
    /// mode and processor, in registration order. Writing through a handle
    /// advances a capability's state but never changes the skeleton.
    pub open spec fn skeleton(self) -> Seq<(Seq<char>, Mode, P)> {
        self.entries@.map_values(|e: (String, Handler<P>)| (e.0@, e.1.mode, e.1.processor))
    }

    /// An empty, unsealed table.
    pub fn new() -> (m: HandlerMap<P>)
        ensures
            m.entries@.len() == 0,
            !m.sealed,
            m.wf(),
    {
        HandlerMap { entries: Vec::new(), sealed: false }
    }

    /// The position of the entry registered under `name`, if any.
    fn find(&self, name: &String) -> (r: Option<usize>)
        ensures
            match r {
                Some(i) => i < self.entries@.len() && self.entries@[i as int].0@ == name@,
                None => !self.has_name(name@),
            },
    {
        let mut i: usize = 0;
        while i < self.entries.len()
            invariant
                i <= self.entries@.len(),
                forall|j: int| 0 <= j < i ==> self.entries@[j].0@ != name@,
            decreases self.entries@.len() - i,
        {
            if name_eq(&self.entries[i].0, name) {
                return Some(i);
            }
            i += 1;
        }
        None
    }

    /// Register `handler` under `name`. Fails if the table is already
    /// sealed, or if `name` is already taken; on failure the table is
    /// unchanged.
    pub fn register(&mut self, name: String, handler: Handler<P>) -> (r: Result<(), RegisterError>)
        ensures
            final(self).sealed == old(self).sealed,
            old(self).sealed ==> r == Err::<(), RegisterError>(RegisterError::Sealed)
                && final(self).entries@ == old(self).entries@,
            !old(self).sealed && old(self).has_name(name@)
                ==> r == Err::<(), RegisterError>(RegisterError::DuplicateName)
                && final(self).entries@ == old(self).entries@,
            !old(self).sealed && !old(self).has_name(name@)
                ==> r == Ok::<(), RegisterError>(())
                && final(self).entries@ == old(self).entries@.push((name, handler)),
            old(self).wf() ==> final(self).wf(),
    {
        if self.sealed {
            return Err(RegisterError::Sealed);
        }
        match self.find(&name) {
            Some(_) => Err(RegisterError::DuplicateName),
            None => {
                self.entries.push((name, handler));
                Ok(())
            }
        }
    }

    /// Seal the table: no further registration is possible, and the set of
    /// names, modes and processors is fixed for the table's lifetime.
    pub fn seal(&mut self)
        ensures
            final(self).sealed,
            final(self).entries@ == old(self).entries@,
    {
        self.sealed = true;
    }

    /// Resolve `name` to its capability, without opening it. Never mutates
    /// the table.
    pub fn lookup(&self, name: &str) -> (r: Option<&Handler<P>>)
        requires
            self.wf(),
        ensures
            match r {
                Some(h) => self.has_name(name@) && *h == self.handler_at(name@),
                None => !self.has_name(name@),
            },
    {
        let key = name.to_owned();
        match self.find(&key) {
            Some(i) => {
                let h = &self.entries[i].1;
                proof {
                    let j = self.index_of(name@);
                    assert(self.entries@[i as int].0@ == name@);
                    assert(0 <= j < self.entries@.len() && self.entries@[j].0@ == name@);
                    assert(j == i as int);
                }
                Some(h)
            }
            None => None,
        }
    }

    /// Open the capability registered under `name` with the given
    /// read/write intents.
    ///
    /// Fails `NotFound` when the name is absent, and `PermissionDenied`
    /// when the capability's permission mode does not grant the requested
    /// intents; otherwise returns a fresh stream handle bound to the
    /// capability, carrying the granted intents and empty buffers.
    /// Permission is checked here, once; the handle retains the intents it
    /// was granted.
    pub fn open(&self, name: &str, want_read: bool, want_write: bool) -> (r: Result<
        StreamHandle,
        BridgeError,
    >)
        requires
            self.wf(),
        ensures
            !self.has_name(name@) ==> r == Err::<StreamHandle, BridgeError>(BridgeError::NotFound),
            self.has_name(name@) && !mode_allows(self.handler_at(name@).mode, want_read, want_write)
                ==> r == Err::<StreamHandle, BridgeError>(BridgeError::PermissionDenied),
            self.has_name(name@) && mode_allows(self.handler_at(name@).mode, want_read, want_write)
                ==> (r matches Ok(h)
                && h.cap_index == self.index_of(name@)
                && h.can_read == want_read
                && h.can_write == want_write
                && h.pending() == Seq::<u8>::empty()
                && h.inv()),
    {
        let key = name.to_owned();
        match self.find(&key) {
            None => Err(BridgeError::NotFound),
            Some(i) => {
                proof {
                    let j = self.index_of(name@);
                    assert(self.entries@[i as int].0@ == name@);
                    assert(0 <= j < self.entries@.len() && self.entries@[j].0@ == name@);
                    assert(j == i as int);
                }
                if !self.entries[i].1.is_valid(want_read, want_write) {
                    Err(BridgeError::PermissionDenied)
                } else {
                    let h = StreamHandle {
                        cap_index: i,
                        can_read: want_read,
                        can_write: want_write,
                        output: Vec::new(),
                        out_pos: 0,
                    };
                    proof {
                        assert(h.pending() =~= Seq::<u8>::empty());
                    }
                    Ok(h)
                }
            }
        }
    }

    /// The fixed stat record of the namespace itself: directory-typed,
    /// zero-size, linkless, timestamp-less.
    pub fn get_filestat(&self) -> (r: Filestat)
        ensures
            r == spec_directory_stat(),
    {
        Filestat {
            device_id: 0,
            inode: 0,
            filetype: FileKind::Directory,
            nlink: 0,
            size: 0,
            atim: None,
            mtim: None,
            ctim: None,
        }
    }

    /// The stat record of the entry registered under `name`, obtained by a
    /// transient open without read or write intent, so that absent names
    /// fail exactly as `open` fails them.
    pub fn get_path_filestat(&self, name: &str) -> (r: Result<Filestat, BridgeError>)
        requires
            self.wf(),
        ensures
            self.has_name(name@) ==> r == Ok::<Filestat, BridgeError>(spec_stream_stat()),
            !self.has_name(name@) ==> r == Err::<Filestat, BridgeError>(BridgeError::NotFound),
    {
        match self.open(name, false, false) {
            Ok(h) => Ok(h.get_filestat()),
            Err(e) => Err(e),
        }
    }

    /// The namespace is fixed: opening a subdirectory is unsupported, for
    /// every path.
    pub fn open_dir(&self, _path: &str) -> (r: Result<(), BridgeError>)
        ensures
            r == Err::<(), BridgeError>(BridgeError::Unsupported),
    {
        Err(BridgeError::Unsupported)
    }

    /// The namespace is fixed: creating a directory is unsupported, for
    /// every path.
    pub fn create_dir(&self, _path: &str) -> (r: Result<(), BridgeError>)
        ensures
            r == Err::<(), BridgeError>(BridgeError::Unsupported),
    {
        Err(BridgeError::Unsupported)
    }

    /// The namespace is fixed: listing it is unsupported.
    pub fn readdir(&self, _cursor: u64) -> (r: Result<Vec<String>, BridgeError>)
        ensures
            r == Err::<Vec<String>, BridgeError>(BridgeError::Unsupported),
    {
        Err(BridgeError::Unsupported)
    }

    /// The namespace is fixed: creating a symbolic link is unsupported,
    /// for every pair of paths.
    pub fn symlink(&self, _src_path: &str, _dest_path: &str) -> (r: Result<(), BridgeError>)
        ensures
            r == Err::<(), BridgeError>(BridgeError::Unsupported),
    {
        Err(BridgeError::Unsupported)
    }

    /// The namespace is fixed: removing a directory is unsupported, for
    /// every path.
    pub fn remove_dir(&self, _path: &str) -> (r: Result<(), BridgeError>)
        ensures
            r == Err::<(), BridgeError>(BridgeError::Unsupported),
    {
        Err(BridgeError::Unsupported)
    }

    /// The namespace is fixed: unlinking an entry is unsupported, for
    /// every path, including valid capability names.
    pub fn unlink_file(&self, _path: &str) -> (r: Result<(), BridgeError>)
        ensures
            r == Err::<(), BridgeError>(BridgeError::Unsupported),
    {
        Err(BridgeError::Unsupported)
    }

    /// The namespace has no links to read, for any path.
    pub fn read_link(&self, _path: &str) -> (r: Result<String, BridgeError>)
        ensures
            r == Err::<String, BridgeError>(BridgeError::Unsupported),
    {
        Err(BridgeError::Unsupported)
    }

    /// The namespace is fixed: renaming an entry is unsupported, for every
    /// pair of paths.
    pub fn rename(&self, _path: &str, _dest_path: &str) -> (r: Result<(), BridgeError>)
        ensures
            r == Err::<(), BridgeError>(BridgeError::Unsupported),
    {
        Err(BridgeError::Unsupported)
    }

    /// The namespace is fixed: creating a hard link is unsupported, for
    /// every pair of paths.
    pub fn hard_link(&self, _path: &str, _target_path: &str) -> (r: Result<(), BridgeError>)
        ensures
            r == Err::<(), BridgeError>(BridgeError::Unsupported),
    {
        Err(BridgeError::Unsupported)
    }

    /// The namespace has no timestamps to set, for any path.
    pub fn set_times(
        &self,
        _path: &str,
        _atim: Option<u64>,
        _mtim: Option<u64>,
    ) -> (r: Result<(), BridgeError>)
        ensures
            r == Err::<(), BridgeError>(BridgeError::Unsupported),
    {
        Err(BridgeError::Unsupported)
    }
}

} // verus!
