//! The interest record registered for the watched directory: which kinds of
//! change the agent asks the kernel to report.

use vstd::prelude::*;

verus! {

/// The kinds of filesystem change the watch can report for the directory.
#[derive(Clone, Copy, PartialEq, Eq, Structural, Debug)]
pub enum ChangeKind {
    /// Data was written to an entry.
    Write,
    /// An entry's size was extended.
    Extend,
    /// An entry's attributes changed.
    Attrib,
    /// An entry was renamed.
    Rename,
    /// An entry was unlinked.
    Delete,
}

/// The set of change kinds a directory watch reports.
#[derive(Clone, Copy, PartialEq, Eq, Structural, Debug)]
pub struct EventMask {
    pub write: bool,
    pub extend: bool,
    pub attrib: bool,
    pub rename: bool,
    pub delete: bool,
}

impl EventMask {
    /// Whether events of the given kind qualify under this mask.
    pub open spec fn spec_covers(self, kind: ChangeKind) -> bool {
        match kind {
            ChangeKind::Write => self.write,
            ChangeKind::Extend => self.extend,
            ChangeKind::Attrib => self.attrib,
            ChangeKind::Rename => self.rename,
            ChangeKind::Delete => self.delete,
        }
    }

    /// Whether events of the given kind qualify under this mask.
    pub fn covers(&self, kind: ChangeKind) -> (b: bool)
        ensures
            b == self.spec_covers(kind),
    {
        match kind {
            ChangeKind::Write => self.write,
            ChangeKind::Extend => self.extend,
            ChangeKind::Attrib => self.attrib,
            ChangeKind::Rename => self.rename,
            ChangeKind::Delete => self.delete,
        }
    }
}

/// The interest the agent registers: the union of every change kind, so that
/// any touch of the watched directory's entries wakes the wait loop.
pub fn full_interest() -> (m: EventMask)
    ensures
        forall|k: ChangeKind| #[trigger] m.spec_covers(k),
{
    EventMask { write: true, extend: true, attrib: true, rename: true, delete: true }
}

} // verus!
