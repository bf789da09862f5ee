//! Model of the watched file and the corrective overwrite applied to it.

use vstd::prelude::*;

verus! {

/// What a metadata query reports about the watched path at validation time.
#[derive(Clone, Copy, PartialEq, Eq, Structural, Debug)]
pub enum FileStatus {
    /// The path does not exist (or metadata could not be read).
    Missing,
    /// The path exists but is not a regular file.
    NotRegular,
    /// The path is an existing regular file.
    Regular,
}

/// Mathematical view of the watched file: absent, present but not a regular
/// file, or a regular file with some byte content.
pub enum FileView {
    Absent,
    NonRegular,
    Regular { content: Seq<u8> },
}

/// Executable model of the watched file, as the change handler sees it.
pub enum WatchedFile {
    Absent,
    NonRegular,
    Regular { content: Vec<u8> },
}

impl View for WatchedFile {
    type V = FileView;

    open spec fn view(&self) -> FileView {
        match self {
            WatchedFile::Absent => FileView::Absent,
            WatchedFile::NonRegular => FileView::NonRegular,
            WatchedFile::Regular { content } => FileView::Regular { content: content@ },
        }
    }
}

/// The content-pinning rule: a regular file is rewritten to exactly the
/// payload, discarding all previous content; anything else is left untouched.
pub open spec fn corrected(v: FileView, payload: Seq<u8>) -> FileView {
    match v {
        FileView::Regular { content: _ } => FileView::Regular { content: payload },
        _ => v,
    }
}

impl WatchedFile {
    /// The status a metadata query would report for this file.
    pub fn status(&self) -> (s: FileStatus)
        ensures
            (s == FileStatus::Missing) <==> self@ is Absent,
            (s == FileStatus::NotRegular) <==> self@ is NonRegular,
            (s == FileStatus::Regular) <==> self@ is Regular,
    {
        match self {
            WatchedFile::Absent => FileStatus::Missing,
            WatchedFile::NonRegular => FileStatus::NotRegular,
            WatchedFile::Regular { content: _ } => FileStatus::Regular,
        }
    }

    /// The file's content, when it is a regular file.
    pub fn content(&self) -> (c: Option<&Vec<u8>>)
        ensures
            match c {
                Some(bytes) => self@ is Regular && bytes@ == self@->content,
                None => !(self@ is Regular),
            },
    {
        match self {
            WatchedFile::Regular { content } => Some(content),
            _ => None,
        }
    }
}

/// A fresh copy of the payload bytes, built from the payload alone: the
/// replacement content owes nothing to whatever the file held before.
fn copy_payload(payload: &Vec<u8>) -> (r: Vec<u8>)
    ensures
        r@ == payload@,
{
    let mut out: Vec<u8> = Vec::new();
    let mut i: usize = 0;
    while i < payload.len()
        invariant
            i <= payload.len(),
            out@ == payload@.subrange(0, i as int),
        decreases payload.len() - i,
    {
        out.push(payload[i]);
        i = i + 1;
    }
    assert(out@ =~= payload@);
    out
}

/// The change handler's corrective action: if the file is still an existing
/// regular file, replace its entire content with the payload; otherwise leave
/// it untouched. Returns whether a write took place.
pub fn handle_change(file: &mut WatchedFile, payload: &Vec<u8>) -> (wrote: bool)
    ensures
        final(file)@ == corrected(old(file)@, payload@),
        wrote <==> old(file)@ is Regular,
{
    match file {
        WatchedFile::Regular { content } => {
            *content = copy_payload(payload);
            true
        }
        _ => false,
    }
}

/// Once the corrective overwrite completes on a regular file, the content is
/// exactly the payload, whatever external modifications had written before.
pub proof fn lemma_correction_pins_content(content: Seq<u8>, payload: Seq<u8>)
    ensures
        corrected(FileView::Regular { content }, payload) == (FileView::Regular {
            content: payload,
        }),
{
}

/// Correcting an already-corrected file changes nothing: the overwrite is
/// idempotent.
pub proof fn lemma_correction_idempotent(v: FileView, payload: Seq<u8>)
    ensures
        corrected(corrected(v, payload), payload) == corrected(v, payload),
{
}

/// An absent file is never written: the correction leaves it absent.
pub proof fn lemma_no_write_when_absent(payload: Seq<u8>)
    ensures
        corrected(FileView::Absent, payload) == FileView::Absent,
{
}

/// A path that is not a regular file is never written: the correction leaves
/// it as it is.
pub proof fn lemma_no_write_on_type_mismatch(payload: Seq<u8>)
    ensures
        corrected(FileView::NonRegular, payload) == FileView::NonRegular,
{
}

/// Truncate semantics: however much larger the pre-existing content was, the
/// corrected file's size is exactly the payload's length.
pub proof fn lemma_truncates_oversized_content(content: Seq<u8>, payload: Seq<u8>)
    requires
        content.len() > payload.len(),
    ensures
        corrected(FileView::Regular { content }, payload)->content.len() == payload.len(),
{
}

} // verus!
