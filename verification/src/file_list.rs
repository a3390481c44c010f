//! A read-only, index-accessible view over a host-provided collection of
//! named-file handles, materialized once at construction.
//!
//! The snapshot owns its entries: once built, the view is immutable, and no
//! later mutation of the host collection can reach it.

use vstd::prelude::*;

use crate::blob::File;

verus! {

/// An ordered, fixed-length snapshot of named files.
#[derive(Debug)]
pub struct FileList {
    inner: Vec<File>,
}

impl View for FileList {
    type V = Seq<File>;

    closed spec fn view(&self) -> Seq<File> {
        self.inner@
    }
}

impl FileList {
    /// Snapshots the files read out of a host collection, in their original
    /// order: the view holds exactly the entries handed in, and aliases
    /// nothing, so later changes to the host collection leave it unchanged.
    pub fn from_raw(files: Vec<File>) -> (r: FileList)
        ensures
            r@ == files@,
    {
        FileList { inner: files }
    }

    /// The number of entries in the snapshot.
    pub fn len(&self) -> (n: usize)
        ensures
            n == self@.len(),
    {
        self.inner.len()
    }

    /// The entry at `index`, in the order the snapshot was built in.
    pub fn get(&self, index: usize) -> (f: &File)
        requires
            index < self@.len(),
        ensures
            *f == self@[index as int],
    {
        &self.inner[index]
    }

    /// The whole snapshot as a slice, in order.
    pub fn as_slice(&self) -> (s: &[File])
        ensures
            s@ == self@,
    {
        self.inner.as_slice()
    }
}

} // verus!
