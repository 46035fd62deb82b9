//! A path bound to a scope: when the scope ends, the entry at the path is
//! removed, once.
use vstd::prelude::*;

use crate::naming::{create_temp_path_at_directory, temp_path_name};

verus! {

/// How the entry at a scoped path is removed.
#[derive(Clone, Copy, Debug, PartialEq, Eq, Structural)]
pub enum Removal {
    /// The entry is a directory: remove it with everything below it.
    Directory,
    /// Anything else: remove it as a single file.
    File,
}

/// The removal that fits an entry, given whether it is a directory.
pub open spec fn removal_for(is_dir: bool) -> Removal {
    if is_dir {
        Removal::Directory
    } else {
        Removal::File
    }
}

/// A path whose entry is to be deleted when its owner's scope ends.
///
/// The path never changes once made. The value is not `Clone`: it has one
/// owner at a time, and the removal is handed out once, to whoever ends the
/// scope.
pub struct AutoDeletePath {
    path: String,
    pending: bool,
}

impl View for AutoDeletePath {
    type V = Seq<char>;

    /// The wrapped path.
    closed spec fn view(&self) -> Seq<char> {
        self.path@
    }
}

impl AutoDeletePath {
    /// Whether the removal has not been handed out yet.
    pub closed spec fn is_pending(&self) -> bool {
        self.pending
    }

    /// A scoped path under `directory` for the counter value `count`; the
    /// removal is still to come. Nothing on disk is read or written.
    pub fn temp(directory: &str, count: u16) -> (r: Self)
        ensures
            r@ == temp_path_name(directory@, count as nat),
            r.is_pending(),
    {
        AutoDeletePath { path: create_temp_path_at_directory(directory, count), pending: true }
    }

    /// The wrapped path, to read.
    pub fn path(&self) -> (r: &str)
        ensures
            r@ == self@,
    {
        self.path.as_str()
    }

    /// Whether the removal has not been handed out yet.
    pub fn pending(&self) -> (r: bool)
        ensures
            r == self.is_pending(),
    {
        self.pending
    }

    /// Ends the scope: hands out the removal that fits the entry at the path,
    /// given whether it is a directory, the first time, and nothing after.
    /// The path stays as it was.
    pub fn take_removal(&mut self, is_dir: bool) -> (r: Option<Removal>)
        ensures
            final(self)@ == old(self)@,
            !final(self).is_pending(),
            r == (if old(self).is_pending() {
                Some(removal_for(is_dir))
            } else {
                None
            }),
    {
        if !self.pending {
            return None;
        }
        self.pending = false;
        if is_dir {
            Some(Removal::Directory)
        } else {
            Some(Removal::File)
        }
    }
}

/// The standard library's borrowed path; opaque here.
#[verifier::external_type_specification]
#[verifier::external_body]
pub struct ExPath(std::path::Path);

impl std::convert::AsRef<std::path::Path> for AutoDeletePath {
    /// Relies on std::path::Path::new: it views the string as a path, without
    /// copying or changing it.
    #[verifier::external_body]
    fn as_ref(&self) -> &std::path::Path {
        std::path::Path::new(&self.path)
    }
}

} // verus!
