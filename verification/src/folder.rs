//! The owning handle bound to one created directory.
//!
//! A handle is made only by the acquisition protocol, once the filesystem
//! has confirmed the directory exists. It owns the path until ownership is
//! released: the cleanup routine hands the path back exactly once, and the
//! surrounding program removes the tree rooted there. Releasing first — by
//! [`Folder::into_path`] — suppresses that removal for good.

use vstd::prelude::*;

verus! {

/// The abstract state of a handle: the path it owns, and whether removal
/// responsibility has been released.
pub ghost struct FolderModel {
    pub path: Seq<char>,
    pub released: bool,
}

/// A handle bound to one created directory.
pub struct Folder {
    path: String,
    released: bool,
}

impl View for Folder {
    type V = FolderModel;

    closed spec fn view(&self) -> FolderModel {
        FolderModel { path: self.path@, released: self.released }
    }
}

/// What one cleanup call does to a handle: on a live handle it releases the
/// handle and asks for the tree at its path to be removed; on a released
/// handle it changes nothing and asks for nothing.
pub open spec fn spec_cleanup(m: FolderModel) -> (FolderModel, Option<Seq<char>>) {
    if m.released {
        (m, None)
    } else {
        (FolderModel { path: m.path, released: true }, Some(m.path))
    }
}

impl Folder {
    /// Bind a handle to a directory the filesystem has just confirmed
    /// created; the handle starts owning it.
    pub(crate) fn from_created(path: String) -> (f: Folder)
        ensures
            f@ == (FolderModel { path: path@, released: false }),
    {
        Folder { path, released: false }
    }

    /// The path of the directory the handle is bound to.
    pub fn path(&self) -> (r: &str)
        ensures
            r@ == self@.path,
    {
        self.path.as_str()
    }

    /// Release ownership: hand the path to the caller and suppress cleanup.
    /// The handle is consumed, so no removal can be asked for afterwards.
    pub fn into_path(self) -> (r: String)
        ensures
            r@ == self@.path,
    {
        self.path
    }

    /// Decide what cleanup must do now. The released flag is raised before
    /// the path is handed out, so at most one call over a handle's lifetime
    /// asks for a removal, whatever the removal itself then does.
    pub fn cleanup(&mut self) -> (r: Option<String>)
        ensures
            final(self)@ == spec_cleanup(old(self)@).0,
            r is Some <==> spec_cleanup(old(self)@).1 is Some,
            r matches Some(p) ==> spec_cleanup(old(self)@).1 == Some(p@),
    {
        if self.released {
            None
        } else {
            self.released = true;
            Some(self.path.clone())
        }
    }

    /// Consume the handle and hand back the path whose tree must now be
    /// removed; `None` when ownership was already released.
    pub fn remove(self) -> (r: Option<String>)
        ensures
            !self@.released ==> (r matches Some(p) && p@ == self@.path),
            self@.released ==> r is None,
    {
        let mut f = self;
        f.cleanup()
    }
}

/// Law: cleanup is idempotent. After one cleanup call, a second one leaves
/// the handle as it is and asks for no further removal.
pub proof fn lemma_cleanup_idempotent(m: FolderModel)
    ensures
        spec_cleanup(spec_cleanup(m).0).0 == spec_cleanup(m).0,
        spec_cleanup(spec_cleanup(m).0).1 is None,
{
}

/// Law: a live handle's cleanup asks for the removal of exactly the path the
/// handle owns, and releases the handle.
pub proof fn lemma_cleanup_removes(m: FolderModel)
    requires
        !m.released,
    ensures
        spec_cleanup(m).1 == Some(m.path),
        spec_cleanup(m).0.released,
        spec_cleanup(m).0.path == m.path,
{
}

} // verus!
