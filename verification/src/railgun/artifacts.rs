//! The artifact store under `<workdir>/artifacts/`, used by the Railgun SDK for
//! proving artifacts and by the tool for the wallet manifest.
use vstd::prelude::*;

use crate::text::{join_path, joined_path, owned};

verus! {

/// The artifact store of a work directory.
#[derive(Debug)]
pub struct Artifact {
    workdir: String,
    root: String,
}

impl Artifact {
    /// The work directory.
    pub closed spec fn workdir_view(&self) -> Seq<char> {
        self.workdir@
    }

    /// The artifact root: `artifacts` under the work directory.
    pub closed spec fn root_view(&self) -> Seq<char> {
        self.root@
    }

    /// The store of a work directory.
    pub fn new(workdir: &str) -> (a: Artifact)
        ensures
            a.workdir_view() == workdir@,
            a.root_view() == joined_path(workdir@, "artifacts"@),
    {
        Artifact { workdir: owned(workdir), root: join_path(workdir, "artifacts") }
    }

    /// The work directory.
    pub fn workdir(&self) -> (r: &str)
        ensures
            r@ == self.workdir_view(),
    {
        self.workdir.as_str()
    }

    /// The artifact root.
    pub fn root(&self) -> (r: &str)
        ensures
            r@ == self.root_view(),
    {
        self.root.as_str()
    }

    /// Where an artifact lives: its relative path joined onto the root.
    pub fn path(&self, relative_path: &str) -> (r: String)
        ensures
            r@ == joined_path(self.root_view(), relative_path@),
    {
        join_path(self.root.as_str(), relative_path)
    }
}

} // verus!
