//! The git side of a sync, as data: where a repository is cloned, which
//! branch is created, and which refspec pushes it.
//!
//! The clone, checkout, commit and push themselves are filesystem and network
//! work performed by the surrounding binary; it receives already-resolved
//! credentials, never a callback that could block.

use vstd::prelude::*;

verus! {

/// A failed clone: the remote that was tried, and the underlying diagnostic.
#[derive(Debug, Clone, PartialEq, Eq)]
pub struct CloneError {
    pub source: String,
    pub remote_url: String,
}

impl CloneError {
    /// The diagnostic text of the error.
    pub fn message(&self) -> (r: String)
        ensures
            r@ == "Cannot clone repository with "@ + self.remote_url@ + " because of "@
                + self.source@,
    {
        let mut s = "Cannot clone repository with ".to_owned();
        s.append(self.remote_url.as_str());
        s.append(" because of ");
        s.append(self.source.as_str());
        s
    }
}

/// A username and password resolved before any git work starts.
#[derive(Debug, Clone, PartialEq, Eq)]
pub struct GitCredential {
    pub username: String,
    pub password: String,
}

impl GitCredential {
    /// Packs an already-resolved username and password.
    pub fn new(username: String, password: String) -> (r: GitCredential)
        ensures
            r.username@ == username@,
            r.password@ == password@,
    {
        GitCredential { username, password }
    }
}

/// A working directory for git operations, with the credential they use.
#[derive(Debug, Clone, PartialEq, Eq)]
pub struct Git {
    pub workdir: String,
    pub cred: GitCredential,
}

impl Git {
    /// A git workspace rooted at `workdir`.
    pub fn new(workdir: String, cred: GitCredential) -> (r: Git)
        ensures
            r.workdir@ == workdir@,
            r.cred == cred,
    {
        Git { workdir, cred }
    }

    /// The directory a repository named `name` is cloned into.
    pub fn clone_destination(&self, name: &str) -> (r: String)
        ensures
            r@ == self.workdir@ + "/"@ + name@,
    {
        let mut s = self.workdir.clone();
        s.append("/");
        s.append(name);
        s
    }
}

/// Refspec that pushes a local branch to the remote branch of the same name.
pub fn ref_by_branch(branch: &str) -> (r: String)
    ensures
        r@ == "refs/heads/"@ + branch@ + ":refs/heads/"@ + branch@,
{
    let mut s = String::new();
    s.append("refs/heads/");
    s.append(branch);
    s.append(":refs/heads/");
    s.append(branch);
    s
}

/// The full name of a branch's reference.
pub fn branch_ref(branch: &str) -> (r: String)
    ensures
        r@ == "refs/heads/"@ + branch@,
{
    crate::strutil::str_concat("refs/heads/", branch)
}

} // verus!
