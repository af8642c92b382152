//! The provisioning server's answer to what its file service leaves over.
//!
//! A handset that is being provisioned fetches its configuration with `GET`
//! and uploads its logs with `PUT`. Serving a directory covers the first;
//! [`PutFallback`] decides what happens to everything else. The files are
//! touched by the caller: the fallback says which file to append to, and
//! which status to answer with.

use vstd::prelude::*;

verus! {

/// Takes the `PUT` requests of a handset and appends what they carry to
/// files under one directory.
#[derive(Debug, Clone)]
pub struct PutFallback {
    /// The directory that is served.
    pub root: String,
}

/// The method of a request, as far as the fallback tells methods apart.
#[derive(Clone, Copy, Debug, PartialEq, Eq, Structural)]
pub enum Method {
    Get,
    Head,
    Put,
    Other,
}

/// What is to be done about a request.
#[derive(Clone, Debug, PartialEq, Eq)]
pub enum FallbackStep {
    /// Answer with this status and an empty body.
    Respond(u16),
    /// Append the request's body to this file, creating it if need be,
    /// and answer with [`PutFallback::write_status`].
    Append { file: String },
}

pub const OK: u16 = 200;

pub const FORBIDDEN: u16 = 403;

pub const NOT_FOUND: u16 = 404;

pub const METHOD_NOT_ALLOWED: u16 = 405;

pub const INTERNAL_SERVER_ERROR: u16 = 500;

/// The file that a request path names: the path, put behind the root
/// with a slash between them. The two are joined as text, so a path
/// that starts with a slash still lands under the root.
pub open spec fn target_file(root: Seq<char>, path: Seq<char>) -> Seq<char> {
    root + seq!['/'] + path
}

/// Whether the path `path` starts with the path `base`: whether the
/// components of `base` are the first components of `path`, as
/// [`std::path::Path::starts_with`] compares them. Components are whole
/// names, read by the path rules of the platform that the crate is built
/// for; `..` is a component like any other and is not resolved.
pub uninterp spec fn lies_under(path: Seq<char>, base: Seq<char>) -> bool;

/// Calls [`std::path::Path::starts_with`]. Claimed of it: its answer is a
/// function of the two paths alone; nothing on disk is looked at.
#[verifier::external_body]
fn path_starts_with(path: &str, base: &str) -> (under: bool)
    ensures
        under == lies_under(path@, base@),
{
    std::path::Path::new(path).starts_with(base)
}

/// A `PUT` to `path` is allowed where its target lies under the root.
pub open spec fn put_allowed(root: Seq<char>, path: Seq<char>) -> bool {
    lies_under(target_file(root, path), root)
}

impl PutFallback {
    /// Creates a fallback for the directory at `path`.
    pub fn new(path: String) -> (fallback: PutFallback)
        ensures
            fallback.root == path,
    {
        PutFallback { root: path }
    }

    /// Decides on a `PUT` once it is known whether its target lies under
    /// the root.
    pub fn place_put(file: String, under_root: bool) -> (step: FallbackStep)
        ensures
            match step {
                FallbackStep::Append { file: chosen } => under_root && chosen == file,
                FallbackStep::Respond(status) => !under_root && status == FORBIDDEN,
            },
    {
        if under_root {
            FallbackStep::Append { file }
        } else {
            FallbackStep::Respond(FORBIDDEN)
        }
    }

    /// Decides on a `PUT` to `path`. The target is [`target_file`]. Where
    /// it lies under the root it is appended to; where it does not, the
    /// request is refused as forbidden and no file is touched.
    pub fn handle_put(&self, path: &str) -> (step: FallbackStep)
        ensures
            match step {
                FallbackStep::Append { file } => put_allowed(self.root@, path@) && file@
                    == target_file(self.root@, path@),
                FallbackStep::Respond(status) => !put_allowed(self.root@, path@) && status
                    == FORBIDDEN,
            },
    {
        let mut file = self.root.clone();
        file.append("/");
        file.append(path);
        proof {
            reveal_strlit("/");
            assert("/"@ =~= seq!['/']);
        }
        let under_root = path_starts_with(file.as_str(), self.root.as_str());
        PutFallback::place_put(file, under_root)
    }

    /// Decides on a request that the file service passed on. `GET` and
    /// `HEAD` arrive here because the file is not there; `PUT` is
    /// handled by [`PutFallback::handle_put`]; nothing else is allowed.
    pub fn call(&self, method: Method, path: &str) -> (step: FallbackStep)
        ensures
            method == Method::Get || method == Method::Head ==> step == FallbackStep::Respond(
                NOT_FOUND,
            ),
            method == Method::Other ==> step == FallbackStep::Respond(METHOD_NOT_ALLOWED),
            method == Method::Put ==> match step {
                FallbackStep::Append { file } => put_allowed(self.root@, path@) && file@
                    == target_file(self.root@, path@),
                FallbackStep::Respond(status) => !put_allowed(self.root@, path@) && status
                    == FORBIDDEN,
            },
    {
        match method {
            Method::Get | Method::Head => FallbackStep::Respond(NOT_FOUND),
            Method::Put => self.handle_put(path),
            Method::Other => FallbackStep::Respond(METHOD_NOT_ALLOWED),
        }
    }

    /// The status that answers a `PUT` after the attempt to append: 200
    /// where the file was opened and written, 500 where either failed.
    pub fn write_status(opened: bool, written: bool) -> (status: u16)
        ensures
            status == if opened && written {
                OK
            } else {
                INTERNAL_SERVER_ERROR
            },
    {
        if opened && written {
            OK
        } else {
            INTERNAL_SERVER_ERROR
        }
    }
}

} // verus!
