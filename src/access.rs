use vstd::prelude::*;
use crate::error::Error;
use crate::models::{FileAccessMode, FileUri, FileUriView, PersistableAccessMode};
use crate::path::{check_relative_path, relative_path_error, trim_leading_separators};
use crate::text::skip_leading;
use crate::permission::{effective_grant, is_private, with_session, Capabilities, GrantRecord, GrantSubject, PermissionRegistry};

verus! {

impl FileAccessMode {
    /// What opening a file in this mode needs.
    pub open spec fn spec_required(self) -> Capabilities {
        match self {
            FileAccessMode::Read => Capabilities { read: true, write: false, remove: false },
            FileAccessMode::Write | FileAccessMode::WriteTruncate | FileAccessMode::WriteAppend => Capabilities {
                read: false,
                write: true,
                remove: false,
            },
            FileAccessMode::ReadWrite | FileAccessMode::ReadWriteTruncate => Capabilities {
                read: true,
                write: true,
                remove: false,
            },
        }
    }

    /// What opening a file in this mode needs.
    pub fn required_capabilities(&self) -> (r: Capabilities)
        ensures
            r == self.spec_required(),
    {
        match self {
            FileAccessMode::Read => Capabilities { read: true, write: false, remove: false },
            FileAccessMode::Write | FileAccessMode::WriteTruncate | FileAccessMode::WriteAppend => Capabilities {
                read: false,
                write: true,
                remove: false,
            },
            FileAccessMode::ReadWrite | FileAccessMode::ReadWriteTruncate => Capabilities {
                read: true,
                write: true,
                remove: false,
            },
        }
    }
}

/// Whether every capability of `caps` may be used on handle `u`.
pub open spec fn allows_all(m: Map<Seq<char>, GrantRecord>, roots: Seq<Seq<char>>, u: FileUriView, caps: Capabilities) -> bool {
    is_private(roots, u) || match effective_grant(m, u) {
        Some(g) => g.effective().includes(caps),
        None => false,
    }
}

/// Everything the creator of a file may do with it.
pub open spec fn creator_capabilities() -> Capabilities {
    Capabilities { read: true, write: true, remove: true }
}

impl PermissionRegistry {
    /// Succeeds when every capability of `caps` may be used on `uri`, and
    /// otherwise fails with a permission error.
    pub fn authorize_all(&self, uri: &FileUri, caps: &Capabilities) -> (r: Result<(), Error>)
        requires
            self.wf(),
        ensures
            r is Ok <==> allows_all(self@, self.spec_roots(), uri@, *caps),
            r matches Err(e) ==> e is PermissionDenied,
    {
        if self.is_private_handle(uri) {
            return Ok(());
        }
        match self.grant_for(uri) {
            Some(g) => if g.capabilities().covers(caps) {
                Ok(())
            } else {
                Err(Error::PermissionDenied)
            },
            None => Err(Error::PermissionDenied),
        }
    }

    /// Succeeds when `uri` may be opened in `mode`.
    pub fn authorize_open(&self, uri: &FileUri, mode: FileAccessMode) -> (r: Result<(), Error>)
        requires
            self.wf(),
        ensures
            r is Ok <==> allows_all(self@, self.spec_roots(), uri@, mode.spec_required()),
            r matches Err(e) ==> e is PermissionDenied,
    {
        let caps = mode.required_capabilities();
        self.authorize_all(uri, &caps)
    }

    /// Succeeds when the provider may copy `src` onto `dest`: the source must
    /// be readable and the destination writable.
    pub fn authorize_copy(&self, src: &FileUri, dest: &FileUri) -> (r: Result<(), Error>)
        requires
            self.wf(),
        ensures
            r is Ok <==> allows_all(self@, self.spec_roots(), src@, Capabilities { read: true, write: false, remove: false })
                && allows_all(self@, self.spec_roots(), dest@, Capabilities { read: false, write: true, remove: false }),
            r matches Err(e) ==> e is PermissionDenied,
    {
        let read = Capabilities { read: true, write: false, remove: false };
        let write = Capabilities { read: false, write: true, remove: false };
        match self.authorize_all(src, &read) {
            Err(e) => Err(e),
            Ok(()) => self.authorize_all(dest, &write),
        }
    }

    /// Checks a request to create a file at `relative_path` below `dir`,
    /// before anything is sent: the path, as given, must be well formed, and
    /// `dir` must be writable.
    pub fn plan_create_file(&self, dir: &FileUri, relative_path: &str) -> (r: Result<(), Error>)
        requires
            self.wf(),
        ensures
            match relative_path_error(relative_path@, false) {
                Some(e) => r == Err::<(), Error>(Error::InvalidPath(e)),
                None => if allows_all(self@, self.spec_roots(), dir@, Capabilities { read: false, write: true, remove: false }) {
                    r is Ok
                } else {
                    r matches Err(e) && e is PermissionDenied
                },
            },
    {
        match check_relative_path(relative_path, false) {
            Err(e) => Err(Error::InvalidPath(e)),
            Ok(()) => {
                let write = Capabilities { read: false, write: true, remove: false };
                self.authorize_all(dir, &write)
            },
        }
    }

    /// Whether a persisted grant covering access `mode` is known for `uri`,
    /// its own or that of the directory grant it descends from.
    pub fn check_persisted(&self, uri: &FileUri, mode: PersistableAccessMode) -> (r: bool)
        requires
            self.wf(),
        ensures
            r == (effective_grant(self@, uri@) matches Some(g) && g.persisted.includes(
                Capabilities::spec_of_mode(mode),
            )),
    {
        let caps = Capabilities::of_mode(mode);
        match self.grant_for(uri) {
            Some(g) => g.persisted.covers(&caps),
            None => false,
        }
    }

    /// The access a persisted grant of `uri` would carry: what its own grant
    /// allows of reading and writing, or `None` if it allows neither.
    pub fn persistable_mode(&self, uri: &FileUri) -> (r: Option<PersistableAccessMode>)
        requires
            self.wf(),
        ensures
            match r {
                None => !self@.contains_key(uri@.uri) || (!self@[uri@.uri].grant.effective().read
                    && !self@[uri@.uri].grant.effective().write),
                Some(mode) => self@.contains_key(uri@.uri) && Capabilities::spec_of_mode(mode) == (Capabilities {
                    read: self@[uri@.uri].grant.effective().read,
                    write: self@[uri@.uri].grant.effective().write,
                    remove: false,
                }),
            },
    {
        match self.own_grant(uri) {
            None => None,
            Some(g) => {
                let caps = g.capabilities();
                if caps.read && caps.write {
                    Some(PersistableAccessMode::ReadAndWrite)
                } else if caps.read {
                    Some(PersistableAccessMode::Read)
                } else if caps.write {
                    Some(PersistableAccessMode::Write)
                } else {
                    None
                }
            },
        }
    }

    /// Gives a file the app just created every capability over it.
    pub fn record_created(&mut self, uri: &FileUri)
        requires
            old(self).wf(),
        ensures
            final(self).wf(),
            final(self)@ == old(self)@.insert(uri@.uri, with_session(old(self)@, *uri, GrantSubject::File, creator_capabilities())),
            final(self).spec_ceiling() == old(self).spec_ceiling(),
            final(self).spec_roots() == old(self).spec_roots(),
            final(self).persisted_len() == old(self).persisted_len(),
    {
        self.record_session(uri, GrantSubject::File, Capabilities { read: true, write: true, remove: true });
    }
}

/// Checks the path of a file to create in a shared directory, which must
/// name a subdirectory of it, and gives the path without leading separators.
pub fn plan_create_in_public_dir(relative_path_with_subdir: &str) -> (r: Result<&str, Error>)
    ensures
        match relative_path_error(relative_path_with_subdir@, true) {
            Some(e) => r == Err::<&str, Error>(Error::InvalidPath(e)),
            None => r matches Ok(p) && p@ == skip_leading(relative_path_with_subdir@, '/'),
        },
{
    match check_relative_path(relative_path_with_subdir, true) {
        Err(e) => Err(Error::InvalidPath(e)),
        Ok(()) => Ok(trim_leading_separators(relative_path_with_subdir)),
    }
}

} // verus!
