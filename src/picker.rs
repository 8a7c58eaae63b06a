use vstd::prelude::*;
use crate::error::Error;
use crate::models::FileUri;
use crate::permission::{allows, effective_grant, is_private, with_session, Capabilities, Capability, GrantRecord, GrantSubject, PermissionRegistry};

verus! {

/// The system pickers. Only one of them can be on screen at a time.
#[derive(Debug, Clone, Copy, PartialEq, Eq, Structural)]
pub enum PickerKind {
    /// Pick existing files through the document picker.
    OpenFile,
    /// Pick content from any app that offers it.
    OpenContent,
    /// Pick images or videos through the media picker.
    OpenVisualMedia,
    /// Pick a directory to manage.
    ManageDir,
    /// Pick where to save a new file.
    SaveFile,
}

impl PickerKind {
    /// The picker only opens existing files.
    pub open spec fn is_open_style(self) -> bool {
        self is OpenFile || self is OpenContent || self is OpenVisualMedia
    }

    /// What each returned handle may be used for during this session: opened
    /// files may be read; a managed directory may be read, written and have
    /// entries removed; a saved file may be written and read back.
    pub open spec fn spec_capabilities(self) -> Capabilities {
        match self {
            PickerKind::ManageDir => Capabilities { read: true, write: true, remove: true },
            PickerKind::SaveFile => Capabilities { read: true, write: true, remove: false },
            _ => Capabilities { read: true, write: false, remove: false },
        }
    }

    pub open spec fn spec_subject(self) -> GrantSubject {
        match self {
            PickerKind::ManageDir => GrantSubject::Dir,
            _ => GrantSubject::File,
        }
    }

    /// What each returned handle may be used for during this session.
    pub fn capabilities(&self) -> (r: Capabilities)
        ensures
            r == self.spec_capabilities(),
    {
        match self {
            PickerKind::ManageDir => Capabilities { read: true, write: true, remove: true },
            PickerKind::SaveFile => Capabilities { read: true, write: true, remove: false },
            _ => Capabilities { read: true, write: false, remove: false },
        }
    }

    /// Whether returned handles are files or directories.
    pub fn subject(&self) -> (r: GrantSubject)
        ensures
            r == self.spec_subject(),
    {
        match self {
            PickerKind::ManageDir => GrantSubject::Dir,
            _ => GrantSubject::File,
        }
    }
}

/// The grants after each of `hs`, in turn, is given session capabilities
/// `caps`.
pub open spec fn with_sessions(
    m: Map<Seq<char>, GrantRecord>,
    hs: Seq<FileUri>,
    subject: GrantSubject,
    caps: Capabilities,
) -> Map<Seq<char>, GrantRecord>
    decreases hs.len(),
{
    if hs.len() == 0 {
        m
    } else {
        let prev = with_sessions(m, hs.drop_last(), subject, caps);
        prev.insert(hs.last()@.uri, with_session(prev, hs.last(), subject, caps))
    }
}

impl PermissionRegistry {
    /// Takes what a picker that may return several handles came back with.
    /// A cancelled picker yields no handle and no error; a failed one yields
    /// its error. Each returned handle gets the picker's session grant.
    pub fn accept_picked(&mut self, kind: PickerKind, outcome: Result<Vec<FileUri>, Error>) -> (r: Result<
        Vec<FileUri>,
        Error,
    >)
        requires
            old(self).wf(),
        ensures
            final(self).wf(),
            r == outcome,
            final(self).spec_ceiling() == old(self).spec_ceiling(),
            final(self).spec_roots() == old(self).spec_roots(),
            final(self).persisted_len() == old(self).persisted_len(),
            final(self)@ == match outcome {
                Ok(hs) => with_sessions(old(self)@, hs@, kind.spec_subject(), kind.spec_capabilities()),
                Err(_) => old(self)@,
            },
    {
        match outcome {
            Err(e) => Err(e),
            Ok(hs) => {
                let caps = kind.capabilities();
                let subject = kind.subject();
                let n = hs.len();
                let mut i: usize = 0;
                assert(hs@.subrange(0, 0) =~= Seq::<FileUri>::empty());
                while i < n
                    invariant
                        self.wf(),
                        n == hs@.len(),
                        i <= n,
                        self.spec_ceiling() == old(self).spec_ceiling(),
                        self.spec_roots() == old(self).spec_roots(),
                        self.persisted_len() == old(self).persisted_len(),
                        self@ == with_sessions(old(self)@, hs@.subrange(0, i as int), subject, caps),
                    decreases n - i,
                {
                    let ghost t = hs@.subrange(0, i + 1);
                    assert(t.drop_last() =~= hs@.subrange(0, i as int));
                    assert(t.last() == hs@[i as int]);
                    self.record_session(&hs[i], subject, caps);
                    i = i + 1;
                }
                assert(hs@.subrange(0, n as int) =~= hs@);
                Ok(hs)
            },
        }
    }

    /// Takes what a picker that returns at most one handle came back with.
    /// A cancelled picker yields `None` and no error; a failed one yields its
    /// error. A returned handle gets the picker's session grant.
    pub fn accept_picked_one(&mut self, kind: PickerKind, outcome: Result<Option<FileUri>, Error>) -> (r: Result<
        Option<FileUri>,
        Error,
    >)
        requires
            old(self).wf(),
        ensures
            final(self).wf(),
            r == outcome,
            final(self).spec_ceiling() == old(self).spec_ceiling(),
            final(self).spec_roots() == old(self).spec_roots(),
            final(self).persisted_len() == old(self).persisted_len(),
            final(self)@ == match outcome {
                Ok(Some(h)) => old(self)@.insert(h@.uri, with_session(old(self)@, h, kind.spec_subject(), kind.spec_capabilities())),
                _ => old(self)@,
            },
    {
        match outcome {
            Ok(Some(h)) => {
                let caps = kind.capabilities();
                let subject = kind.subject();
                self.record_session(&h, subject, caps);
                Ok(Some(h))
            },
            other => other,
        }
    }
}

proof fn lemma_sessions_cover(m: Map<Seq<char>, GrantRecord>, hs: Seq<FileUri>, subject: GrantSubject, caps: Capabilities, h: FileUri)
    requires
        hs.contains(h),
    ensures
        with_sessions(m, hs, subject, caps).contains_key(h@.uri),
        with_sessions(m, hs, subject, caps)[h@.uri].grant.effective().includes(caps),
    decreases hs.len(),
{
    let prev = with_sessions(m, hs.drop_last(), subject, caps);
    if hs.last() != h {
        let j = choose|j: int| 0 <= j < hs.len() && hs[j] == h;
        assert(hs.drop_last()[j] == h);
        lemma_sessions_cover(m, hs.drop_last(), subject, caps, h);
    }
}

proof fn lemma_sessions_bounded(m: Map<Seq<char>, GrantRecord>, hs: Seq<FileUri>, subject: GrantSubject, caps: Capabilities, k: Seq<char>)
    requires
        m.contains_key(k) ==> caps.includes(m[k].grant.effective()),
    ensures
        with_sessions(m, hs, subject, caps).contains_key(k) ==> caps.includes(with_sessions(m, hs, subject, caps)[k].grant.effective()),
    decreases hs.len(),
{
    if hs.len() > 0 {
        lemma_sessions_bounded(m, hs.drop_last(), subject, caps, k);
    }
}

proof fn lemma_sessions_keep_persisted(m: Map<Seq<char>, GrantRecord>, hs: Seq<FileUri>, subject: GrantSubject, caps: Capabilities, k: Seq<char>)
    requires
        m.contains_key(k) ==> m[k].grant.persisted.is_empty(),
    ensures
        with_sessions(m, hs, subject, caps).contains_key(k) ==> with_sessions(m, hs, subject, caps)[k].grant.persisted.is_empty(),
    decreases hs.len(),
{
    if hs.len() > 0 {
        lemma_sessions_keep_persisted(m, hs.drop_last(), subject, caps, k);
    }
}

/// A handle returned by a picker that opens existing files, and not known
/// before, may be read at once and may not be written; it holds no persisted
/// grant either, so none is reported for any access.
pub proof fn lemma_opened_handle_is_read_only(
    m: Map<Seq<char>, GrantRecord>,
    roots: Seq<Seq<char>>,
    kind: PickerKind,
    hs: Seq<FileUri>,
    h: FileUri,
)
    requires
        kind.is_open_style(),
        hs.contains(h),
        !m.contains_key(h@.uri),
        !is_private(roots, h@),
    ensures
        allows(with_sessions(m, hs, kind.spec_subject(), kind.spec_capabilities()), roots, h@, Capability::Read),
        !allows(with_sessions(m, hs, kind.spec_subject(), kind.spec_capabilities()), roots, h@, Capability::Write),
        effective_grant(with_sessions(m, hs, kind.spec_subject(), kind.spec_capabilities()), h@) matches Some(g)
            && g.persisted.is_empty(),
{
    lemma_sessions_keep_persisted(m, hs, kind.spec_subject(), kind.spec_capabilities(), h@.uri);
    lemma_sessions_cover(m, hs, kind.spec_subject(), kind.spec_capabilities(), h);
    lemma_sessions_bounded(m, hs, kind.spec_subject(), kind.spec_capabilities(), h@.uri);
}

} // verus!
