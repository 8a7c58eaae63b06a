use vstd::prelude::*;
use crate::error::Error;
use vstd::string::*;
use crate::models::{local_uri, FileUri, FileUriView, PersistableAccessMode, PersistedUriPermission};
use crate::text::{is_prefix, skip_trailing, starts_with, trim_end_char};

verus! {

/// One capability a grant may carry.
#[derive(Debug, Clone, Copy, PartialEq, Eq, Structural)]
pub enum Capability {
    Read,
    Write,
    Remove,
}

/// A set of capabilities.
#[derive(Debug, Clone, Copy, PartialEq, Eq, Structural)]
pub struct Capabilities {
    pub read: bool,
    pub write: bool,
    pub remove: bool,
}

impl Capabilities {
    pub open spec fn has(self, c: Capability) -> bool {
        match c {
            Capability::Read => self.read,
            Capability::Write => self.write,
            Capability::Remove => self.remove,
        }
    }

    pub open spec fn is_empty(self) -> bool {
        !self.read && !self.write && !self.remove
    }

    /// Every capability of `o` is in `self`.
    pub open spec fn includes(self, o: Capabilities) -> bool {
        (o.read ==> self.read) && (o.write ==> self.write) && (o.remove ==> self.remove)
    }

    pub open spec fn union(self, o: Capabilities) -> Capabilities {
        Capabilities { read: self.read || o.read, write: self.write || o.write, remove: self.remove || o.remove }
    }

    /// The capabilities that a persisted grant of access `mode` carries.
    pub open spec fn spec_of_mode(mode: PersistableAccessMode) -> Capabilities {
        match mode {
            PersistableAccessMode::Read => Capabilities { read: true, write: false, remove: false },
            PersistableAccessMode::Write => Capabilities { read: false, write: true, remove: false },
            PersistableAccessMode::ReadAndWrite => Capabilities { read: true, write: true, remove: false },
        }
    }

    /// No capability at all.
    pub fn none() -> (r: Capabilities)
        ensures
            r.is_empty(),
    {
        Capabilities { read: false, write: false, remove: false }
    }

    /// The capabilities that a persisted grant of access `mode` carries.
    pub fn of_mode(mode: PersistableAccessMode) -> (r: Capabilities)
        ensures
            r == Self::spec_of_mode(mode),
    {
        match mode {
            PersistableAccessMode::Read => Capabilities { read: true, write: false, remove: false },
            PersistableAccessMode::Write => Capabilities { read: false, write: true, remove: false },
            PersistableAccessMode::ReadAndWrite => Capabilities { read: true, write: true, remove: false },
        }
    }

    /// Whether `c` is in the set.
    pub fn contains(&self, c: Capability) -> (r: bool)
        ensures
            r == self.has(c),
    {
        match c {
            Capability::Read => self.read,
            Capability::Write => self.write,
            Capability::Remove => self.remove,
        }
    }

    /// Whether the set is empty.
    pub fn empty(&self) -> (r: bool)
        ensures
            r == self.is_empty(),
    {
        !self.read && !self.write && !self.remove
    }

    /// Whether every capability of `o` is in the set.
    pub fn covers(&self, o: &Capabilities) -> (r: bool)
        ensures
            r == self.includes(*o),
    {
        (!o.read || self.read) && (!o.write || self.write) && (!o.remove || self.remove)
    }

    /// The capabilities of either set.
    pub fn merged(&self, o: &Capabilities) -> (r: Capabilities)
        ensures
            r == self.union(*o),
    {
        Capabilities { read: self.read || o.read, write: self.write || o.write, remove: self.remove || o.remove }
    }
}

/// What a grant is for.
#[derive(Debug, Clone, Copy, PartialEq, Eq, Structural)]
pub enum GrantSubject {
    /// A single file.
    File,
    /// A directory and everything below it.
    Dir,
}

/// The capabilities recorded for one handle.
#[derive(Debug, Clone, Copy, PartialEq, Eq, Structural)]
pub struct Grant {
    pub subject: GrantSubject,
    /// Held for this process only.
    pub session: Capabilities,
    /// Kept by the platform across restarts.
    pub persisted: Capabilities,
}

impl Grant {
    /// Everything the grant allows now.
    pub open spec fn effective(self) -> Capabilities {
        self.session.union(self.persisted)
    }

    /// Everything the grant allows now.
    pub fn capabilities(&self) -> (r: Capabilities)
        ensures
            r == self.effective(),
    {
        self.session.merged(&self.persisted)
    }
}

/// A handle together with its grant.
#[derive(Debug)]
pub struct GrantRecord {
    pub handle: FileUri,
    pub grant: Grant,
}

impl GrantRecord {
    /// The identifier the record is kept under.
    pub open spec fn key(self) -> Seq<char> {
        self.handle@.uri
    }

    /// How the record's persisted part is reported.
    pub open spec fn spec_permission(self) -> PersistedUriPermission {
        match self.grant.subject {
            GrantSubject::File => PersistedUriPermission::File {
                uri: self.handle,
                can_read: self.grant.persisted.read,
                can_write: self.grant.persisted.write,
            },
            GrantSubject::Dir => PersistedUriPermission::Dir {
                uri: self.handle,
                can_read: self.grant.persisted.read,
                can_write: self.grant.persisted.write,
            },
        }
    }
}

impl GrantRecord {
    /// How the record's persisted part is reported.
    pub fn to_permission(&self) -> (r: PersistedUriPermission)
        ensures
            r == self.spec_permission(),
    {
        let uri = self.handle.clone();
        match self.grant.subject {
            GrantSubject::File => PersistedUriPermission::File {
                uri,
                can_read: self.grant.persisted.read,
                can_write: self.grant.persisted.write,
            },
            GrantSubject::Dir => PersistedUriPermission::Dir {
                uri,
                can_read: self.grant.persisted.read,
                can_write: self.grant.persisted.write,
            },
        }
    }
}

/// No two records are for the same identifier.
pub open spec fn distinct_keys(s: Seq<GrantRecord>) -> bool {
    forall|i: int, j: int|
        0 <= i < s.len() && 0 <= j < s.len() && i != j ==> #[trigger] s[i].key() != #[trigger] s[j].key()
}

/// The record for identifier `k`.
pub open spec fn record_of(s: Seq<GrantRecord>, k: Seq<char>) -> Option<GrantRecord>
    decreases s.len(),
{
    if s.len() == 0 {
        None
    } else if s.last().key() == k {
        Some(s.last())
    } else {
        record_of(s.drop_last(), k)
    }
}

/// The persisted grants of `s`, in order.
pub open spec fn persisted_list(s: Seq<GrantRecord>) -> Seq<PersistedUriPermission>
    decreases s.len(),
{
    if s.len() == 0 {
        Seq::empty()
    } else if s.last().grant.persisted.is_empty() {
        persisted_list(s.drop_last())
    } else {
        persisted_list(s.drop_last()).push(s.last().spec_permission())
    }
}

proof fn lemma_record_of_absent(s: Seq<GrantRecord>, k: Seq<char>)
    requires
        forall|i: int| 0 <= i < s.len() ==> #[trigger] s[i].key() != k,
    ensures
        record_of(s, k) is None,
    decreases s.len(),
{
    if s.len() > 0 {
        let t = s.drop_last();
        assert forall|i: int| 0 <= i < t.len() implies #[trigger] t[i].key() != k by {
            assert(t[i] == s[i]);
        }
        lemma_record_of_absent(t, k);
    }
}

proof fn lemma_record_of_at(s: Seq<GrantRecord>, i: int)
    requires
        distinct_keys(s),
        0 <= i < s.len(),
    ensures
        record_of(s, s[i].key()) == Some(s[i]),
    decreases s.len(),
{
    if i != s.len() - 1 {
        let t = s.drop_last();
        assert(s.last() == s[s.len() - 1]);
        assert(t[i] == s[i]);
        assert forall|a: int, b: int| 0 <= a < t.len() && 0 <= b < t.len() && a != b implies #[trigger] t[a].key()
            != #[trigger] t[b].key() by {
            assert(t[a] == s[a] && t[b] == s[b]);
        }
        lemma_record_of_at(t, i);
    }
}

proof fn lemma_record_of_some(s: Seq<GrantRecord>, k: Seq<char>)
    requires
        record_of(s, k) is Some,
    ensures
        exists|i: int| 0 <= i < s.len() && s[i] == record_of(s, k)->0 && #[trigger] s[i].key() == k,
    decreases s.len(),
{
    if s.last().key() == k {
        assert(s[s.len() - 1].key() == k);
    } else {
        let t = s.drop_last();
        lemma_record_of_some(t, k);
        let i = choose|i: int| 0 <= i < t.len() && t[i] == record_of(t, k)->0 && #[trigger] t[i].key() == k;
        assert(s[i] == t[i]);
    }
}

proof fn lemma_record_of_update(s: Seq<GrantRecord>, i: int, r: GrantRecord, k: Seq<char>)
    requires
        distinct_keys(s),
        0 <= i < s.len(),
        r.key() == s[i].key(),
    ensures
        record_of(s.update(i, r), k) == if k == r.key() {
            Some(r)
        } else {
            record_of(s, k)
        },
    decreases s.len(),
{
    let u = s.update(i, r);
    if i == s.len() - 1 {
        assert(u.drop_last() =~= s.drop_last());
        if k != r.key() {
            assert(s.last() == s[i]);
        }
    } else {
        let t = s.drop_last();
        assert(u.drop_last() =~= t.update(i, r));
        assert(u.last() == s.last());
        assert(s.last() == s[s.len() - 1]);
        assert forall|a: int, b: int| 0 <= a < t.len() && 0 <= b < t.len() && a != b implies #[trigger] t[a].key()
            != #[trigger] t[b].key() by {
            assert(t[a] == s[a] && t[b] == s[b]);
        }
        assert(t[i] == s[i]);
        lemma_record_of_update(t, i, r, k);
        if k == r.key() {
            assert(s.last().key() != s[i].key());
        }
    }
}

proof fn lemma_persisted_list_update(s: Seq<GrantRecord>, i: int, r: GrantRecord)
    requires
        0 <= i < s.len(),
    ensures
        persisted_list(s.update(i, r)).len() == persisted_list(s).len() - (if s[i].grant.persisted.is_empty() {
            0int
        } else {
            1int
        }) + (if r.grant.persisted.is_empty() {
            0int
        } else {
            1int
        }),
    decreases s.len(),
{
    let u = s.update(i, r);
    if i == s.len() - 1 {
        assert(u.drop_last() =~= s.drop_last());
    } else {
        let t = s.drop_last();
        assert(u.drop_last() =~= t.update(i, r));
        assert(t[i] == s[i]);
        lemma_persisted_list_update(t, i, r);
    }
}


proof fn lemma_persisted_list_len(s: Seq<GrantRecord>)
    ensures
        persisted_list(s).len() <= s.len(),
    decreases s.len(),
{
    if s.len() > 0 {
        lemma_persisted_list_len(s.drop_last());
    }
}

proof fn lemma_persisted_list_none(s: Seq<GrantRecord>)
    requires
        forall|i: int| 0 <= i < s.len() ==> (#[trigger] s[i]).grant.persisted.is_empty(),
    ensures
        persisted_list(s).len() == 0,
    decreases s.len(),
{
    if s.len() > 0 {
        let t = s.drop_last();
        assert forall|i: int| 0 <= i < t.len() implies (#[trigger] t[i]).grant.persisted.is_empty() by {
            assert(t[i] == s[i]);
        }
        assert(s.last() == s[s.len() - 1]);
        lemma_persisted_list_none(t);
    }
}

proof fn lemma_persisted_list_contains(s: Seq<GrantRecord>, p: PersistedUriPermission)
    ensures
        persisted_list(s).contains(p) <==> exists|i: int|
            0 <= i < s.len() && !s[i].grant.persisted.is_empty() && p == (#[trigger] s[i]).spec_permission(),
    decreases s.len(),
{
    if s.len() > 0 {
        let t = s.drop_last();
        lemma_persisted_list_contains(t, p);
        let l = persisted_list(t);
        if persisted_list(s).contains(p) {
            if !s.last().grant.persisted.is_empty() && p == s.last().spec_permission() {
                assert(s[s.len() - 1] == s.last());
            } else {
                if s.last().grant.persisted.is_empty() {
                    assert(l.contains(p));
                } else {
                    let j = choose|j: int| 0 <= j < l.push(s.last().spec_permission()).len() && l.push(s.last().spec_permission())[j] == p;
                    assert(j < l.len());
                    assert(l[j] == p);
                    assert(l.contains(p));
                }
                let i = choose|i: int| 0 <= i < t.len() && !t[i].grant.persisted.is_empty() && p == (#[trigger] t[i]).spec_permission();
                assert(s[i] == t[i]);
            }
        }
        if exists|i: int| 0 <= i < s.len() && !s[i].grant.persisted.is_empty() && p == (#[trigger] s[i]).spec_permission() {
            let i = choose|i: int| 0 <= i < s.len() && !s[i].grant.persisted.is_empty() && p == (#[trigger] s[i]).spec_permission();
            if i == s.len() - 1 {
                assert(persisted_list(s) == l.push(s.last().spec_permission()));
                assert(persisted_list(s)[l.len() as int] == p);
            } else {
                assert(t[i] == s[i]);
                assert(l.contains(p));
                let j = choose|j: int| 0 <= j < l.len() && l[j] == p;
                if !s.last().grant.persisted.is_empty() {
                    assert(persisted_list(s)[j] == p);
                }
            }
        }
    }
}

proof fn lemma_persisted_list_distinct(s: Seq<GrantRecord>)
    requires
        distinct_keys(s),
    ensures
        persisted_list(s).no_duplicates(),
    decreases s.len(),
{
    if s.len() > 0 {
        let t = s.drop_last();
        assert forall|a: int, b: int| 0 <= a < t.len() && 0 <= b < t.len() && a != b implies #[trigger] t[a].key()
            != #[trigger] t[b].key() by {
            assert(t[a] == s[a] && t[b] == s[b]);
        }
        lemma_persisted_list_distinct(t);
        if !s.last().grant.persisted.is_empty() {
            let last = s.last().spec_permission();
            lemma_persisted_list_contains(t, last);
            if persisted_list(t).contains(last) {
                let i = choose|i: int| 0 <= i < t.len() && !t[i].grant.persisted.is_empty() && last == (#[trigger] t[i]).spec_permission();
                assert(t[i] == s[i]);
                assert(s.last() == s[s.len() - 1]);
                assert(s[i].key() != s[s.len() - 1].key());
                assert(last.spec_uri() == s.last().handle);
                assert(last.spec_uri() == t[i].handle);
            }
            let l = persisted_list(t);
            assert forall|a: int, b: int| 0 <= a < l.push(last).len() && 0 <= b < l.push(last).len() && a != b implies l.push(last)[a] != l.push(last)[b] by {
                if a == l.len() {
                    assert(l[b] == l.push(last)[b]);
                } else if b == l.len() {
                    assert(l[a] == l.push(last)[a]);
                }
            }
        }
    }
}

proof fn lemma_record_of_cleared(s: Seq<GrantRecord>, k: Seq<char>)
    ensures
        record_of(s.map_values(|r: GrantRecord| without_persisted(r)), k) == match record_of(s, k) {
            Some(r) => Some(without_persisted(r)),
            None => None,
        },
    decreases s.len(),
{
    let c = s.map_values(|r: GrantRecord| without_persisted(r));
    if s.len() > 0 {
        assert(c.drop_last() =~= s.drop_last().map_values(|r: GrantRecord| without_persisted(r)));
        assert(c.last() == without_persisted(s.last()));
        lemma_record_of_cleared(s.drop_last(), k);
    }
}

/// The grant that decides what may be done with the handle `u`: its own,
/// or else that of the directory grant it descends from.
pub open spec fn effective_grant(m: Map<Seq<char>, GrantRecord>, u: FileUriView) -> Option<Grant> {
    if m.contains_key(u.uri) {
        Some(m[u.uri].grant)
    } else if u.tree is Some && m.contains_key(u.tree->0) {
        Some(m[u.tree->0].grant)
    } else {
        None
    }
}

/// `u` is one of the private base directories `roots`, or lies below one.
pub open spec fn is_private(roots: Seq<Seq<char>>, u: FileUriView) -> bool {
    u.tree is None && exists|i: int|
        0 <= i < roots.len() && (u.uri == roots[i] || is_prefix(#[trigger] roots[i] + "/"@, u.uri))
}

/// Whether capability `c` may be used on handle `u`. A handle of the app's
/// private storage needs no grant.
pub open spec fn allows(m: Map<Seq<char>, GrantRecord>, roots: Seq<Seq<char>>, u: FileUriView, c: Capability) -> bool {
    is_private(roots, u) || match effective_grant(m, u) {
        Some(g) => g.effective().has(c),
        None => false,
    }
}

/// The record of a handle after it is given `caps` for this session.
pub open spec fn with_session(m: Map<Seq<char>, GrantRecord>, h: FileUri, subject: GrantSubject, caps: Capabilities) -> GrantRecord {
    if m.contains_key(h@.uri) {
        let r = m[h@.uri];
        GrantRecord { handle: r.handle, grant: Grant { session: r.grant.session.union(caps), ..r.grant } }
    } else {
        GrantRecord {
            handle: h,
            grant: Grant {
                subject,
                session: caps,
                persisted: Capabilities { read: false, write: false, remove: false },
            },
        }
    }
}

/// A record without its persisted part.
pub open spec fn without_persisted(r: GrantRecord) -> GrantRecord {
    GrantRecord {
        handle: r.handle,
        grant: Grant { persisted: Capabilities { read: false, write: false, remove: false }, ..r.grant },
    }
}

/// The record of a handle after the platform is found to hold a persisted
/// grant `p` for it: the handle and its kind are as the platform reports
/// them, its session capabilities stay, and `p`'s access joins what it has
/// persisted.
pub open spec fn with_persisted(m: Map<Seq<char>, GrantRecord>, p: PersistedUriPermission) -> GrantRecord {
    let h = p.spec_uri();
    let caps = Capabilities { read: p.spec_can_read(), write: p.spec_can_write(), remove: false };
    let subject = if p is Dir {
        GrantSubject::Dir
    } else {
        GrantSubject::File
    };
    if m.contains_key(h@.uri) {
        let g = m[h@.uri].grant;
        GrantRecord { handle: h, grant: Grant { subject, session: g.session, persisted: g.persisted.union(caps) } }
    } else {
        GrantRecord {
            handle: h,
            grant: Grant { subject, session: Capabilities { read: false, write: false, remove: false }, persisted: caps },
        }
    }
}

/// The grants after each persisted grant of `ps`, in turn, is adopted.
pub open spec fn with_all_persisted(m: Map<Seq<char>, GrantRecord>, ps: Seq<PersistedUriPermission>) -> Map<
    Seq<char>,
    GrantRecord,
>
    decreases ps.len(),
{
    if ps.len() == 0 {
        m
    } else {
        let prev = with_all_persisted(m, ps.drop_last());
        prev.insert(ps.last().spec_uri()@.uri, with_persisted(prev, ps.last()))
    }
}

/// The grants known to this process, keyed by handle identifier.
///
/// Session grants come from picker results and from files the app created;
/// persisted grants are promoted from held ones and are bounded in number by
/// the ceiling the registry was made with.
pub struct PermissionRegistry {
    records: Vec<GrantRecord>,
    ceiling: usize,
    persisted: usize,
    private_roots: Vec<String>,
}

impl View for PermissionRegistry {
    type V = Map<Seq<char>, GrantRecord>;

    closed spec fn view(&self) -> Map<Seq<char>, GrantRecord> {
        Map::new(|k: Seq<char>| record_of(self.records@, k) is Some, |k: Seq<char>| record_of(self.records@, k)->0)
    }
}

impl PermissionRegistry {
    /// The registry's internal invariant.
    pub closed spec fn wf(&self) -> bool {
        &&& distinct_keys(self.records@)
        &&& self.persisted == persisted_list(self.records@).len()
        &&& forall|k: Seq<char>| #[trigger] self@.contains_key(k) ==> self@[k].key() == k
    }

    /// The most handles that may hold a persisted grant at once.
    pub closed spec fn spec_ceiling(&self) -> nat {
        self.ceiling as nat
    }

    /// The identifiers of the app's private base directories, as handles
    /// made from their paths. Handles at or below them need no grant.
    pub closed spec fn spec_roots(&self) -> Seq<Seq<char>> {
        self.private_roots@.map_values(|r: String| r@)
    }

    /// The number of handles that hold a persisted grant.
    pub closed spec fn persisted_len(&self) -> nat {
        persisted_list(self.records@).len()
    }

    proof fn lemma_view_at(&self, i: int)
        requires
            self.wf(),
            0 <= i < self.records@.len(),
        ensures
            self@.contains_key(self.records@[i].key()),
            self@[self.records@[i].key()] == self.records@[i],
    {
        lemma_record_of_at(self.records@, i);
    }

    /// An empty registry that allows at most `ceiling` persisted grants.
    pub fn new(ceiling: usize) -> (r: PermissionRegistry)
        ensures
            r.wf(),
            r@ == Map::<Seq<char>, GrantRecord>::empty(),
            r.spec_ceiling() == ceiling,
            r.persisted_len() == 0,
            r.spec_roots() == Seq::<Seq<char>>::empty(),
    {
        let r = PermissionRegistry { records: Vec::new(), ceiling, persisted: 0, private_roots: Vec::new() };
        assert(r@ =~= Map::<Seq<char>, GrantRecord>::empty());
        r
    }

    /// The most handles that may hold a persisted grant at once.
    pub fn ceiling(&self) -> (r: usize)
        ensures
            r == self.spec_ceiling(),
    {
        self.ceiling
    }

    /// The number of handles that hold a persisted grant.
    pub fn persisted_count(&self) -> (r: usize)
        requires
            self.wf(),
        ensures
            r == self.persisted_len(),
    {
        self.persisted
    }

    /// The position of the record for identifier `k`.
    fn find(&self, k: &String) -> (r: Option<usize>)
        requires
            self.wf(),
        ensures
            match r {
                Some(i) => i < self.records@.len() && self.records@[i as int].key() == k@
                    && self@.contains_key(k@) && self@[k@] == self.records@[i as int],
                None => !self@.contains_key(k@),
            },
    {
        let n = self.records.len();
        let mut i: usize = 0;
        while i < n
            invariant
                self.wf(),
                n == self.records@.len(),
                i <= n,
                forall|j: int| 0 <= j < i ==> #[trigger] self.records@[j].key() != k@,
            decreases n - i,
        {
            if <String as PartialEq>::eq(self.records[i].handle.id(), k) {
                proof {
                    self.lemma_view_at(i as int);
                }
                return Some(i);
            }
            i = i + 1;
        }
        proof {
            lemma_record_of_absent(self.records@, k@);
        }
        None
    }

    /// The grant recorded for `uri` itself.
    pub fn own_grant(&self, uri: &FileUri) -> (r: Option<Grant>)
        requires
            self.wf(),
        ensures
            r == (if self@.contains_key(uri@.uri) {
                Some(self@[uri@.uri].grant)
            } else {
                None
            }),
    {
        match self.find(uri.id()) {
            Some(i) => Some(self.records[i].grant),
            None => None,
        }
    }

    /// The grant that decides what may be done with `uri`: its own, or else
    /// that of the directory grant it descends from.
    pub fn grant_for(&self, uri: &FileUri) -> (r: Option<Grant>)
        requires
            self.wf(),
        ensures
            r == effective_grant(self@, uri@),
    {
        match self.find(uri.id()) {
            Some(i) => Some(self.records[i].grant),
            None => match uri.tree_id() {
                Some(t) => match self.find(t) {
                    Some(j) => Some(self.records[j].grant),
                    None => None,
                },
                None => None,
            },
        }
    }

    /// Declares the private base directory at local path `path`: handles at
    /// or below it need no grant. A path made of separators only is ignored.
    pub fn add_private_root(&mut self, path: &str)
        requires
            old(self).wf(),
        ensures
            final(self).wf(),
            final(self)@ == old(self)@,
            final(self).spec_ceiling() == old(self).spec_ceiling(),
            final(self).persisted_len() == old(self).persisted_len(),
            final(self).spec_roots() == if skip_trailing(path@, '/').len() == 0 {
                old(self).spec_roots()
            } else {
                old(self).spec_roots().push(local_uri(skip_trailing(path@, '/')))
            },
    {
        let t = trim_end_char(path, '/');
        if t.unicode_len() != 0 {
            let ghost before = self.private_roots@;
            let root = FileUri::from_path(t);
            self.private_roots.push(String::from_str(root.uri()));
            assert(self.private_roots@.map_values(|r: String| r@) =~= before.map_values(|r: String| r@).push(local_uri(t@)));
        }
        assert(self.records@ == old(self).records@);
        assert(self@ =~= old(self)@);
    }

    /// Whether `uri` is a private base directory or lies below one.
    pub fn is_private_handle(&self, uri: &FileUri) -> (r: bool)
        ensures
            r == is_private(self.spec_roots(), uri@),
    {
        if uri.tree_id().is_some() {
            return false;
        }
        let ghost roots = self.spec_roots();
        let n = self.private_roots.len();
        let mut i: usize = 0;
        while i < n
            invariant
                n == self.private_roots@.len(),
                roots == self.spec_roots(),
                roots.len() == n,
                uri@.tree is None,
                i <= n,
                forall|j: int| 0 <= j < i ==> !(uri@.uri == roots[j] || is_prefix(#[trigger] roots[j] + "/"@, uri@.uri)),
            decreases n - i,
        {
            let root = &self.private_roots[i];
            assert(roots[i as int] == root@);
            if <String as PartialEq>::eq(uri.id(), root) {
                return true;
            }
            let mut prefix = root.clone();
            prefix.append("/");
            if starts_with(uri.uri(), prefix.as_str()) {
                return true;
            }
            i = i + 1;
        }
        false
    }

    /// Whether capability `c` may be used on `uri`.
    pub fn check(&self, uri: &FileUri, c: Capability) -> (r: bool)
        requires
            self.wf(),
        ensures
            r == allows(self@, self.spec_roots(), uri@, c),
    {
        if self.is_private_handle(uri) {
            return true;
        }
        match self.grant_for(uri) {
            Some(g) => g.capabilities().contains(c),
            None => false,
        }
    }

    /// Succeeds when capability `c` may be used on `uri`, and otherwise
    /// fails with a permission error.
    pub fn authorize(&self, uri: &FileUri, c: Capability) -> (r: Result<(), Error>)
        requires
            self.wf(),
        ensures
            r is Ok <==> allows(self@, self.spec_roots(), uri@, c),
            r matches Err(e) ==> e is PermissionDenied,
    {
        if self.check(uri, c) {
            Ok(())
        } else {
            Err(Error::PermissionDenied)
        }
    }

    /// Puts grant `g` in the record at position `i`.
    fn set_grant(&mut self, i: usize, g: Grant)
        requires
            old(self).wf(),
            i < old(self).records@.len(),
        ensures
            final(self).wf(),
            final(self).ceiling == old(self).ceiling,
            final(self).private_roots == old(self).private_roots,
            final(self).records@ == old(self).records@.update(
                i as int,
                GrantRecord { handle: old(self).records@[i as int].handle, grant: g },
            ),
            final(self)@ == old(self)@.insert(
                old(self).records@[i as int].key(),
                GrantRecord { handle: old(self).records@[i as int].handle, grant: g },
            ),
            final(self).persisted_len() == old(self).persisted_len() - (if old(self).records@[i as int].grant.persisted.is_empty() {
                0int
            } else {
                1int
            }) + (if g.persisted.is_empty() {
                0int
            } else {
                1int
            }),
    {
        let h = self.records[i].handle.clone();
        self.set_record(i, h, g);
    }

    /// Puts handle `h` and grant `g` in the record at position `i`, which is
    /// kept under the same identifier.
    fn set_record(&mut self, i: usize, h: FileUri, g: Grant)
        requires
            old(self).wf(),
            i < old(self).records@.len(),
            h@.uri == old(self).records@[i as int].key(),
        ensures
            final(self).wf(),
            final(self).ceiling == old(self).ceiling,
            final(self).private_roots == old(self).private_roots,
            final(self).records@ == old(self).records@.update(i as int, GrantRecord { handle: h, grant: g }),
            final(self)@ == old(self)@.insert(h@.uri, GrantRecord { handle: h, grant: g }),
            final(self).persisted_len() == old(self).persisted_len() - (if old(self).records@[i as int].grant.persisted.is_empty() {
                0int
            } else {
                1int
            }) + (if g.persisted.is_empty() {
                0int
            } else {
                1int
            }),
    {
        let ghost s = self.records@;
        let was_empty = self.records[i].grant.persisted.empty();
        let now_empty = g.persisted.empty();
        let r = GrantRecord { handle: h, grant: g };
        proof {
            lemma_persisted_list_update(s, i as int, r);
            lemma_persisted_list_len(s.update(i as int, r));
            lemma_record_of_at(s, i as int);
        }
        let n = self.records.len();
        assert(s.update(i as int, r).len() == n);
        self.records[i] = r;
        if was_empty && !now_empty {
            self.persisted = self.persisted + 1;
        } else if !was_empty && now_empty {
            self.persisted = self.persisted - 1;
        }
        let ghost u = self.records@;
        assert(u == s.update(i as int, r));
        assert forall|a: int, b: int| 0 <= a < u.len() && 0 <= b < u.len() && a != b implies #[trigger] u[a].key()
            != #[trigger] u[b].key() by {
            if a != i && b != i {
                assert(u[a] == s[a] && u[b] == s[b]);
            } else if a == i {
                assert(u[b] == s[b]);
            } else {
                assert(u[a] == s[a]);
            }
        }
        assert forall|k: Seq<char>| true implies record_of(u, k) == (if k == r.key() {
            Some(r)
        } else {
            record_of(s, k)
        }) by {
            lemma_record_of_update(s, i as int, r, k);
        }
        assert forall|k: Seq<char>| #[trigger] self@.contains_key(k) implies self@[k].key() == k by {
            lemma_record_of_some(u, k);
        }
        assert(self@ =~= old(self)@.insert(s[i as int].key(), r));
    }

    /// Gives `uri` the capabilities `caps` for this session, adding them to
    /// any it holds already.
    pub fn record_session(&mut self, uri: &FileUri, subject: GrantSubject, caps: Capabilities)
        requires
            old(self).wf(),
        ensures
            final(self).wf(),
            final(self)@ == old(self)@.insert(uri@.uri, with_session(old(self)@, *uri, subject, caps)),
            final(self).spec_ceiling() == old(self).spec_ceiling(),
            final(self).spec_roots() == old(self).spec_roots(),
            final(self).persisted_len() == old(self).persisted_len(),
    {
        match self.find(uri.id()) {
            Some(i) => {
                let g = self.records[i].grant;
                let ng = Grant { session: g.session.merged(&caps), ..g };
                self.set_grant(i, ng);
            },
            None => {
                let ghost s = self.records@;
                let r = GrantRecord {
                    handle: uri.clone(),
                    grant: Grant { subject, session: caps, persisted: Capabilities::none() },
                };
                proof {
                    assert forall|i: int| 0 <= i < s.len() implies #[trigger] s[i].key() != r.key() by {
                        lemma_record_of_at(s, i);
                    }
                }
                self.records.push(r);
                let ghost u = self.records@;
                assert(u.drop_last() =~= s);
                assert forall|a: int, b: int| 0 <= a < u.len() && 0 <= b < u.len() && a != b implies #[trigger] u[a].key()
                    != #[trigger] u[b].key() by {
                    if a < s.len() {
                        assert(u[a] == s[a]);
                    }
                    if b < s.len() {
                        assert(u[b] == s[b]);
                    }
                }
                assert forall|k: Seq<char>| #[trigger] self@.contains_key(k) implies self@[k].key() == k by {
                    lemma_record_of_some(u, k);
                }
                assert(self@ =~= old(self)@.insert(uri@.uri, r));
            },
        }
    }

    /// Why `uri` could not be given a persisted grant of access `mode`, if it
    /// could not: it must hold every capability of `mode` through a grant of
    /// its own, and it may be new among persisted grants only while fewer than
    /// the ceiling exist.
    pub open spec fn persist_refusal(&self, u: FileUriView, mode: PersistableAccessMode) -> Option<Error> {
        if !self@.contains_key(u.uri) || !self@[u.uri].grant.effective().includes(Capabilities::spec_of_mode(mode)) {
            Some(Error::PermissionDenied)
        } else if self@[u.uri].grant.persisted.is_empty() && self.persisted_len() >= self.spec_ceiling() {
            Some(Error::GrantCeilingReached)
        } else {
            None
        }
    }

    /// Whether `uri` may be given a persisted grant of access `mode`.
    pub fn can_persist(&self, uri: &FileUri, mode: PersistableAccessMode) -> (r: Result<(), Error>)
        requires
            self.wf(),
        ensures
            match self.persist_refusal(uri@, mode) {
                None => r is Ok,
                Some(Error::PermissionDenied) => r matches Err(e) && e is PermissionDenied,
                Some(_) => r matches Err(e) && e is GrantCeilingReached,
            },
    {
        let caps = Capabilities::of_mode(mode);
        match self.find(uri.id()) {
            None => Err(Error::PermissionDenied),
            Some(i) => {
                let g = self.records[i].grant;
                if !g.capabilities().covers(&caps) {
                    Err(Error::PermissionDenied)
                } else if g.persisted.empty() && self.persisted >= self.ceiling {
                    Err(Error::GrantCeilingReached)
                } else {
                    Ok(())
                }
            },
        }
    }

    /// Promotes the capabilities of `mode` that `uri` holds to a persisted
    /// grant. A refusal leaves the registry as it was.
    pub fn persist(&mut self, uri: &FileUri, mode: PersistableAccessMode) -> (r: Result<(), Error>)
        requires
            old(self).wf(),
        ensures
            final(self).wf(),
            final(self).spec_ceiling() == old(self).spec_ceiling(),
            final(self).spec_roots() == old(self).spec_roots(),
            match old(self).persist_refusal(uri@, mode) {
                None => {
                    &&& r is Ok
                    &&& final(self)@ == old(self)@.insert(
                        uri@.uri,
                        GrantRecord {
                            handle: old(self)@[uri@.uri].handle,
                            grant: Grant {
                                persisted: old(self)@[uri@.uri].grant.persisted.union(Capabilities::spec_of_mode(mode)),
                                ..old(self)@[uri@.uri].grant
                            },
                        },
                    )
                    &&& final(self).persisted_len() == old(self).persisted_len() + if old(self)@[uri@.uri].grant.persisted.is_empty() {
                        1int
                    } else {
                        0int
                    }
                },
                Some(Error::PermissionDenied) => r matches Err(e) && e is PermissionDenied && *final(self) == *old(self),
                Some(_) => r matches Err(e) && e is GrantCeilingReached && *final(self) == *old(self),
            },
    {
        match self.can_persist(uri, mode) {
            Err(e) => Err(e),
            Ok(()) => {
                let caps = Capabilities::of_mode(mode);
                let i = self.find(uri.id()).unwrap();
                let g = self.records[i].grant;
                let ng = Grant { persisted: g.persisted.merged(&caps), ..g };
                self.set_grant(i, ng);
                Ok(())
            },
        }
    }

    /// Drops the persisted grant of `uri`, if it has one, and says whether it
    /// had. Capabilities held for the session stay.
    pub fn release(&mut self, uri: &FileUri) -> (r: bool)
        requires
            old(self).wf(),
        ensures
            final(self).wf(),
            final(self).spec_ceiling() == old(self).spec_ceiling(),
            final(self).spec_roots() == old(self).spec_roots(),
            r == (old(self)@.contains_key(uri@.uri) && !old(self)@[uri@.uri].grant.persisted.is_empty()),
            r ==> final(self)@ == old(self)@.insert(uri@.uri, without_persisted(old(self)@[uri@.uri]))
                && final(self).persisted_len() == old(self).persisted_len() - 1,
            !r ==> *final(self) == *old(self),
    {
        match self.find(uri.id()) {
            None => false,
            Some(i) => {
                let g = self.records[i].grant;
                if g.persisted.empty() {
                    false
                } else {
                    self.set_grant(i, Grant { persisted: Capabilities::none(), ..g });
                    true
                }
            },
        }
    }

    /// Drops every persisted grant. Capabilities held for the session stay.
    pub fn release_all(&mut self)
        requires
            old(self).wf(),
        ensures
            final(self).wf(),
            final(self).spec_ceiling() == old(self).spec_ceiling(),
            final(self).spec_roots() == old(self).spec_roots(),
            final(self)@ == old(self)@.map_values(|r: GrantRecord| without_persisted(r)),
            final(self).persisted_len() == 0,
    {
        let ghost s = self.records@;
        let n = self.records.len();
        let mut i: usize = 0;
        while i < n
            invariant
                self.wf(),
                self.ceiling == old(self).ceiling,
                self.private_roots == old(self).private_roots,
                n == self.records@.len(),
                s == old(self).records@,
                s.len() == n,
                i <= n,
                forall|j: int| 0 <= j < i ==> #[trigger] self.records@[j] == without_persisted(s[j]),
                forall|j: int| i <= j < n ==> #[trigger] self.records@[j] == s[j],
            decreases n - i,
        {
            let g = self.records[i].grant;
            self.set_grant(i, Grant { persisted: Capabilities::none(), ..g });
            i = i + 1;
        }
        let ghost u = self.records@;
        assert(u =~= s.map_values(|r: GrantRecord| without_persisted(r)));
        proof {
            assert forall|j: int| 0 <= j < u.len() implies (#[trigger] u[j]).grant.persisted.is_empty() by {
                assert(u[j] == without_persisted(s[j]));
            }
            lemma_persisted_list_none(u);
            assert forall|k: Seq<char>| true implies record_of(u, k) == match record_of(s, k) {
                Some(r) => Some(without_persisted(r)),
                None => None,
            } by {
                lemma_record_of_cleared(s, k);
            }
        }
        assert(self@ =~= old(self)@.map_values(|r: GrantRecord| without_persisted(r)));
    }

    /// The persisted grants, each handle once, in no particular order.
    pub fn list_persisted(&self) -> (r: Vec<PersistedUriPermission>)
        requires
            self.wf(),
        ensures
            r@.len() == self.persisted_len(),
            r@.no_duplicates(),
            forall|p: PersistedUriPermission| r@.contains(p) <==> exists|k: Seq<char>|
                #[trigger] self@.contains_key(k) && !self@[k].grant.persisted.is_empty() && p == self@[k].spec_permission(),
    {
        let ghost s = self.records@;
        let n = self.records.len();
        let mut out: Vec<PersistedUriPermission> = Vec::new();
        let mut i: usize = 0;
        assert(s.subrange(0, 0) =~= Seq::<GrantRecord>::empty());
        while i < n
            invariant
                self.wf(),
                s == self.records@,
                n == s.len(),
                i <= n,
                out@ == persisted_list(s.subrange(0, i as int)),
            decreases n - i,
        {
            let ghost t = s.subrange(0, i + 1);
            assert(t.drop_last() =~= s.subrange(0, i as int));
            assert(t.last() == s[i as int]);
            if !self.records[i].grant.persisted.empty() {
                out.push(self.records[i].to_permission());
            }
            i = i + 1;
        }
        assert(s.subrange(0, n as int) =~= s);
        proof {
            lemma_persisted_list_distinct(s);
            assert forall|p: PersistedUriPermission| out@.contains(p) <==> exists|k: Seq<char>|
                #[trigger] self@.contains_key(k) && !self@[k].grant.persisted.is_empty() && p == self@[k].spec_permission() by {
                lemma_persisted_list_contains(s, p);
                if out@.contains(p) {
                    let i = choose|i: int| 0 <= i < s.len() && !s[i].grant.persisted.is_empty() && p == (#[trigger] s[i]).spec_permission();
                    self.lemma_view_at(i);
                }
                if exists|k: Seq<char>| #[trigger] self@.contains_key(k) && !self@[k].grant.persisted.is_empty() && p == self@[k].spec_permission() {
                    let k = choose|k: Seq<char>| #[trigger] self@.contains_key(k) && !self@[k].grant.persisted.is_empty() && p == self@[k].spec_permission();
                    lemma_record_of_some(s, k);
                    let i = choose|i: int| 0 <= i < s.len() && s[i] == record_of(s, k)->0 && #[trigger] s[i].key() == k;
                    assert(!s[i].grant.persisted.is_empty() && p == s[i].spec_permission());
                }
            }
        }
        out
    }

    /// Records that the platform holds the persisted grant `p`, adding its
    /// capabilities to those the handle has persisted.
    pub fn adopt_persisted(&mut self, p: &PersistedUriPermission)
        requires
            old(self).wf(),
        ensures
            final(self).wf(),
            final(self).spec_ceiling() == old(self).spec_ceiling(),
            final(self).spec_roots() == old(self).spec_roots(),
            final(self)@ == old(self)@.insert(p.spec_uri()@.uri, with_persisted(old(self)@, *p)),
    {
        let h = p.uri();
        let caps = Capabilities { read: p.can_read(), write: p.can_write(), remove: false };
        let subject = if p.is_dir() {
            GrantSubject::Dir
        } else {
            GrantSubject::File
        };
        match self.find(h.id()) {
            Some(i) => {
                let g = self.records[i].grant;
                self.set_record(i, h.clone(), Grant { subject, session: g.session, persisted: g.persisted.merged(&caps) });
            },
            None => {
                let ghost s = self.records@;
                let r = GrantRecord {
                    handle: h.clone(),
                    grant: Grant { subject, session: Capabilities::none(), persisted: caps },
                };
                proof {
                    assert forall|i: int| 0 <= i < s.len() implies #[trigger] s[i].key() != r.key() by {
                        lemma_record_of_at(s, i);
                    }
                    lemma_persisted_list_len(s);
                }
                let n = self.records.len();
                self.records.push(r);
                let ghost u = self.records@;
                assert(u.drop_last() =~= s);
                assert(u.last() == r);
                let m = self.records.len();
                proof {
                    lemma_persisted_list_len(u);
                }
                if !caps.empty() {
                    self.persisted = self.persisted + 1;
                }
                assert forall|a: int, b: int| 0 <= a < u.len() && 0 <= b < u.len() && a != b implies #[trigger] u[a].key()
                    != #[trigger] u[b].key() by {
                    if a < s.len() {
                        assert(u[a] == s[a]);
                    }
                    if b < s.len() {
                        assert(u[b] == s[b]);
                    }
                }
                assert forall|k: Seq<char>| #[trigger] self@.contains_key(k) implies self@[k].key() == k by {
                    lemma_record_of_some(u, k);
                }
                assert(self@ =~= old(self)@.insert(h@.uri, r));
            },
        }
    }

    /// Makes the persisted grants those the platform reports, `live`, so
    /// that grants it revoked behind the app's back are gone. Capabilities
    /// held for the session stay.
    pub fn sync_persisted(&mut self, live: &Vec<PersistedUriPermission>)
        requires
            old(self).wf(),
        ensures
            final(self).wf(),
            final(self).spec_ceiling() == old(self).spec_ceiling(),
            final(self).spec_roots() == old(self).spec_roots(),
            final(self)@ == with_all_persisted(old(self)@.map_values(|r: GrantRecord| without_persisted(r)), live@),
    {
        self.release_all();
        let ghost cleared = self@;
        let n = live.len();
        let mut i: usize = 0;
        assert(live@.subrange(0, 0) =~= Seq::<PersistedUriPermission>::empty());
        while i < n
            invariant
                self.wf(),
                self.spec_ceiling() == old(self).spec_ceiling(),
                self.spec_roots() == old(self).spec_roots(),
                n == live@.len(),
                i <= n,
                cleared == old(self)@.map_values(|r: GrantRecord| without_persisted(r)),
                self@ == with_all_persisted(cleared, live@.subrange(0, i as int)),
            decreases n - i,
        {
            let ghost t = live@.subrange(0, i + 1);
            assert(t.drop_last() =~= live@.subrange(0, i as int));
            assert(t.last() == live@[i as int]);
            self.adopt_persisted(&live[i]);
            i = i + 1;
        }
        assert(live@.subrange(0, n as int) =~= live@);
    }
}

/// Once the ceiling is reached, promoting a handle that holds no persisted
/// grant yet is refused with the ceiling error, even when the handle holds
/// the capabilities asked for; `persist` then leaves the registry, and so the
/// persisted grants it lists, as they were.
pub proof fn lemma_ceiling_refuses_new_persisted_grant(
    reg: PermissionRegistry,
    u: FileUriView,
    mode: PersistableAccessMode,
)
    requires
        reg@.contains_key(u.uri),
        reg@[u.uri].grant.effective().includes(Capabilities::spec_of_mode(mode)),
        reg@[u.uri].grant.persisted.is_empty(),
        reg.persisted_len() >= reg.spec_ceiling(),
    ensures
        reg.persist_refusal(u, mode) == Some(Error::GrantCeilingReached),
{
}

} // verus!
