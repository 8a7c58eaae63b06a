use vstd::prelude::*;
use vstd::string::*;
use crate::text::{is_prefix, starts_with};

verus! {

/// The scheme of handles that name a file by its local path.
pub const LOCAL_SCHEME: &'static str = "file://";

/// What a [`FileUri`] holds, as mathematical values.
pub struct FileUriView {
    pub uri: Seq<char>,
    pub tree: Option<Seq<char>>,
}

/// An opaque handle to a file or directory.
///
/// The identifier is never parsed to decide what may be done with the
/// handle; `document_top_tree_uri` names the directory grant that the
/// handle descends from, if it was issued under one.
#[derive(Debug, Hash, PartialEq, Eq)]
pub struct FileUri {
    pub(crate) uri: String,
    pub(crate) document_top_tree_uri: Option<String>,
}

/// The view of an optional string.
pub open spec fn option_string_view(o: Option<String>) -> Option<Seq<char>> {
    match o {
        Some(s) => Some(s@),
        None => None,
    }
}

impl View for FileUri {
    type V = FileUriView;

    closed spec fn view(&self) -> FileUriView {
        FileUriView { uri: self.uri@, tree: option_string_view(self.document_top_tree_uri) }
    }
}

/// The identifier of a handle made from the local path `p`.
pub open spec fn local_uri(p: Seq<char>) -> Seq<char> {
    LOCAL_SCHEME@ + p
}

/// The local path that a handle stands for, if it stands for one.
pub open spec fn local_path_of(u: FileUriView) -> Option<Seq<char>> {
    if u.tree is None && is_prefix(LOCAL_SCHEME@, u.uri) {
        Some(u.uri.subrange(LOCAL_SCHEME@.len() as int, u.uri.len() as int))
    } else {
        None
    }
}

impl Clone for FileUri {
    fn clone(&self) -> (r: Self)
        ensures
            r == *self,
    {
        let tree = match &self.document_top_tree_uri {
            Some(t) => Some(t.clone()),
            None => None,
        };
        FileUri { uri: self.uri.clone(), document_top_tree_uri: tree }
    }
}

impl FileUri {
    /// A handle as the storage peer issued it.
    pub fn new(uri: String, document_top_tree_uri: Option<String>) -> (r: FileUri)
        ensures
            r@ == (FileUriView { uri: uri@, tree: option_string_view(document_top_tree_uri) }),
    {
        FileUri { uri, document_top_tree_uri }
    }

    /// The handle's identifier.
    pub fn uri(&self) -> (r: &str)
        ensures
            r@ == self@.uri,
    {
        self.uri.as_str()
    }

    /// The handle's identifier, as the owned string.
    pub(crate) fn id(&self) -> (r: &String)
        ensures
            r@ == self@.uri,
    {
        &self.uri
    }

    /// The identifier of the directory grant this handle descends from, as
    /// the owned string.
    pub(crate) fn tree_id(&self) -> (r: Option<&String>)
        ensures
            r matches Some(t) ==> self@.tree == Some(t@),
            r is None ==> self@.tree is None,
    {
        match &self.document_top_tree_uri {
            Some(t) => Some(t),
            None => None,
        }
    }

    /// The identifier of the directory grant this handle descends from.
    pub fn document_top_tree_uri(&self) -> (r: Option<&str>)
        ensures
            r matches Some(t) ==> self@.tree == Some(t@),
            r is None ==> self@.tree is None,
    {
        match &self.document_top_tree_uri {
            Some(t) => Some(t.as_str()),
            None => None,
        }
    }

    /// A handle for a file of the app's private storage, from its absolute path.
    pub fn from_path(path: &str) -> (r: FileUri)
        ensures
            r@.uri == local_uri(path@),
            r@.tree is None,
    {
        let mut uri = String::from_str(LOCAL_SCHEME);
        uri.append(path);
        FileUri { uri, document_top_tree_uri: None }
    }

    /// The absolute local path this handle stands for, if it was made from one.
    pub fn to_local_path(&self) -> (r: Option<String>)
        ensures
            option_string_view(r) == local_path_of(self@),
    {
        if self.document_top_tree_uri.is_none() && starts_with(self.uri.as_str(), LOCAL_SCHEME) {
            let n = self.uri.as_str().unicode_len();
            let k = LOCAL_SCHEME.unicode_len();
            Some(String::from_str(self.uri.as_str().substring_char(k, n)))
        } else {
            None
        }
    }
}

/// Converting a local path to a handle and back gives the path again.
pub proof fn lemma_local_path_round_trip(p: Seq<char>)
    ensures
        local_path_of(FileUriView { uri: local_uri(p), tree: None }) == Some(p),
{
    let u = local_uri(p);
    assert(u.subrange(0, LOCAL_SCHEME@.len() as int) =~= LOCAL_SCHEME@);
    assert(u.subrange(LOCAL_SCHEME@.len() as int, u.len() as int) =~= p);
}

/// A handle that stands for a local path is the handle made from that path.
pub proof fn lemma_local_handle_round_trip(u: FileUriView)
    requires
        local_path_of(u) is Some,
    ensures
        u == (FileUriView { uri: local_uri(local_path_of(u)->0), tree: None }),
{
    let k = LOCAL_SCHEME@.len() as int;
    assert(u.uri =~= u.uri.subrange(0, k) + u.uri.subrange(k, u.uri.len() as int));
}

/// A point in time, as milliseconds since the Unix epoch.
#[derive(Debug, Clone, Copy, Hash, PartialEq, Eq, PartialOrd, Ord, Structural)]
pub struct Timestamp {
    pub millis_since_epoch: u64,
}

/// A child of an enumerated directory.
///
/// Entries carry no grant of their own: what may be done with them follows
/// from the grant of the directory they were listed from.
#[derive(Debug, Hash, PartialEq, Eq)]
pub enum Entry {
    File { uri: FileUri, name: String, last_modified: Timestamp, len: u64, mime_type: String },
    Dir { uri: FileUri, name: String, last_modified: Timestamp },
}

impl Clone for Entry {
    fn clone(&self) -> (r: Self)
        ensures
            r == *self,
    {
        match self {
            Entry::File { uri, name, last_modified, len, mime_type } => Entry::File {
                uri: uri.clone(),
                name: name.clone(),
                last_modified: *last_modified,
                len: *len,
                mime_type: mime_type.clone(),
            },
            Entry::Dir { uri, name, last_modified } => Entry::Dir {
                uri: uri.clone(),
                name: name.clone(),
                last_modified: *last_modified,
            },
        }
    }
}

/// Access that a persisted grant may carry.
#[derive(Debug, Clone, Copy, Hash, PartialEq, Eq, Structural)]
pub enum PersistableAccessMode {
    /// Read access.
    Read,
    /// Write access.
    Write,
    /// Read-write access.
    ReadAndWrite,
}

/// A grant that outlives the process.
#[derive(Debug, Hash, PartialEq, Eq)]
pub enum PersistedUriPermission {
    File { uri: FileUri, can_read: bool, can_write: bool },
    Dir { uri: FileUri, can_read: bool, can_write: bool },
}

impl Clone for PersistedUriPermission {
    fn clone(&self) -> (r: Self)
        ensures
            r == *self,
    {
        match self {
            PersistedUriPermission::File { uri, can_read, can_write } => PersistedUriPermission::File {
                uri: uri.clone(),
                can_read: *can_read,
                can_write: *can_write,
            },
            PersistedUriPermission::Dir { uri, can_read, can_write } => PersistedUriPermission::Dir {
                uri: uri.clone(),
                can_read: *can_read,
                can_write: *can_write,
            },
        }
    }
}

impl PersistedUriPermission {
    pub open spec fn spec_uri(&self) -> FileUri {
        match self {
            PersistedUriPermission::File { uri, .. } => *uri,
            PersistedUriPermission::Dir { uri, .. } => *uri,
        }
    }

    pub open spec fn spec_can_read(&self) -> bool {
        match self {
            PersistedUriPermission::File { can_read, .. } => *can_read,
            PersistedUriPermission::Dir { can_read, .. } => *can_read,
        }
    }

    pub open spec fn spec_can_write(&self) -> bool {
        match self {
            PersistedUriPermission::File { can_write, .. } => *can_write,
            PersistedUriPermission::Dir { can_write, .. } => *can_write,
        }
    }

    /// The handle the grant is for.
    pub fn uri(&self) -> (r: &FileUri)
        ensures
            *r == self.spec_uri(),
    {
        match self {
            PersistedUriPermission::File { uri, .. } => uri,
            PersistedUriPermission::Dir { uri, .. } => uri,
        }
    }

    /// Whether the grant allows reading.
    pub fn can_read(&self) -> (r: bool)
        ensures
            r == self.spec_can_read(),
    {
        match self {
            PersistedUriPermission::File { can_read, .. } => *can_read,
            PersistedUriPermission::Dir { can_read, .. } => *can_read,
        }
    }

    /// Whether the grant allows writing.
    pub fn can_write(&self) -> (r: bool)
        ensures
            r == self.spec_can_write(),
    {
        match self {
            PersistedUriPermission::File { can_write, .. } => *can_write,
            PersistedUriPermission::Dir { can_write, .. } => *can_write,
        }
    }

    /// Whether the grant is for a single file.
    pub fn is_file(&self) -> (r: bool)
        ensures
            r == (self is File),
    {
        matches!(self, PersistedUriPermission::File { .. })
    }

    /// Whether the grant is for a directory and what lies below it.
    pub fn is_dir(&self) -> (r: bool)
        ensures
            r == (self is Dir),
    {
        matches!(self, PersistedUriPermission::Dir { .. })
    }
}

/// A preferred size in pixels.
#[derive(Debug, Clone, Copy, Hash, PartialEq, Eq, Structural)]
pub struct Size {
    pub width: u32,
    pub height: u32,
}

/// How a file is opened through a descriptor.
#[derive(Debug, Clone, Copy, Hash, PartialEq, Eq, Structural)]
#[non_exhaustive]
pub enum FileAccessMode {
    /// Read-only. Descriptor mode "r".
    Read,
    /// Write-only; may or may not truncate. Descriptor mode "w".
    Write,
    /// Write-only, existing contents truncated. Descriptor mode "wt".
    WriteTruncate,
    /// Write-only, new data appended. Descriptor mode "wa".
    WriteAppend,
    /// Read-write. Descriptor mode "rw".
    ReadWrite,
    /// Read-write, existing contents truncated. Descriptor mode "rwt".
    ReadWriteTruncate,
}

impl FileAccessMode {
    pub open spec fn spec_mode(self) -> Seq<char> {
        match self {
            FileAccessMode::Read => "r"@,
            FileAccessMode::Write => "w"@,
            FileAccessMode::WriteTruncate => "wt"@,
            FileAccessMode::WriteAppend => "wa"@,
            FileAccessMode::ReadWrite => "rw"@,
            FileAccessMode::ReadWriteTruncate => "rwt"@,
        }
    }

    /// The descriptor mode string the storage peer expects.
    pub fn descriptor_mode(&self) -> (r: &'static str)
        ensures
            r@ == self.spec_mode(),
    {
        match self {
            FileAccessMode::Read => "r",
            FileAccessMode::Write => "w",
            FileAccessMode::WriteTruncate => "wt",
            FileAccessMode::WriteAppend => "wa",
            FileAccessMode::ReadWrite => "rw",
            FileAccessMode::ReadWriteTruncate => "rwt",
        }
    }
}

/// Filters for the visual media picker.
#[derive(Debug, Clone, Copy, Hash, PartialEq, Eq, Structural)]
#[non_exhaustive]
pub enum VisualMediaTarget {
    /// Only images may be selected.
    ImageOnly,
    /// Only videos may be selected.
    VideoOnly,
    /// Images and videos may be selected.
    ImageAndVideo,
}

/// The application-specific directories of private storage.
#[derive(Debug, Clone, Copy, Hash, PartialEq, Eq, Structural)]
#[non_exhaustive]
pub enum PrivateDir {
    /// Persistent data, e.g. `/data/user/0/{app-package-name}/files`.
    Data,
    /// Cache, which the system may clear, e.g. `/data/user/0/{app-package-name}/cache`.
    Cache,
}

} // verus!
