use vstd::prelude::*;
use vstd::string::*;
use crate::models::{option_string_view, FileUri, FileUriView};
use crate::public_dir::{
    PublicAudioDir, PublicDir, PublicGeneralPurposeDir, PublicImageDir, PublicVideoDir,
};
use crate::text::{replace_char, replace_char_with, skip_leading, skip_trailing, trim_end_char, trim_start_char};

verus! {

/// The document identifier of the top of the primary shared volume.
pub const TOP_PUBLIC_DIR_URI: &'static str = "content://com.android.externalstorage.documents/document/primary%3A";

/// Where a picker opens.
#[derive(Debug, Clone, Copy, Hash, PartialEq, Eq)]
#[non_exhaustive]
pub enum InitialLocation<'a> {
    /// The top of the shared volume.
    TopPublicDir,
    /// A shared directory.
    PublicDir(PublicDir),
    /// A directory below a shared directory.
    DirInPublicDir { base_dir: PublicDir, relative_path: &'a str },
}

/// `s` without separators at either end.
pub open spec fn trim_separators(s: Seq<char>) -> Seq<char> {
    skip_trailing(skip_leading(s, '/'), '/')
}

impl<'a> InitialLocation<'a> {
    /// The document identifier of this location.
    pub open spec fn spec_uri(self) -> Seq<char> {
        match self {
            InitialLocation::TopPublicDir => TOP_PUBLIC_DIR_URI@,
            InitialLocation::PublicDir(d) => TOP_PUBLIC_DIR_URI@ + d.spec_name(),
            InitialLocation::DirInPublicDir { base_dir, relative_path } => {
                let r = trim_separators(relative_path@);
                if r.len() == 0 {
                    TOP_PUBLIC_DIR_URI@ + base_dir.spec_name()
                } else {
                    TOP_PUBLIC_DIR_URI@ + base_dir.spec_name() + "%2F"@ + replace_char(r, '/', "%2F"@)
                }
            },
        }
    }

    /// The path below `base_dir` of a placeholder file whose creation makes
    /// the directories of this location exist, if it names any.
    pub open spec fn spec_placeholder(self) -> Option<Seq<char>> {
        match self {
            InitialLocation::DirInPublicDir { relative_path, .. } => {
                let r = trim_separators(relative_path@);
                if r.len() == 0 {
                    None
                } else {
                    Some(r + "/tmp"@)
                }
            },
            _ => None,
        }
    }

    /// A handle on this location, suitable as a picker's starting point.
    pub fn to_uri(&self) -> (r: FileUri)
        ensures
            r@ == (FileUriView { uri: self.spec_uri(), tree: None }),
    {
        let mut uri = String::from_str(TOP_PUBLIC_DIR_URI);
        match self {
            InitialLocation::TopPublicDir => {},
            InitialLocation::PublicDir(d) => {
                uri.append(d.name());
            },
            InitialLocation::DirInPublicDir { base_dir, relative_path } => {
                let r = trim_end_char(trim_start_char(relative_path, '/'), '/');
                uri.append(base_dir.name());
                if r.unicode_len() != 0 {
                    uri.append("%2F");
                    let sub = replace_char_with(r, '/', "%2F");
                    uri.append(sub.as_str());
                }
            },
        }
        FileUri::new(uri, None)
    }

    /// For a directory below a shared directory, the relative path of a
    /// placeholder file that, created and removed again, leaves the
    /// directories of this location in place.
    pub fn placeholder_path(&self) -> (r: Option<String>)
        ensures
            option_string_view(r) == self.spec_placeholder(),
    {
        match self {
            InitialLocation::DirInPublicDir { relative_path, .. } => {
                let r = trim_end_char(trim_start_char(relative_path, '/'), '/');
                if r.unicode_len() == 0 {
                    None
                } else {
                    let mut p = String::from_str(r);
                    p.append("/tmp");
                    Some(p)
                }
            },
            _ => None,
        }
    }
}

impl<'a> From<PublicDir> for InitialLocation<'a> {
    fn from(d: PublicDir) -> (r: InitialLocation<'a>) {
        InitialLocation::PublicDir(d)
    }
}

impl<'a> vstd::std_specs::convert::FromSpecImpl<PublicDir> for InitialLocation<'a> {
    open spec fn obeys_from_spec() -> bool {
        true
    }

    open spec fn from_spec(d: PublicDir) -> InitialLocation<'a> {
        InitialLocation::PublicDir(d)
    }
}

impl<'a> From<PublicImageDir> for InitialLocation<'a> {
    fn from(d: PublicImageDir) -> (r: InitialLocation<'a>) {
        InitialLocation::PublicDir(PublicDir::Image(d))
    }
}

impl<'a> vstd::std_specs::convert::FromSpecImpl<PublicImageDir> for InitialLocation<'a> {
    open spec fn obeys_from_spec() -> bool {
        true
    }

    open spec fn from_spec(d: PublicImageDir) -> InitialLocation<'a> {
        InitialLocation::PublicDir(PublicDir::Image(d))
    }
}

impl<'a> From<PublicVideoDir> for InitialLocation<'a> {
    fn from(d: PublicVideoDir) -> (r: InitialLocation<'a>) {
        InitialLocation::PublicDir(PublicDir::Video(d))
    }
}

impl<'a> vstd::std_specs::convert::FromSpecImpl<PublicVideoDir> for InitialLocation<'a> {
    open spec fn obeys_from_spec() -> bool {
        true
    }

    open spec fn from_spec(d: PublicVideoDir) -> InitialLocation<'a> {
        InitialLocation::PublicDir(PublicDir::Video(d))
    }
}

impl<'a> From<PublicAudioDir> for InitialLocation<'a> {
    fn from(d: PublicAudioDir) -> (r: InitialLocation<'a>) {
        InitialLocation::PublicDir(PublicDir::Audio(d))
    }
}

impl<'a> vstd::std_specs::convert::FromSpecImpl<PublicAudioDir> for InitialLocation<'a> {
    open spec fn obeys_from_spec() -> bool {
        true
    }

    open spec fn from_spec(d: PublicAudioDir) -> InitialLocation<'a> {
        InitialLocation::PublicDir(PublicDir::Audio(d))
    }
}

impl<'a> From<PublicGeneralPurposeDir> for InitialLocation<'a> {
    fn from(d: PublicGeneralPurposeDir) -> (r: InitialLocation<'a>) {
        InitialLocation::PublicDir(PublicDir::GeneralPurpose(d))
    }
}

impl<'a> vstd::std_specs::convert::FromSpecImpl<PublicGeneralPurposeDir> for InitialLocation<'a> {
    open spec fn obeys_from_spec() -> bool {
        true
    }

    open spec fn from_spec(d: PublicGeneralPurposeDir) -> InitialLocation<'a> {
        InitialLocation::PublicDir(PublicDir::GeneralPurpose(d))
    }
}

} // verus!
