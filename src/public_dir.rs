use vstd::prelude::*;
use vstd::string::*;

verus! {

/// Shared directories for images.
#[derive(Debug, Clone, Copy, Hash, PartialEq, Eq, Structural)]
#[non_exhaustive]
pub enum PublicImageDir {
    /// `~/Pictures`
    Pictures,
    /// `~/DCIM`, where a camera puts pictures and videos.
    DCIM,
}

/// Shared directories for videos.
#[derive(Debug, Clone, Copy, Hash, PartialEq, Eq, Structural)]
#[non_exhaustive]
pub enum PublicVideoDir {
    /// `~/Movies`
    Movies,
    /// `~/DCIM`, where a camera puts pictures and videos.
    DCIM,
}

/// Shared directories for audio.
#[derive(Debug, Clone, Copy, Hash, PartialEq, Eq, Structural)]
#[non_exhaustive]
pub enum PublicAudioDir {
    /// `~/Music`
    Music,
    /// `~/Alarms`
    Alarms,
    /// `~/Audiobooks`; not available on every platform version.
    Audiobooks,
    /// `~/Notifications`
    Notifications,
    /// `~/Podcasts`
    Podcasts,
    /// `~/Ringtones`
    Ringtones,
    /// `~/Recordings`; not available on every platform version.
    Recordings,
}

/// Shared directories for any kind of file.
#[derive(Debug, Clone, Copy, Hash, PartialEq, Eq, Structural)]
#[non_exhaustive]
pub enum PublicGeneralPurposeDir {
    /// `~/Documents`
    Documents,
    /// `~/Download`
    Download,
}

/// A shared directory of public storage.
#[derive(Debug, Clone, Copy, Hash, PartialEq, Eq, Structural)]
#[non_exhaustive]
pub enum PublicDir {
    Image(PublicImageDir),
    Video(PublicVideoDir),
    Audio(PublicAudioDir),
    GeneralPurpose(PublicGeneralPurposeDir),
}

impl PublicImageDir {
    pub open spec fn spec_name(self) -> Seq<char> {
        match self {
            PublicImageDir::Pictures => "Pictures"@,
            PublicImageDir::DCIM => "DCIM"@,
        }
    }

    /// The directory's name on the device.
    pub fn name(&self) -> (r: &'static str)
        ensures
            r@ == self.spec_name(),
    {
        match self {
            PublicImageDir::Pictures => "Pictures",
            PublicImageDir::DCIM => "DCIM",
        }
    }

    /// The directory's name on the device, as an owned string.
    pub fn to_string(&self) -> (r: String)
        ensures
            r@ == self.spec_name(),
    {
        String::from_str(self.name())
    }
}

impl PublicVideoDir {
    pub open spec fn spec_name(self) -> Seq<char> {
        match self {
            PublicVideoDir::Movies => "Movies"@,
            PublicVideoDir::DCIM => "DCIM"@,
        }
    }

    /// The directory's name on the device.
    pub fn name(&self) -> (r: &'static str)
        ensures
            r@ == self.spec_name(),
    {
        match self {
            PublicVideoDir::Movies => "Movies",
            PublicVideoDir::DCIM => "DCIM",
        }
    }

    /// The directory's name on the device, as an owned string.
    pub fn to_string(&self) -> (r: String)
        ensures
            r@ == self.spec_name(),
    {
        String::from_str(self.name())
    }
}

impl PublicAudioDir {
    pub open spec fn spec_name(self) -> Seq<char> {
        match self {
            PublicAudioDir::Music => "Music"@,
            PublicAudioDir::Alarms => "Alarms"@,
            PublicAudioDir::Audiobooks => "Audiobooks"@,
            PublicAudioDir::Notifications => "Notifications"@,
            PublicAudioDir::Podcasts => "Podcasts"@,
            PublicAudioDir::Ringtones => "Ringtones"@,
            PublicAudioDir::Recordings => "Recordings"@,
        }
    }

    /// The directory's name on the device.
    pub fn name(&self) -> (r: &'static str)
        ensures
            r@ == self.spec_name(),
    {
        match self {
            PublicAudioDir::Music => "Music",
            PublicAudioDir::Alarms => "Alarms",
            PublicAudioDir::Audiobooks => "Audiobooks",
            PublicAudioDir::Notifications => "Notifications",
            PublicAudioDir::Podcasts => "Podcasts",
            PublicAudioDir::Ringtones => "Ringtones",
            PublicAudioDir::Recordings => "Recordings",
        }
    }

    /// The directory's name on the device, as an owned string.
    pub fn to_string(&self) -> (r: String)
        ensures
            r@ == self.spec_name(),
    {
        String::from_str(self.name())
    }
}

impl PublicGeneralPurposeDir {
    pub open spec fn spec_name(self) -> Seq<char> {
        match self {
            PublicGeneralPurposeDir::Documents => "Documents"@,
            PublicGeneralPurposeDir::Download => "Download"@,
        }
    }

    /// The directory's name on the device.
    pub fn name(&self) -> (r: &'static str)
        ensures
            r@ == self.spec_name(),
    {
        match self {
            PublicGeneralPurposeDir::Documents => "Documents",
            PublicGeneralPurposeDir::Download => "Download",
        }
    }

    /// The directory's name on the device, as an owned string.
    pub fn to_string(&self) -> (r: String)
        ensures
            r@ == self.spec_name(),
    {
        String::from_str(self.name())
    }
}

impl PublicDir {
    pub open spec fn spec_name(self) -> Seq<char> {
        match self {
            PublicDir::Image(d) => d.spec_name(),
            PublicDir::Video(d) => d.spec_name(),
            PublicDir::Audio(d) => d.spec_name(),
            PublicDir::GeneralPurpose(d) => d.spec_name(),
        }
    }

    pub open spec fn spec_dir_type(self) -> Seq<char> {
        match self {
            PublicDir::Image(_) => "Image"@,
            PublicDir::Video(_) => "Video"@,
            PublicDir::Audio(_) => "Audio"@,
            PublicDir::GeneralPurpose(_) => "GeneralPurpose"@,
        }
    }

    /// The directory's name on the device.
    pub fn name(&self) -> (r: &'static str)
        ensures
            r@ == self.spec_name(),
    {
        match self {
            PublicDir::Image(d) => d.name(),
            PublicDir::Video(d) => d.name(),
            PublicDir::Audio(d) => d.name(),
            PublicDir::GeneralPurpose(d) => d.name(),
        }
    }

    /// The directory's name on the device, as an owned string.
    pub fn to_string(&self) -> (r: String)
        ensures
            r@ == self.spec_name(),
    {
        String::from_str(self.name())
    }

    /// The media category the storage peer files this directory under.
    pub fn dir_type(&self) -> (r: &'static str)
        ensures
            r@ == self.spec_dir_type(),
    {
        match self {
            PublicDir::Image(_) => "Image",
            PublicDir::Video(_) => "Video",
            PublicDir::Audio(_) => "Audio",
            PublicDir::GeneralPurpose(_) => "GeneralPurpose",
        }
    }
}

impl From<PublicImageDir> for PublicDir {
    fn from(d: PublicImageDir) -> (r: PublicDir) {
        PublicDir::Image(d)
    }
}

impl vstd::std_specs::convert::FromSpecImpl<PublicImageDir> for PublicDir {
    open spec fn obeys_from_spec() -> bool {
        true
    }

    open spec fn from_spec(d: PublicImageDir) -> PublicDir {
        PublicDir::Image(d)
    }
}

impl From<PublicVideoDir> for PublicDir {
    fn from(d: PublicVideoDir) -> (r: PublicDir) {
        PublicDir::Video(d)
    }
}

impl vstd::std_specs::convert::FromSpecImpl<PublicVideoDir> for PublicDir {
    open spec fn obeys_from_spec() -> bool {
        true
    }

    open spec fn from_spec(d: PublicVideoDir) -> PublicDir {
        PublicDir::Video(d)
    }
}

impl From<PublicAudioDir> for PublicDir {
    fn from(d: PublicAudioDir) -> (r: PublicDir) {
        PublicDir::Audio(d)
    }
}

impl vstd::std_specs::convert::FromSpecImpl<PublicAudioDir> for PublicDir {
    open spec fn obeys_from_spec() -> bool {
        true
    }

    open spec fn from_spec(d: PublicAudioDir) -> PublicDir {
        PublicDir::Audio(d)
    }
}

impl From<PublicGeneralPurposeDir> for PublicDir {
    fn from(d: PublicGeneralPurposeDir) -> (r: PublicDir) {
        PublicDir::GeneralPurpose(d)
    }
}

impl vstd::std_specs::convert::FromSpecImpl<PublicGeneralPurposeDir> for PublicDir {
    open spec fn obeys_from_spec() -> bool {
        true
    }

    open spec fn from_spec(d: PublicGeneralPurposeDir) -> PublicDir {
        PublicDir::GeneralPurpose(d)
    }
}

} // verus!
