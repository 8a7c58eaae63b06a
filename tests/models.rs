use android_fs::{
    FileAccessMode, FileUri, InitialLocation, PersistedUriPermission, PublicAudioDir, PublicDir,
    PublicGeneralPurposeDir, PublicImageDir, PublicVideoDir, TOP_PUBLIC_DIR_URI,
};

fn handle(uri: &str) -> FileUri {
    FileUri::new(uri.to_string(), None)
}

#[test]
fn persisted_permission_accessors() {
    let file = PersistedUriPermission::File { uri: handle("content://a/1"), can_read: true, can_write: false };
    assert_eq!(file.uri(), &handle("content://a/1"));
    assert!(file.can_read());
    assert!(!file.can_write());
    assert!(file.is_file());
    assert!(!file.is_dir());

    let dir = PersistedUriPermission::Dir { uri: handle("content://a/tree"), can_read: false, can_write: true };
    assert_eq!(dir.uri(), &handle("content://a/tree"));
    assert!(!dir.can_read());
    assert!(dir.can_write());
    assert!(dir.is_dir());
    assert!(!dir.is_file());
}

#[test]
fn descriptor_modes() {
    assert_eq!(FileAccessMode::Read.descriptor_mode(), "r");
    assert_eq!(FileAccessMode::Write.descriptor_mode(), "w");
    assert_eq!(FileAccessMode::WriteTruncate.descriptor_mode(), "wt");
    assert_eq!(FileAccessMode::WriteAppend.descriptor_mode(), "wa");
    assert_eq!(FileAccessMode::ReadWrite.descriptor_mode(), "rw");
    assert_eq!(FileAccessMode::ReadWriteTruncate.descriptor_mode(), "rwt");
}

#[test]
fn public_dir_names() {
    assert_eq!(PublicImageDir::Pictures.to_string(), "Pictures");
    assert_eq!(PublicImageDir::DCIM.to_string(), "DCIM");
    assert_eq!(PublicVideoDir::Movies.to_string(), "Movies");
    assert_eq!(PublicVideoDir::DCIM.to_string(), "DCIM");
    assert_eq!(PublicAudioDir::Music.to_string(), "Music");
    assert_eq!(PublicAudioDir::Alarms.to_string(), "Alarms");
    assert_eq!(PublicAudioDir::Audiobooks.to_string(), "Audiobooks");
    assert_eq!(PublicAudioDir::Notifications.to_string(), "Notifications");
    assert_eq!(PublicAudioDir::Podcasts.to_string(), "Podcasts");
    assert_eq!(PublicAudioDir::Ringtones.to_string(), "Ringtones");
    assert_eq!(PublicAudioDir::Recordings.to_string(), "Recordings");
    assert_eq!(PublicGeneralPurposeDir::Documents.to_string(), "Documents");
    assert_eq!(PublicGeneralPurposeDir::Download.to_string(), "Download");
    assert_eq!(PublicDir::Audio(PublicAudioDir::Podcasts).to_string(), "Podcasts");
}

#[test]
fn public_dir_types_and_conversions() {
    assert_eq!(PublicDir::from(PublicImageDir::DCIM), PublicDir::Image(PublicImageDir::DCIM));
    assert_eq!(PublicDir::from(PublicVideoDir::Movies), PublicDir::Video(PublicVideoDir::Movies));
    assert_eq!(PublicDir::from(PublicAudioDir::Music), PublicDir::Audio(PublicAudioDir::Music));
    assert_eq!(
        PublicDir::from(PublicGeneralPurposeDir::Download),
        PublicDir::GeneralPurpose(PublicGeneralPurposeDir::Download)
    );
    assert_eq!(PublicDir::Image(PublicImageDir::Pictures).dir_type(), "Image");
    assert_eq!(PublicDir::Video(PublicVideoDir::DCIM).dir_type(), "Video");
    assert_eq!(PublicDir::Audio(PublicAudioDir::Alarms).dir_type(), "Audio");
    assert_eq!(PublicDir::GeneralPurpose(PublicGeneralPurposeDir::Documents).dir_type(), "GeneralPurpose");
    assert_eq!(
        InitialLocation::from(PublicImageDir::Pictures),
        InitialLocation::PublicDir(PublicDir::Image(PublicImageDir::Pictures))
    );
}

#[test]
fn local_path_round_trip() {
    let u = FileUri::from_path("/data/user/0/app/cache/x.bin");
    assert_eq!(u.uri(), "file:///data/user/0/app/cache/x.bin");
    assert_eq!(u.document_top_tree_uri(), None);
    assert_eq!(u.to_local_path(), Some("/data/user/0/app/cache/x.bin".to_string()));
    assert_eq!(handle("content://a/1").to_local_path(), None);
    let tree = FileUri::new("file:///x".to_string(), Some("content://t".to_string()));
    assert_eq!(tree.to_local_path(), None);
}

#[test]
fn initial_location_uris() {
    let top = InitialLocation::TopPublicDir.to_uri();
    assert_eq!(top.uri(), TOP_PUBLIC_DIR_URI);
    assert_eq!(
        top.uri(),
        "content://com.android.externalstorage.documents/document/primary%3A"
    );

    let pics = InitialLocation::PublicDir(PublicDir::Image(PublicImageDir::Pictures)).to_uri();
    assert_eq!(pics.uri(), format!("{TOP_PUBLIC_DIR_URI}Pictures"));

    let nested = InitialLocation::DirInPublicDir {
        base_dir: PublicDir::GeneralPurpose(PublicGeneralPurposeDir::Documents),
        relative_path: "/a/b/",
    };
    assert_eq!(nested.to_uri().uri(), format!("{TOP_PUBLIC_DIR_URI}Documents%2Fa%2Fb"));
    assert_eq!(nested.placeholder_path(), Some("a/b/tmp".to_string()));

    let flat = InitialLocation::DirInPublicDir {
        base_dir: PublicDir::Video(PublicVideoDir::Movies),
        relative_path: "//",
    };
    assert_eq!(flat.to_uri().uri(), format!("{TOP_PUBLIC_DIR_URI}Movies"));
    assert_eq!(flat.placeholder_path(), None);
    assert_eq!(InitialLocation::TopPublicDir.placeholder_path(), None);
}

