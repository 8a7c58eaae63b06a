use android_fs::{
    Capability, Error, FileAccessMode, FileUri, GrantSubject, PersistableAccessMode, PersistedUriPermission,
    PermissionRegistry, PickerKind,
};

fn handle(uri: &str) -> FileUri {
    FileUri::new(uri.to_string(), None)
}

#[test]
fn opened_handle_is_readable_not_writable() {
    let mut reg = PermissionRegistry::new(8);
    let picked = vec![handle("content://p/doc/1"), handle("content://p/doc/2")];
    let out = reg.accept_picked(PickerKind::OpenFile, Ok(picked.clone())).unwrap();
    assert_eq!(out, picked);
    for h in &picked {
        assert!(reg.check(h, Capability::Read));
        assert!(!reg.check(h, Capability::Write));
        assert!(!reg.check(h, Capability::Remove));
    }
    assert!(matches!(reg.plan_write(&picked[0]), Err(Error::PermissionDenied)));
}

#[test]
fn cancelled_picker_is_empty_success() {
    let mut reg = PermissionRegistry::new(8);
    let out = reg.accept_picked(PickerKind::OpenContent, Ok(Vec::new())).unwrap();
    assert!(out.is_empty());
    let one = reg.accept_picked_one(PickerKind::SaveFile, Ok(None)).unwrap();
    assert_eq!(one, None);
    assert!(reg.list_persisted().is_empty());
}

#[test]
fn failed_picker_is_an_error() {
    let mut reg = PermissionRegistry::new(8);
    let out = reg.accept_picked(PickerKind::OpenVisualMedia, Err(Error::PluginInvoke("boom".to_string())));
    assert!(matches!(out, Err(Error::PluginInvoke(ref m)) if m == "boom"));
    let one = reg.accept_picked_one(PickerKind::ManageDir, Err(Error::NotAndroid));
    assert!(matches!(one, Err(Error::NotAndroid)));
}

#[test]
fn picker_grants_follow_intent() {
    let mut reg = PermissionRegistry::new(8);
    let dir = handle("content://p/tree/a");
    let saved = handle("content://p/doc/new");
    reg.accept_picked_one(PickerKind::ManageDir, Ok(Some(dir.clone()))).unwrap();
    reg.accept_picked_one(PickerKind::SaveFile, Ok(Some(saved.clone()))).unwrap();
    assert!(reg.check(&dir, Capability::Read) && reg.check(&dir, Capability::Write) && reg.check(&dir, Capability::Remove));
    assert!(reg.check(&saved, Capability::Write) && reg.check(&saved, Capability::Read));
    assert!(!reg.check(&saved, Capability::Remove));
    assert_eq!(reg.grant_for(&dir).unwrap().subject, GrantSubject::Dir);
    assert_eq!(reg.grant_for(&saved).unwrap().subject, GrantSubject::File);
}

#[test]
fn descendants_inherit_the_tree_grant() {
    let mut reg = PermissionRegistry::new(8);
    let tree = handle("content://p/tree/a");
    reg.accept_picked_one(PickerKind::ManageDir, Ok(Some(tree.clone()))).unwrap();
    let child = FileUri::new("content://p/tree/a/doc/x".to_string(), Some("content://p/tree/a".to_string()));
    assert!(reg.check(&child, Capability::Write));
    assert!(reg.authorize_open(&child, FileAccessMode::ReadWriteTruncate).is_ok());
    let stranger = handle("content://p/doc/y");
    assert!(!reg.check(&stranger, Capability::Read));
    assert!(matches!(reg.authorize_open(&stranger, FileAccessMode::Read), Err(Error::PermissionDenied)));
}

#[test]
fn private_storage_needs_no_grant() {
    let mut reg = PermissionRegistry::new(0);
    let local = FileUri::from_path("/data/user/0/app/files/a");
    assert!(!reg.check(&local, Capability::Read));
    reg.add_private_root("/data/user/0/app/files/");
    reg.add_private_root("///");
    assert!(reg.check(&local, Capability::Write));
    assert!(reg.check(&local, Capability::Remove));
    assert!(reg.check(&FileUri::from_path("/data/user/0/app/files"), Capability::Read));
    assert!(!reg.check(&FileUri::from_path("/data/user/0/app/filesystem"), Capability::Read));
    assert!(!reg.check(&FileUri::from_path("/storage/emulated/0/Download/x"), Capability::Write));
    let shared = FileUri::new("file:///data/user/0/app/files/a".to_string(), Some("content://t".to_string()));
    assert!(!reg.check(&shared, Capability::Read));
}

#[test]
fn platform_report_decides_listed_kind_and_handle() {
    let mut reg = PermissionRegistry::new(4);
    let dir = handle("content://p/x");
    reg.accept_picked_one(PickerKind::ManageDir, Ok(Some(dir.clone()))).unwrap();
    reg.persist(&dir, PersistableAccessMode::ReadAndWrite).unwrap();
    let reported = FileUri::new("content://p/x".to_string(), Some("content://p/tree".to_string()));
    let live = vec![PersistedUriPermission::File { uri: reported.clone(), can_read: true, can_write: false }];
    reg.sync_persisted(&live);
    assert_eq!(reg.list_persisted(), live);
}

#[test]
fn persisting_needs_a_held_capability() {
    let mut reg = PermissionRegistry::new(8);
    let h = handle("content://p/doc/1");
    assert!(matches!(reg.persist(&h, PersistableAccessMode::Read), Err(Error::PermissionDenied)));
    reg.accept_picked_one(PickerKind::OpenFile, Ok(Some(h.clone()))).unwrap();
    assert!(matches!(reg.persist(&h, PersistableAccessMode::ReadAndWrite), Err(Error::PermissionDenied)));
    assert!(reg.persist(&h, PersistableAccessMode::Read).is_ok());
    assert!(reg.check_persisted(&h, PersistableAccessMode::Read));
    assert!(!reg.check_persisted(&h, PersistableAccessMode::Write));
    assert_eq!(reg.persisted_count(), 1);
    assert_eq!(
        reg.list_persisted(),
        vec![PersistedUriPermission::File { uri: h.clone(), can_read: true, can_write: false }]
    );
}

#[test]
fn ceiling_refusal_leaves_registry_intact() {
    let mut reg = PermissionRegistry::new(2);
    let hs: Vec<FileUri> = (0..3).map(|i| handle(&format!("content://p/doc/{i}"))).collect();
    reg.accept_picked(PickerKind::SaveFile, Ok(hs.clone())).unwrap();
    assert!(reg.persist(&hs[0], PersistableAccessMode::ReadAndWrite).is_ok());
    assert!(reg.persist(&hs[1], PersistableAccessMode::Write).is_ok());
    let before = reg.list_persisted();
    assert_eq!(before.len(), 2);
    assert!(matches!(reg.can_persist(&hs[2], PersistableAccessMode::Read), Err(Error::GrantCeilingReached)));
    assert!(matches!(reg.persist(&hs[2], PersistableAccessMode::Read), Err(Error::GrantCeilingReached)));
    assert_eq!(reg.list_persisted(), before);
    assert_eq!(reg.persisted_count(), 2);
    // Widening a grant that is already persisted does not count against the ceiling.
    assert!(reg.persist(&hs[1], PersistableAccessMode::Read).is_ok());
    assert_eq!(reg.persisted_count(), 2);
}

#[test]
fn release_and_release_all() {
    let mut reg = PermissionRegistry::new(4);
    let a = handle("content://p/doc/a");
    let b = handle("content://p/tree/b");
    reg.accept_picked_one(PickerKind::SaveFile, Ok(Some(a.clone()))).unwrap();
    reg.accept_picked_one(PickerKind::ManageDir, Ok(Some(b.clone()))).unwrap();
    reg.persist(&a, PersistableAccessMode::Write).unwrap();
    reg.persist(&b, PersistableAccessMode::ReadAndWrite).unwrap();
    assert!(reg.release(&a));
    assert!(!reg.release(&a));
    assert_eq!(
        reg.list_persisted(),
        vec![PersistedUriPermission::Dir { uri: b.clone(), can_read: true, can_write: true }]
    );
    // The session grant stays after release.
    assert!(reg.check(&a, Capability::Write));
    reg.release_all();
    assert!(reg.list_persisted().is_empty());
    assert_eq!(reg.persisted_count(), 0);
    assert!(reg.check(&b, Capability::Write));
}

#[test]
fn sync_follows_the_platform() {
    let mut reg = PermissionRegistry::new(4);
    let a = handle("content://p/doc/a");
    reg.accept_picked_one(PickerKind::SaveFile, Ok(Some(a.clone()))).unwrap();
    reg.persist(&a, PersistableAccessMode::Write).unwrap();
    let restored = handle("content://p/tree/restored");
    let live = vec![PersistedUriPermission::Dir { uri: restored.clone(), can_read: true, can_write: false }];
    reg.sync_persisted(&live);
    assert_eq!(reg.list_persisted(), live);
    assert!(reg.check(&restored, Capability::Read));
    assert!(!reg.check(&restored, Capability::Write));
    assert!(!reg.check_persisted(&a, PersistableAccessMode::Write));
    assert!(reg.check(&a, Capability::Write));
}

#[test]
fn created_files_are_fully_owned() {
    let mut reg = PermissionRegistry::new(4);
    let f = handle("content://media/external/file/9");
    reg.record_created(&f);
    assert!(reg.check(&f, Capability::Read) && reg.check(&f, Capability::Write) && reg.check(&f, Capability::Remove));
    assert!(reg.authorize_copy(&f, &f).is_ok());
}

#[test]
fn persistable_mode_follows_held_access() {
    let mut reg = PermissionRegistry::new(4);
    let opened = handle("content://p/doc/o");
    let saved = handle("content://p/doc/s");
    assert_eq!(reg.persistable_mode(&opened), None);
    reg.accept_picked_one(PickerKind::OpenFile, Ok(Some(opened.clone()))).unwrap();
    reg.accept_picked_one(PickerKind::SaveFile, Ok(Some(saved.clone()))).unwrap();
    assert_eq!(reg.persistable_mode(&opened), Some(PersistableAccessMode::Read));
    assert_eq!(reg.persistable_mode(&saved), Some(PersistableAccessMode::ReadAndWrite));
    assert!(reg.own_grant(&opened).is_some());
    let child = FileUri::new("content://p/doc/o/x".to_string(), Some("content://p/doc/o".to_string()));
    assert!(reg.own_grant(&child).is_none());
    assert!(reg.grant_for(&child).is_some());
}

#[test]
fn opened_handle_reports_no_persisted_write() {
    let mut reg = PermissionRegistry::new(4);
    let h = handle("content://p/doc/opened");
    reg.accept_picked(PickerKind::OpenFile, Ok(vec![h.clone()])).unwrap();
    assert!(!reg.check_persisted(&h, PersistableAccessMode::Write));
    assert!(!reg.check_persisted(&h, PersistableAccessMode::Read));
}
