use std::collections::HashMap;

use android_fs::{
    need_write_via_kotlin, staged_temp_relative_path, Capability, Error, FileUri, PermissionRegistry, PersistableAccessMode, PickerKind,
    StagedStep, StagedWrite, WriteStrategy, STAGED_TEMP_DIR,
};

const DRIVE_DOC: &str = "content://com.google.android.apps.docs.storage/document/acc%3D1%3Bdoc%3D7";

/// A stand-in for the device: private files by path and provider documents
/// by identifier, with the failures to inject.
#[derive(Default)]
struct Device {
    local: HashMap<String, Vec<u8>>,
    documents: HashMap<String, Vec<u8>>,
    copies: usize,
    fail_write: bool,
    fail_copy: bool,
    fail_remove: bool,
}

impl Device {
    fn run(&mut self, mut w: StagedWrite, contents: &[u8]) -> (Result<(), Error>, Vec<StagedStep>) {
        let mut steps = Vec::new();
        loop {
            let step = w.step();
            if step == StagedStep::Done {
                break;
            }
            steps.push(step);
            let outcome = match step {
                StagedStep::CreateParentDirs => Ok(()),
                StagedStep::WriteTemp => {
                    self.local.insert(w.temp_path().to_string(), Vec::new());
                    if self.fail_write {
                        Err(Error::PluginInvoke("disk full".to_string()))
                    } else {
                        self.local.insert(w.temp_path().to_string(), contents.to_vec());
                        Ok(())
                    }
                },
                StagedStep::CopyToTarget => {
                    self.copies += 1;
                    let src = w.temp_uri().to_local_path().unwrap();
                    if self.fail_copy {
                        Err(Error::PluginInvoke("copy failed".to_string()))
                    } else {
                        let bytes = self.local[&src].clone();
                        self.documents.insert(w.target().uri().to_string(), bytes);
                        Ok(())
                    }
                },
                StagedStep::RemoveTemp => {
                    self.local.remove(w.temp_path());
                    if self.fail_remove {
                        Err(Error::PluginInvoke("remove failed".to_string()))
                    } else {
                        Ok(())
                    }
                },
                StagedStep::Done => unreachable!(),
            };
            w.advance(outcome);
        }
        (w.finish(), steps)
    }
}

fn staged(target: &str) -> StagedWrite {
    StagedWrite::new(FileUri::new(target.to_string(), None), "/cache/tmp/write 0".to_string())
}

#[test]
fn drive_documents_need_staging() {
    assert!(need_write_via_kotlin(&FileUri::new(DRIVE_DOC.to_string(), None)));
    assert!(!need_write_via_kotlin(&FileUri::new("content://com.android.providers.downloads.documents/document/3".to_string(), None)));
    assert!(!need_write_via_kotlin(&FileUri::new("content://com.google.android.apps".to_string(), None)));
}

#[test]
fn staged_write_copies_once_and_cleans_up() {
    let mut dev = Device::default();
    let (r, steps) = dev.run(staged(DRIVE_DOC), b"twelve bytes");
    assert!(r.is_ok());
    assert_eq!(
        steps,
        vec![StagedStep::CreateParentDirs, StagedStep::WriteTemp, StagedStep::CopyToTarget, StagedStep::RemoveTemp]
    );
    assert_eq!(dev.copies, 1);
    assert_eq!(dev.documents[DRIVE_DOC], b"twelve bytes".to_vec());
    assert!(dev.local.is_empty());
}

#[test]
fn failed_local_write_skips_copy_and_cleans_up() {
    let mut dev = Device { fail_write: true, ..Device::default() };
    let (r, steps) = dev.run(staged(DRIVE_DOC), b"abc");
    assert!(matches!(r, Err(Error::PluginInvoke(ref m)) if m == "disk full"));
    assert_eq!(steps, vec![StagedStep::CreateParentDirs, StagedStep::WriteTemp, StagedStep::RemoveTemp]);
    assert_eq!(dev.copies, 0);
    assert!(dev.local.is_empty());
    assert!(dev.documents.is_empty());
}

#[test]
fn copy_error_wins_over_cleanup_error() {
    let mut dev = Device { fail_copy: true, fail_remove: true, ..Device::default() };
    let (r, _) = dev.run(staged(DRIVE_DOC), b"abc");
    assert!(matches!(r, Err(Error::PluginInvoke(ref m)) if m == "copy failed"));
    assert_eq!(dev.copies, 1);
    assert!(dev.local.is_empty());
}

#[test]
fn cleanup_error_is_swallowed() {
    let mut dev = Device { fail_remove: true, ..Device::default() };
    let (r, _) = dev.run(staged(DRIVE_DOC), b"abc");
    assert!(r.is_ok());
    assert!(dev.local.is_empty());
}

#[test]
fn temp_names_carry_tag_and_number() {
    assert_eq!(staged_temp_relative_path("write_via_kotlin_in", 0), "tauri-plugin-android-fs-tmp/write_via_kotlin_in 0");
    assert_eq!(staged_temp_relative_path("get_thumbnail", 1207), format!("{STAGED_TEMP_DIR}/get_thumbnail 1207"));
    assert_eq!(
        staged_temp_relative_path("t", u64::MAX),
        format!("{STAGED_TEMP_DIR}/t 18446744073709551615")
    );
}

#[test]
fn temp_handle_is_the_local_file() {
    let w = staged(DRIVE_DOC);
    assert_eq!(w.temp_uri().uri(), "file:///cache/tmp/write 0");
    assert_eq!(w.target().uri(), DRIVE_DOC);
}

#[test]
fn read_only_handle_cannot_be_written_or_promoted() {
    let mut reg = PermissionRegistry::new(8);
    let h = FileUri::new("content://com.android.providers.media.documents/document/image%3A5".to_string(), None);
    reg.accept_picked_one(PickerKind::OpenFile, Ok(Some(h.clone()))).unwrap();
    assert!(matches!(reg.plan_write(&h), Err(Error::PermissionDenied)));
    assert!(matches!(reg.persist(&h, PersistableAccessMode::Write), Err(Error::PermissionDenied)));
    assert!(!reg.check(&h, Capability::Write));
    assert!(reg.check(&h, Capability::Read));
}

#[test]
fn saved_drive_document_is_written_through_staging() {
    let mut reg = PermissionRegistry::new(8);
    let h2 = FileUri::new(DRIVE_DOC.to_string(), None);
    let picked = reg.accept_picked_one(PickerKind::SaveFile, Ok(Some(h2.clone()))).unwrap().unwrap();
    assert_eq!(reg.plan_write(&picked).unwrap(), WriteStrategy::Staged);
    let mut dev = Device::default();
    let (r, _) = dev.run(StagedWrite::new(picked.clone(), "/cache/tmp/write 1".to_string()), b"hello");
    assert!(r.is_ok());
    assert_eq!(dev.copies, 1);
    assert!(dev.local.is_empty());
    assert!(reg.check(&picked, Capability::Read));
    assert_eq!(dev.documents[DRIVE_DOC], b"hello".to_vec());
}

#[test]
fn other_providers_are_written_directly() {
    let mut reg = PermissionRegistry::new(8);
    let h = FileUri::new("content://com.android.externalstorage.documents/document/primary%3Aa.txt".to_string(), None);
    reg.accept_picked_one(PickerKind::SaveFile, Ok(Some(h.clone()))).unwrap();
    assert_eq!(reg.plan_write(&h).unwrap(), WriteStrategy::Direct);
}

