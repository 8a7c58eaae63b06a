use android_fs::{Error, FileUri, ThumbnailFetch, ThumbnailStep};

fn fetch() -> ThumbnailFetch {
    ThumbnailFetch::new(FileUri::new("content://p/doc/img".to_string(), None), "/cache/tmp/thumb 0".to_string())
}

#[test]
fn thumbnail_bytes_come_back_and_temp_is_removed() {
    let mut f = fetch();
    assert_eq!(f.temp_uri().uri(), "file:///cache/tmp/thumb 0");
    assert_eq!(f.step(), ThumbnailStep::CreateParentDirs);
    f.dirs_created();
    assert_eq!(f.step(), ThumbnailStep::CreateTemp);
    f.temp_created(Ok(()));
    assert_eq!(f.step(), ThumbnailStep::Request);
    f.requested(Ok(true));
    assert_eq!(f.step(), ThumbnailStep::ReadTemp);
    f.read_done(Ok(vec![1, 2, 3]));
    assert_eq!(f.step(), ThumbnailStep::RemoveTemp);
    f.removed();
    assert_eq!(f.step(), ThumbnailStep::Done);
    assert_eq!(f.finish().unwrap(), Some(vec![1, 2, 3]));
}

#[test]
fn no_thumbnail_skips_reading() {
    let mut f = fetch();
    f.dirs_created();
    f.temp_created(Ok(()));
    f.requested(Ok(false));
    assert_eq!(f.step(), ThumbnailStep::RemoveTemp);
    f.removed();
    assert_eq!(f.finish().unwrap(), None);
}

#[test]
fn thumbnail_failure_still_removes_temp() {
    let mut f = fetch();
    f.dirs_created();
    f.temp_created(Ok(()));
    f.requested(Err(Error::PluginInvoke("no decoder".to_string())));
    assert_eq!(f.step(), ThumbnailStep::RemoveTemp);
    f.removed();
    assert!(matches!(f.finish(), Err(Error::PluginInvoke(ref m)) if m == "no decoder"));
}

#[test]
fn out_of_order_reports_change_nothing() {
    let mut f = fetch();
    f.requested(Ok(true));
    f.read_done(Ok(vec![9]));
    f.removed();
    assert_eq!(f.step(), ThumbnailStep::CreateParentDirs);
    f.dirs_created();
    f.temp_created(Err(Error::NotAndroid));
    assert_eq!(f.step(), ThumbnailStep::RemoveTemp);
    f.removed();
    assert!(matches!(f.finish(), Err(Error::NotAndroid)));
}
