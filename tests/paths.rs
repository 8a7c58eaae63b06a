use android_fs::{
    app_dir_relative_path, check_relative_path, plan_create_in_public_dir, public_dir_relative_path,
    trim_leading_separators, Error, FileUri, PathError, PermissionRegistry, PickerKind,
};

#[test]
fn empty_path_is_refused() {
    assert_eq!(check_relative_path("", false), Err(PathError::Empty));
}

#[test]
fn trailing_separator_names_no_file() {
    assert_eq!(check_relative_path("a/", false), Err(PathError::DoesNotContainFileName));
    assert_eq!(check_relative_path("/", false), Err(PathError::DoesNotContainFileName));
}

#[test]
fn missing_subdirectory_is_refused_where_required() {
    assert_eq!(check_relative_path("a.txt", true), Err(PathError::DoesNotContainSubDir));
    assert_eq!(check_relative_path("/a.txt", true), Err(PathError::DoesNotContainSubDir));
    assert_eq!(check_relative_path("a.txt", false), Ok(()));
    assert_eq!(check_relative_path("dir/a.txt", true), Ok(()));
}

#[test]
fn consecutive_separators_are_refused() {
    assert_eq!(check_relative_path("a//b.txt", false), Err(PathError::ConsecutiveSeparator));
    assert_eq!(check_relative_path("//a.txt", false), Err(PathError::ConsecutiveSeparator));
}

#[test]
fn leading_separators_are_dropped_for_private_paths() {
    assert_eq!(check_relative_path("/dir/a.txt", true), Ok(()));
    assert_eq!(trim_leading_separators("//x/y"), "x/y");
}

#[test]
fn create_file_checks_path_before_permission() {
    let mut reg = PermissionRegistry::new(4);
    let dir = FileUri::new("content://p/tree/d".to_string(), None);
    assert!(matches!(reg.plan_create_file(&dir, ""), Err(Error::InvalidPath(PathError::Empty))));
    assert!(matches!(reg.plan_create_file(&dir, "a.txt"), Err(Error::PermissionDenied)));
    reg.accept_picked_one(PickerKind::ManageDir, Ok(Some(dir.clone()))).unwrap();
    assert!(reg.plan_create_file(&dir, "sub/a.txt").is_ok());
    assert!(matches!(
        reg.plan_create_file(&dir, "a//b.txt"),
        Err(Error::InvalidPath(PathError::ConsecutiveSeparator))
    ));
    assert!(matches!(
        reg.plan_create_file(&dir, "//a.txt"),
        Err(Error::InvalidPath(PathError::ConsecutiveSeparator))
    ));
    assert!(matches!(
        reg.plan_create_file(&dir, "a/"),
        Err(Error::InvalidPath(PathError::DoesNotContainFileName))
    ));
}

#[test]
fn public_dir_creation_paths() {
    assert!(matches!(
        plan_create_in_public_dir("a.txt"),
        Err(Error::InvalidPath(PathError::DoesNotContainSubDir))
    ));
    assert_eq!(plan_create_in_public_dir("/MyApp/a.txt").unwrap(), "MyApp/a.txt");
    assert!(matches!(
        plan_create_in_public_dir("//MyApp/a.txt"),
        Err(Error::InvalidPath(PathError::ConsecutiveSeparator))
    ));
    assert_eq!(public_dir_relative_path("Pictures", "/MyApp/a.png"), "Pictures/MyApp/a.png");
    assert_eq!(app_dir_relative_path("My/App", "com.example", "/x.txt"), "My App/x.txt");
    assert_eq!(app_dir_relative_path("", "com.example", "x.txt"), "com.example/x.txt");
}
