use rust_snapshot::resources::{LockError, LockFile, ResourceError, ResourceFolder};

#[test]
pub fn test_resource_folder() -> Result<(), ResourceError> {
    let rf = ResourceFolder::new("test/data");
    rf.require(Ok(()))?;
    Ok(())
}

#[test]
fn folder_hands_out_paths_only_once_required() {
    let folder = ResourceFolder::new("frames/today");
    assert!(matches!(folder.path("a.png"), Err(ResourceError::NotReady)));
    assert!(matches!(folder.basepath(), Err(ResourceError::NotReady)));
    assert!(matches!(folder.enumerate_files(Ok(Vec::new())), Err(ResourceError::NotReady)));
    assert!(matches!(
        folder.enumerate_files(Err("denied".to_string())),
        Err(ResourceError::NotReady)
    ));

    let folder = folder.require(Ok(())).unwrap();
    assert_eq!(folder.basepath().unwrap(), "frames/today");
    assert_eq!(folder.location_text(), "frames/today");
    assert_eq!(folder.path("a.png").unwrap(), "frames/today/a.png");
    let copy = folder.clone();
    assert_eq!(copy.path("b.png").unwrap(), "frames/today/b.png");
}

#[test]
fn joining_follows_the_platform_rules() {
    let folder = ResourceFolder::new("frames/").require(Ok(())).unwrap();
    assert_eq!(folder.path("a.png").unwrap(), "frames/a.png");
    // an absolute child replaces the base
    assert_eq!(folder.path("/tmp/a.png").unwrap(), "/tmp/a.png");
    let empty = ResourceFolder::new("").require(Ok(())).unwrap();
    assert_eq!(empty.path("a.png").unwrap(), "a.png");
}

#[test]
fn folder_that_cannot_be_created_is_reported() {
    let folder = ResourceFolder::new("/proc/nowhere");
    match folder.require(Err("Permission denied (os error 13)".to_string())) {
        Err(ResourceError::UnableToCreateFolder(message)) => {
            assert_eq!(message, "Permission denied (os error 13)");
        }
        _ => panic!("creation failed"),
    }
}

#[test]
fn missing_folder_is_reported_with_its_quoted_path() {
    let folder = ResourceFolder::new("no/such \"folder\"");
    match folder.confirm_existing(false) {
        Err(err) => {
            assert!(
                matches!(&err, ResourceError::NoSuchFolder(m) if m == "\"no/such \\\"folder\\\"\"")
            );
            assert_eq!(err.to_text(), format!("{:?}", err));
        }
        Ok(_) => panic!("the folder is missing"),
    }
    let folder = ResourceFolder::new("frames").confirm_existing(true).unwrap();
    assert_eq!(folder.basepath().unwrap(), "frames");
}

#[test]
fn require_existing_goes_by_the_disk() {
    let missing = ResourceFolder::new("/this/folder/does/not/exist/anywhere");
    assert!(!missing.exists_on_disk());
    match missing.require_existing() {
        Err(ResourceError::NoSuchFolder(message)) => {
            assert_eq!(message, "\"/this/folder/does/not/exist/anywhere\"");
        }
        _ => panic!("the folder is missing"),
    }
    let root = ResourceFolder::new("/");
    assert!(root.exists_on_disk());
    let root = root.require_existing().unwrap();
    assert_eq!(root.basepath().unwrap(), "/");
}

#[test]
fn files_are_enumerated_in_sorted_order() {
    let folder = ResourceFolder::new("frames").require(Ok(())).unwrap();
    let names = vec![
        "b.png".to_string(),
        "a.png".to_string(),
        "B.png".to_string(),
        "a10.png".to_string(),
        "a2.png".to_string(),
        "a.png".to_string(),
        "".to_string(),
        "é.png".to_string(),
    ];
    let sorted = folder.enumerate_files(Ok(names)).unwrap();
    assert_eq!(sorted, vec!["", "B.png", "a.png", "a.png", "a10.png", "a2.png", "b.png", "é.png"]);
    match folder.enumerate_files(Err("not a directory".to_string())) {
        Err(ResourceError::UnableToCreateFolder(message)) => assert_eq!(message, "not a directory"),
        _ => panic!("reading failed"),
    }
}

#[test]
fn resource_errors_print_as_their_debug_form() {
    let errors = vec![
        ResourceError::NotReady,
        ResourceError::NoSuchFolder("a \"b\"\n".to_string()),
        ResourceError::UnableToCreateFolder("tab\there \\ é".to_string()),
    ];
    for err in errors.iter() {
        assert_eq!(err.to_text(), format!("{:?}", err));
    }
    assert_eq!(ResourceError::NotReady.to_text(), "NotReady");
}

#[test]
fn lock_file_maps_the_outcome_of_its_writes() {
    let lock = LockFile::new("/this/folder/does/not/exist/run.lock");
    assert_eq!(lock.path(), "/this/folder/does/not/exist/run.lock");
    assert!(!lock.is_locked());
    assert!(lock.lock(Ok(())).is_ok());
    assert!(lock.unlock(Ok(())).is_ok());
    match lock.lock(Err("read-only file system".to_string())) {
        Err(LockError::IoFailed(message)) => assert_eq!(message, "read-only file system"),
        Ok(()) => panic!("writing failed"),
    }
    match lock.unlock(Err("busy".to_string())) {
        Err(err) => {
            assert_eq!(err.to_text(), "IoFailed(\"busy\")");
            assert_eq!(err.to_text(), format!("{:?}", err));
        }
        Ok(()) => panic!("removing failed"),
    }
    let present = LockFile::new("/");
    assert!(present.is_locked());
}
