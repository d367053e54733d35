use unpm::fs::{nearest_file, FsCache};

#[test]
fn answers_are_recorded_once() {
    let mut cache = FsCache::new();
    let manifest = "/proc/self/status";
    let dir = "/";
    assert!(cache.is_file_with_cache(manifest));
    assert!(!cache.is_file_with_cache(dir));
    assert!(cache.is_file_with_cache(manifest));
    assert_eq!(cache.files.len(), 2);
    assert!(cache.is_dir_with_cache(dir));
    assert!(!cache.is_dir_with_cache(manifest));
    assert_eq!(cache.dirs.len(), 2);
}

#[test]
fn recorded_answer_is_kept_even_if_the_disk_changes() {
    let mut cache = FsCache::new();
    cache.files.push(("/no/such/file".to_string(), true));
    assert!(cache.is_file_with_cache("/no/such/file"));
    assert!(!cache.is_file_with_cache("/no/such/other"));
}

#[test]
fn nearest_file_is_the_first_that_is_a_file() {
    let mut cache = FsCache::new();
    cache.files.push(("/work/app/package.json".to_string(), true));
    let candidates = vec![
        "/no/such/dir/package.json".to_string(),
        "/work/app/package.json".to_string(),
        "/work/package.json".to_string(),
    ];
    assert_eq!(nearest_file(&mut cache, &candidates), Some(1));
    assert_eq!(cache.files.len(), 2);
    assert_eq!(cache.files[1], ("/no/such/dir/package.json".to_string(), false));

    let none = vec!["/no/such/dir/package.json".to_string(), "/".to_string()];
    assert_eq!(nearest_file(&mut cache, &none), None);
    assert_eq!(nearest_file(&mut FsCache::new(), &vec![]), None);
}
