use metalshade::pipeline::{
    validate_bytecode, words_from_bytes, LoadError, Pipeline, PipelineCache,
};

/// A minimal well-formed bytecode module: the magic word followed by four
/// zero header words.
fn valid_blob() -> Vec<u8> {
    let mut v = vec![0x03u8, 0x02, 0x23, 0x07];
    v.extend_from_slice(&[0u8; 16]);
    v
}

#[test]
fn bytecode_valid_header() {
    assert!(validate_bytecode(&valid_blob()));
}

#[test]
fn bytecode_truncated_header() {
    let blob = vec![0x03u8, 0x02, 0x23, 0x07];
    assert!(!validate_bytecode(&blob));
}

#[test]
fn bytecode_misaligned() {
    let mut blob = valid_blob();
    blob.push(0);
    assert!(!validate_bytecode(&blob));
}

#[test]
fn bytecode_wrong_magic() {
    let mut blob = valid_blob();
    blob[0] = 0x04;
    assert!(!validate_bytecode(&blob));
}

#[test]
fn words_little_endian() {
    let bytes = vec![0x03u8, 0x02, 0x23, 0x07, 0xff, 0x00, 0x00, 0x00, 0xaa];
    let words = words_from_bytes(&bytes);
    assert_eq!(words, vec![0x0723_0203u32, 0x0000_00ff]);
}

#[test]
fn reload_success_installs_pipeline() {
    let mut cache = PipelineCache::new();
    assert!(cache.current().is_none());
    assert_eq!(cache.begin_reload(&valid_blob(), &valid_blob(), 800, 600), Ok(()));
    assert_eq!(cache.finish_reload(Some(7), true), Ok(()));
    assert_eq!(
        cache.current(),
        Some(Pipeline { handle: 7, viewport_w: 800, viewport_h: 600 })
    );
}

#[test]
fn invalid_fragment_keeps_active_pipeline() {
    // a fragment blob with a truncated header fails the reload and the
    // previously active pipeline stays usable for the next frame.
    let mut cache = PipelineCache::new();
    cache.begin_reload(&valid_blob(), &valid_blob(), 800, 600).unwrap();
    cache.finish_reload(Some(1), true).unwrap();
    let before = cache.current();

    let truncated = vec![0x03u8, 0x02, 0x23, 0x07];
    let r = cache.begin_reload(&valid_blob(), &truncated, 800, 600);
    assert_eq!(r, Err(LoadError::BytecodeInvalid));
    assert_eq!(cache.current(), before);
    assert!(cache.current().is_some());
}

#[test]
fn compile_failure_keeps_active_pipeline() {
    let mut cache = PipelineCache::new();
    cache.begin_reload(&valid_blob(), &valid_blob(), 800, 600).unwrap();
    cache.finish_reload(Some(1), true).unwrap();
    let before = cache.current();

    cache.begin_reload(&valid_blob(), &valid_blob(), 800, 600).unwrap();
    let r = cache.finish_reload(None, false);
    assert_eq!(r, Err(LoadError::CompileFailed));
    assert_eq!(cache.current(), before);
}

#[test]
fn successful_reload_replaces_pipeline() {
    let mut cache = PipelineCache::new();
    cache.begin_reload(&valid_blob(), &valid_blob(), 800, 600).unwrap();
    cache.finish_reload(Some(1), true).unwrap();

    cache.begin_reload(&valid_blob(), &valid_blob(), 800, 600).unwrap();
    cache.finish_reload(Some(2), true).unwrap();
    assert_eq!(cache.current().unwrap().handle, 2);
}

#[test]
fn rebuild_needed_after_extent_change() {
    let mut cache = PipelineCache::new();
    assert!(!cache.needs_rebuild(1024, 768));
    cache.begin_reload(&valid_blob(), &valid_blob(), 800, 600).unwrap();
    cache.finish_reload(Some(1), true).unwrap();
    assert!(!cache.needs_rebuild(800, 600));
    assert!(cache.needs_rebuild(1024, 768));
}
