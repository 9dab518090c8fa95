use rustcraft::resources::{memory_suffices, memory_warning, SystemResources};

#[test]
fn memory_suffices_when_more_is_free() {
    assert!(memory_suffices(2048, 1024));
    assert!(!memory_suffices(1024, 1024));
    assert!(!memory_suffices(0, 1));
}

#[test]
fn memory_warning_text() {
    assert_eq!(
        memory_warning(512_000, 16_384_000),
        "Not enough memory to load chunks - 512/16384MB free "
    );
    assert_eq!(memory_warning(999, 0), "Not enough memory to load chunks - 0/0MB free ");
}

#[test]
fn system_resources_report_memory() {
    let mut resources = SystemResources::new();
    resources.poll();
    assert!(resources.should_alloc(0) || !resources.should_alloc(u64::MAX));
    assert!(!resources.should_alloc(u64::MAX));
    let warning = resources.memory_warn();
    assert!(warning.starts_with("Not enough memory to load chunks - "));
    assert!(warning.ends_with("MB free "));
}
