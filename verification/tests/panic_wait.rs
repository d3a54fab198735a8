use kernel_platform::panic_wait::panic_prevent_reenter;

#[test]
fn only_the_first_panic_reports() {
    let mut in_progress = false;
    assert!(panic_prevent_reenter(&mut in_progress));
    assert!(in_progress);
    assert!(!panic_prevent_reenter(&mut in_progress));
    assert!(in_progress);
    assert!(!panic_prevent_reenter(&mut in_progress));
    assert!(in_progress);
}
