use wsl_plugin_sample::version::{is_wsl_old, WslVersion};

fn release(major: u32, minor: u32, revision: u32) -> WslVersion {
    WslVersion { major, minor, revision }
}

#[test]
fn same_release_is_not_old() {
    assert!(!is_wsl_old(2, 1, 2, &release(2, 1, 2)));
}

#[test]
fn lower_revision_is_old() {
    assert!(is_wsl_old(2, 1, 2, &release(2, 1, 1)));
    assert!(is_wsl_old(2, 1, 2, &release(2, 1, 0)));
}

#[test]
fn higher_revision_is_not_old() {
    assert!(!is_wsl_old(2, 1, 2, &release(2, 1, 3)));
}

#[test]
fn lower_minor_is_old_whatever_the_revision() {
    assert!(is_wsl_old(2, 1, 2, &release(2, 0, 9)));
    assert!(is_wsl_old(2, 1, 2, &release(2, 0, u32::MAX)));
}

#[test]
fn higher_minor_is_not_old_whatever_the_revision() {
    assert!(!is_wsl_old(2, 1, 2, &release(2, 2, 0)));
}

#[test]
fn lower_major_is_old_whatever_follows() {
    assert!(is_wsl_old(2, 1, 2, &release(1, 9, 9)));
    assert!(is_wsl_old(2, 1, 2, &release(1, u32::MAX, u32::MAX)));
    assert!(is_wsl_old(2, 1, 2, &release(0, 0, 0)));
}

#[test]
fn higher_major_is_not_old_whatever_follows() {
    assert!(!is_wsl_old(2, 1, 2, &release(3, 0, 0)));
    assert!(!is_wsl_old(2, 1, 2, &release(u32::MAX, 0, 0)));
}

#[test]
fn nothing_is_older_than_the_first_release() {
    assert!(!is_wsl_old(0, 0, 0, &release(0, 0, 0)));
    assert!(!is_wsl_old(0, 0, 0, &release(5, 4, 3)));
}

#[test]
fn largest_numbers_compare_without_overflow() {
    let top = release(u32::MAX, u32::MAX, u32::MAX);
    assert!(!is_wsl_old(u32::MAX, u32::MAX, u32::MAX, &top));
    assert!(is_wsl_old(u32::MAX, u32::MAX, u32::MAX, &release(u32::MAX, u32::MAX, u32::MAX - 1)));
}

#[test]
fn releases_compare_by_their_fields() {
    assert_eq!(release(2, 1, 2), release(2, 1, 2));
    assert_ne!(release(2, 1, 2), release(2, 2, 1));
}
