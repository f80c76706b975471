//! Tests of socket-path tilde expansion.

use helix_core::daemon::paths::{expand_tilde, expand_tilde_with};

#[test]
fn test_expand_tilde() {
    let expanded = expand_tilde("~/.helix/run/helixd.sock");
    assert!(!expanded.starts_with('~'));
    assert!(expanded.contains(".helix/run/helixd.sock"));
}

#[test]
fn test_expand_tilde_no_tilde() {
    let path = "/tmp/test.sock";
    assert_eq!(expand_tilde(path), path);
}

#[test]
fn expand_tilde_with_known_home() {
    let home = "/home/u".to_string();
    assert_eq!(
        expand_tilde_with("~/x/y.sock", Some(&home)),
        "/home/u/x/y.sock"
    );
    assert_eq!(expand_tilde_with("~/x", None), "~/x");
    assert_eq!(expand_tilde_with("/abs/x", Some(&home)), "/abs/x");
    assert_eq!(expand_tilde_with("~", Some(&home)), "~");
}
