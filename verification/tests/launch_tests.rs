use termusic_types::launch::{
    find_server_pid, max_depth_or_default, server_args, server_binary, str_contains, MAX_DEPTH,
};

#[test]
fn contains_finds_substrings() {
    assert!(str_contains("/usr/bin/termusic-server", "termusic-server"));
    assert!(str_contains("abc", ""));
    assert!(str_contains("abc", "abc"));
    assert!(!str_contains("ab", "abc"));
    assert!(!str_contains("/usr/bin/termusic", "termusic-server"));
    assert!(str_contains("ünïcödé", "ïc"));
}

#[test]
fn server_binary_name() {
    assert_eq!(server_binary(), "termusic-server");
}

#[test]
fn finds_first_running_server() {
    let procs = vec![
        (10, "/usr/bin/bash".to_string()),
        (11, "/opt/termusic-server".to_string()),
        (12, "/home/u/.cargo/bin/termusic-server".to_string()),
    ];
    assert_eq!(find_server_pid(&procs), Some(11));
}

#[test]
fn no_server_running() {
    let procs = vec![(1, "/sbin/init".to_string()), (2, "termusic".to_string())];
    assert_eq!(find_server_pid(&procs), None);
    assert_eq!(find_server_pid(&vec![]), None);
}

#[test]
fn server_arguments() {
    assert_eq!(server_args(true), vec!["--log-to-file"]);
    assert!(server_args(false).is_empty());
}

#[test]
fn max_depth_default() {
    assert_eq!(max_depth_or_default(None), MAX_DEPTH);
    assert_eq!(max_depth_or_default(None), 4);
    assert_eq!(max_depth_or_default(Some(9)), 9);
}
