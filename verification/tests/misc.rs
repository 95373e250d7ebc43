use bana::text::{decimal_string, hex_string, join_path};

#[test]
fn ping_answers_pong_everywhere() {
    assert_eq!(bana::env_scanner::ping(), "pong");
    assert_eq!(bana::toolchain_mgr::ping(), "pong");
    assert_eq!(bana::project_analyzer::ping(), "pong");
    assert_eq!(bana::build_driver::ping(), "pong");
}

#[test]
fn numerals_and_paths() {
    assert_eq!(decimal_string(0), "0");
    assert_eq!(decimal_string(1700000000), "1700000000");
    assert_eq!(decimal_string(u64::MAX), u64::MAX.to_string());
    assert_eq!(hex_string(0xcbf29ce484222325, 16), "cbf29ce484222325");
    assert_eq!(hex_string(255, 4), "00ff");
    assert_eq!(join_path("/a", "b"), "/a/b");
    assert_eq!(join_path("/a/", "b"), "/a/b");
    assert_eq!(join_path("/a", "/b"), "/b");
    assert_eq!(join_path("", "b"), "b");
}
