use dyncert::store::record_paths;

#[test]
fn record_paths_follow_the_layout() {
    let paths = record_paths("example.test");
    assert_eq!(paths.dir, ".odd_box_cache/example.test");
    assert_eq!(paths.cert, ".odd_box_cache/example.test/cert.pem");
    assert_eq!(paths.key, ".odd_box_cache/example.test/key.pem");
}
