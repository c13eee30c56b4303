use tfserver::bench::{default_port, server_bin, ECHO_METHOD_ID};

#[test]
fn ports_per_target() {
    assert_eq!(default_port("tf_plain"), 19001);
    assert_eq!(default_port("tf_enc"), 19002);
    assert_eq!(default_port("axum"), 19003);
    assert_eq!(default_port("actix"), 19004);
    assert_eq!(default_port("lynn"), 19005);
    assert_eq!(default_port("other"), 19000);
    assert_eq!(default_port("tf_plai"), 19000);
    assert_eq!(ECHO_METHOD_ID, 1);
}

#[test]
fn binaries_per_target() {
    assert_eq!(server_bin("tf_plain"), Some("bench_tf_plain_server"));
    assert_eq!(server_bin("tf_enc"), Some("bench_tf_enc_server"));
    assert_eq!(server_bin("axum"), Some("bench_axum_server"));
    assert_eq!(server_bin("actix"), Some("bench_actix_server"));
    assert_eq!(server_bin("lynn"), Some("bench_lynn_server"));
    assert_eq!(server_bin(""), None);
}
