use masuk::HostConfig;

fn profile(host: &str, user: Option<&str>, port: Option<u16>) -> HostConfig {
    HostConfig::new(host, user.map(|u| u.to_string()), port).unwrap()
}

#[test]
fn new_refuses_an_empty_host() {
    assert!(HostConfig::new("", None, None).is_none());
    assert!(HostConfig::new("", Some("admin".to_string()), Some(22)).is_none());
}

#[test]
fn new_keeps_the_fields() {
    let full = profile("10.0.0.5", Some("admin"), Some(2200));
    assert_eq!(full.host(), "10.0.0.5");
    assert_eq!(full.user(), Some("admin"));
    assert_eq!(full.port(), Some(2200));
    let bare = profile("example.org", None, None);
    assert_eq!(bare.host(), "example.org");
    assert_eq!(bare.user(), None);
    assert_eq!(bare.port(), None);
}

#[test]
fn display_leaves_out_absent_parts() {
    assert_eq!(profile("10.0.0.5", Some("admin"), Some(2200)).display(), "admin@10.0.0.5:2200");
    assert_eq!(profile("10.0.0.5", Some("admin"), None).display(), "admin@10.0.0.5");
    assert_eq!(profile("10.0.0.5", None, Some(22)).display(), "10.0.0.5:22");
    assert_eq!(profile("10.0.0.5", None, None).display(), "10.0.0.5");
}

#[test]
fn display_writes_the_whole_port_range() {
    assert_eq!(profile("h", None, Some(0)).display(), "h:0");
    assert_eq!(profile("h", None, Some(65535)).display(), "h:65535");
}

#[test]
fn target_is_user_at_host() {
    assert_eq!(profile("10.0.0.5", Some("admin"), Some(2200)).target(), "admin@10.0.0.5");
    assert_eq!(profile("10.0.0.5", None, Some(2200)).target(), "10.0.0.5");
}

#[test]
fn arguments_hold_the_port_flag_only_with_a_port() {
    assert_eq!(
        profile("10.0.0.5", Some("admin"), Some(2200)).arguments(),
        vec!["-p".to_string(), "2200".to_string(), "admin@10.0.0.5".to_string()]
    );
    assert_eq!(profile("10.0.0.5", Some("admin"), None).arguments(), vec!["admin@10.0.0.5".to_string()]);
    assert_eq!(profile("10.0.0.5", None, None).arguments(), vec!["10.0.0.5".to_string()]);
}

#[test]
fn clone_keeps_the_fields() {
    let copy = profile("10.0.0.5", Some("admin"), Some(2200)).clone();
    assert_eq!(copy.display(), "admin@10.0.0.5:2200");
}

#[test]
fn same_compares_every_field() {
    let full = profile("10.0.0.5", Some("admin"), Some(2200));
    assert!(full.same(&profile("10.0.0.5", Some("admin"), Some(2200))));
    assert!(!full.same(&profile("10.0.0.6", Some("admin"), Some(2200))));
    assert!(!full.same(&profile("10.0.0.5", Some("root"), Some(2200))));
    assert!(!full.same(&profile("10.0.0.5", None, Some(2200))));
    assert!(!full.same(&profile("10.0.0.5", Some("admin"), Some(22))));
    assert!(!full.same(&profile("10.0.0.5", Some("admin"), None)));
    assert!(profile("h", None, None).same(&profile("h", None, None)));
    assert!(!profile("h", Some(""), None).same(&profile("h", None, None)));
}
