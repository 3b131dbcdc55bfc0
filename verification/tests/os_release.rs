use vulpecula::infra::packages::os_release::{OSFamily, OsRelease};

const UBUNTU: &str = "PRETTY_NAME=\"Ubuntu 24.04.1 LTS\"\nNAME=\"Ubuntu\"\nVERSION_ID=\"24.04\"\nVERSION=\"24.04.1 LTS (Noble Numbat)\"\nVERSION_CODENAME=noble\nID=ubuntu\nID_LIKE=debian\nHOME_URL=\"https://www.ubuntu.com/\"\n";

#[test]
fn parses_ubuntu_release() {
    let r = OsRelease::parse(UBUNTU);
    assert_eq!(r.pretty_name.as_deref(), Some("Ubuntu 24.04.1 LTS"));
    assert_eq!(r.name.as_deref(), Some("Ubuntu"));
    assert_eq!(r.version_id.as_deref(), Some("24.04"));
    assert_eq!(r.version.as_deref(), Some("24.04.1 LTS (Noble Numbat)"));
    assert_eq!(r.id.as_deref(), Some("ubuntu"));
    assert_eq!(r.id_like, vec!["debian".to_string()]);
    assert!(matches!(r.family(), OSFamily::DEB));
}

#[test]
fn parses_rocky_release_with_several_id_like_tokens() {
    let content = "NAME=\"Rocky Linux\"\nID=\"rocky\"\nID_LIKE=\"rhel centos fedora\"\n";
    let r = OsRelease::parse(content);
    assert_eq!(r.id.as_deref(), Some("rocky"));
    assert_eq!(
        r.id_like,
        vec!["rhel".to_string(), "centos".to_string(), "fedora".to_string()]
    );
    assert!(matches!(r.family(), OSFamily::RPM));
}

#[test]
fn trims_spaces_quotes_and_carriage_returns() {
    let content = "  ID = 'debian' \r\nNAME=\"\"\"Debian GNU/Linux\"\r\nVERSION= \t12 \n";
    let r = OsRelease::parse(content);
    assert_eq!(r.id.as_deref(), Some("debian"));
    assert_eq!(r.name.as_deref(), Some("Debian GNU/Linux"));
    assert_eq!(r.version.as_deref(), Some("12"));
}

#[test]
fn keeps_trailing_carriage_return_of_last_line_then_trims_it() {
    let r = OsRelease::parse("ID=alpine\r");
    assert_eq!(r.id.as_deref(), Some("alpine"));
}

#[test]
fn ignores_comments_unknown_keys_and_lines_without_equals() {
    let content = "# a comment\nBUILD_ID=rolling\njust some text\n\nID=arch\n";
    let r = OsRelease::parse(content);
    assert_eq!(r.id.as_deref(), Some("arch"));
    assert_eq!(r.name, None);
    assert!(r.id_like.is_empty());
    assert!(matches!(r.family(), OSFamily::UNKNOWN));
}

#[test]
fn later_line_with_same_key_wins() {
    let r = OsRelease::parse("ID=fedora\nID=ubuntu\nID_LIKE=rhel\nID_LIKE=\n");
    assert_eq!(r.id.as_deref(), Some("ubuntu"));
    assert!(r.id_like.is_empty());
}

#[test]
fn value_splits_only_at_first_equals() {
    let r = OsRelease::parse("PRETTY_NAME=a=b\n");
    assert_eq!(r.pretty_name.as_deref(), Some("a=b"));
}

#[test]
fn empty_content_has_no_fields() {
    let r = OsRelease::parse("");
    assert_eq!(r.id, None);
    assert_eq!(r.version_id, None);
    assert!(matches!(r.family(), OSFamily::UNKNOWN));
}

#[test]
fn id_decides_before_id_like() {
    let r = OsRelease::parse("ID=fedora\nID_LIKE=debian\n");
    assert!(matches!(r.family(), OSFamily::RPM));
    let r = OsRelease::parse("ID=linuxmint\nID_LIKE=\"ubuntu debian\"\n");
    assert!(matches!(r.family(), OSFamily::DEB));
    let r = OsRelease::parse("ID=amzn\n");
    assert!(matches!(r.family(), OSFamily::RPM));
    let r = OsRelease::parse("ID=opensuse\nID_LIKE=\"suse almalinux\"\n");
    assert!(matches!(r.family(), OSFamily::RPM));
}

#[test]
fn unicode_whitespace_separates_id_like_words() {
    let r = OsRelease::parse("ID_LIKE=\"rhel\u{00A0}fedora\u{3000}centos\"\n");
    assert_eq!(
        r.id_like,
        vec!["rhel".to_string(), "fedora".to_string(), "centos".to_string()]
    );
}
