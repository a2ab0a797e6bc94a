use jsync::destinations::{classify_destination, detect_destination_type, parse_destination};

fn detect(path: &str) -> (String, String) {
    detect_destination_type(path)
}

fn pair(label: &str, kind: &str) -> (String, String) {
    (label.to_string(), kind.to_string())
}

#[test]
fn cloud_services_are_known_by_name() {
    assert_eq!(detect("/Users/me/Dropbox/Backups"), pair("Dropbox", "cloud"));
    assert_eq!(detect("/Users/me/Google Drive/x"), pair("Google Drive", "cloud"));
    assert_eq!(detect("/Users/me/GoogleDrive"), pair("Google Drive", "cloud"));
    assert_eq!(detect("/Users/me/OneDrive - Work"), pair("OneDrive", "cloud"));
    assert_eq!(detect("/Users/me/Library/Mobile Documents/iCloud"), pair("iCloud", "cloud"));
    assert_eq!(detect("/Volumes/DROPBOX"), pair("Dropbox", "cloud"));
}

#[test]
fn the_first_service_named_wins() {
    assert_eq!(detect("/onedrive/dropbox"), pair("Dropbox", "cloud"));
    assert_eq!(detect("/icloud/onedrive"), pair("OneDrive", "cloud"));
}

#[test]
fn external_volumes_are_labelled_by_the_volume() {
    assert_eq!(detect("/Volumes/Backup Disk/photos"), pair("Backup Disk", "external"));
    assert_eq!(detect("/Volumes/Backup"), pair("Backup", "external"));
    assert_eq!(detect("/Volumes/"), pair("", "external"));
    assert_eq!(detect("/Volumes//x"), pair("", "external"));
}

#[test]
fn network_locations() {
    assert_eq!(detect("/net/server/share"), pair("share", "network"));
    assert_eq!(detect("smb://server/share"), pair("share", "network"));
    assert_eq!(detect("afp://server/photos/"), pair("photos", "network"));
    assert_eq!(detect("/net/.."), pair("Network", "network"));
}

#[test]
fn everything_else_is_local() {
    assert_eq!(detect("/Users/me/Backups"), pair("Backups", "local"));
    assert_eq!(detect("/volumes/x"), pair("x", "local"));
    assert_eq!(detect("/"), pair("Local", "local"));
    assert_eq!(detect(""), pair("Local", "local"));
    assert_eq!(detect("/network/x"), pair("x", "local"));
}

#[test]
fn classification_from_given_parts() {
    assert_eq!(
        classify_destination("/A/B", "/a/dropbox", Some("B".to_string())),
        pair("Dropbox", "cloud")
    );
    assert_eq!(classify_destination("/A/B", "/a/b", None), pair("Local", "local"));
    assert_eq!(
        classify_destination("/A/B", "/a/b", Some("other".to_string())),
        pair("other", "local")
    );
    assert_eq!(classify_destination("smb://s", "smb://s", None), pair("Network", "network"));
    assert_eq!(
        classify_destination("/Volumes/Disk/x", "", Some("x".to_string())),
        pair("Disk", "external")
    );
}

#[test]
fn a_parsed_destination_is_enabled() {
    let destination = parse_destination("/Volumes/Backup/shoots".to_string(), 1_700_000_000_123);
    assert_eq!(destination.id, 1_700_000_000_123);
    assert_eq!(destination.path, "/Volumes/Backup/shoots");
    assert_eq!(destination.label, "Backup");
    assert_eq!(destination.destination_type, "external");
    assert!(destination.enabled);
}
