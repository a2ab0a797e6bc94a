use jsync::dialog::warm_up;
use jsync::notification::notification_script;
use jsync::permissions::full_disk_probe_paths;

#[test]
fn the_notification_script_quotes_its_texts() {
    assert_eq!(
        notification_script("Backup", "All done"),
        "display notification \"All done\" with title \"Backup\" sound name \"Default\""
    );
    assert_eq!(
        notification_script("A \"title\"", "say \"hi\""),
        "display notification \"say \\\"hi\\\"\" with title \"A \\\"title\\\"\" sound name \"Default\""
    );
    assert_eq!(
        notification_script("", ""),
        "display notification \"\" with title \"\" sound name \"Default\""
    );
}

#[test]
fn the_folders_that_tell_full_disk_access() {
    assert_eq!(
        full_disk_probe_paths("/Users/me"),
        vec!["/Library/Application Support/com.apple.TCC", "/Users/me/Library/Safari"]
    );
    assert_eq!(
        full_disk_probe_paths(""),
        vec!["/Library/Application Support/com.apple.TCC", "/Library/Safari"]
    );
}

#[test]
fn warming_up_needs_nothing() {
    warm_up();
}
