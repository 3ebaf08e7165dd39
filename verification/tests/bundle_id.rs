use imessage_exporter::bundle_id::parse_balloon_bundle_id;

#[test]
fn bundle_id_can_get_no_balloon_bundle_id() {
    assert_eq!(parse_balloon_bundle_id(None), None);
}

#[test]
fn bundle_id_can_get_balloon_bundle_id_os() {
    assert_eq!(
        parse_balloon_bundle_id(Some("com.apple.Handwriting.HandwritingProvider")),
        Some("com.apple.Handwriting.HandwritingProvider")
    );
}

#[test]
fn bundle_id_can_get_balloon_bundle_id_url() {
    assert_eq!(
        parse_balloon_bundle_id(Some("com.apple.messages.URLBalloonProvider")),
        Some("com.apple.messages.URLBalloonProvider")
    );
}

#[test]
fn bundle_id_can_get_balloon_bundle_id_apple() {
    assert_eq!(
        parse_balloon_bundle_id(Some("com.apple.messages.MSMessageExtensionBalloonPlugin:0000000000:com.apple.PassbookUIService.PeerPaymentMessagesExtension")),
        Some("com.apple.PassbookUIService.PeerPaymentMessagesExtension")
    );
}

#[test]
fn bundle_id_can_get_balloon_bundle_id_third_party() {
    assert_eq!(
        parse_balloon_bundle_id(Some("com.apple.messages.MSMessageExtensionBalloonPlugin:QPU8QS3E62:com.contextoptional.OpenTable.Messages")),
        Some("com.contextoptional.OpenTable.Messages")
    );
}

// The same identifiers, as a message's balloon bundle identifier holds them.

#[test]
fn bundle_id_tests_can_get_no_balloon_bundle_id() {
    let balloon_bundle_id: Option<String> = None;
    assert_eq!(parse_balloon_bundle_id(balloon_bundle_id.as_deref()), None);
}

#[test]
fn bundle_id_tests_can_get_balloon_bundle_id_os() {
    let balloon_bundle_id = Some("com.apple.Handwriting.HandwritingProvider".to_owned());
    assert_eq!(
        parse_balloon_bundle_id(balloon_bundle_id.as_deref()),
        Some("com.apple.Handwriting.HandwritingProvider")
    );
}

#[test]
fn bundle_id_tests_can_get_balloon_bundle_id_url() {
    let balloon_bundle_id = Some("com.apple.messages.URLBalloonProvider".to_owned());
    assert_eq!(
        parse_balloon_bundle_id(balloon_bundle_id.as_deref()),
        Some("com.apple.messages.URLBalloonProvider")
    );
}

#[test]
fn bundle_id_tests_can_get_balloon_bundle_id_apple() {
    let balloon_bundle_id = Some("com.apple.messages.MSMessageExtensionBalloonPlugin:0000000000:com.apple.PassbookUIService.PeerPaymentMessagesExtension".to_owned());
    assert_eq!(
        parse_balloon_bundle_id(balloon_bundle_id.as_deref()),
        Some("com.apple.PassbookUIService.PeerPaymentMessagesExtension")
    );
}

#[test]
fn bundle_id_tests_can_get_balloon_bundle_id_third_party() {
    let balloon_bundle_id = Some("com.apple.messages.MSMessageExtensionBalloonPlugin:QPU8QS3E62:com.contextoptional.OpenTable.Messages".to_owned());
    assert_eq!(
        parse_balloon_bundle_id(balloon_bundle_id.as_deref()),
        Some("com.contextoptional.OpenTable.Messages")
    );
}

#[test]
fn balloon_bundle_id_with_two_pieces_is_none() {
    assert_eq!(parse_balloon_bundle_id(Some("plugin:team")), None);
}

#[test]
fn balloon_bundle_id_takes_only_third_piece() {
    assert_eq!(parse_balloon_bundle_id(Some("a:b:c:d")), Some("c"));
    assert_eq!(parse_balloon_bundle_id(Some("a::")), Some(""));
    assert_eq!(parse_balloon_bundle_id(Some("")), Some(""));
    assert_eq!(parse_balloon_bundle_id(Some("é:ü:ñ")), Some("ñ"));
}
