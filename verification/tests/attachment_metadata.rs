use imessage_exporter::attachment_metadata::{from_components, AttachmentMetaSlots, ComponentKind};

use ComponentKind::{NsNumberFloat, NsString, Other};

#[test]
fn reads_each_field_after_its_key() {
    let components = [
        NsString("__kIMFileTransferGUIDAttributeName"),
        NsString("at_0_ABC"),
        NsString("__kIMInlineMediaHeightAttributeName"),
        NsNumberFloat,
        NsString("__kIMInlineMediaWidthAttributeName"),
        NsNumberFloat,
        NsString("__kIMFilenameAttributeName"),
        NsString("IMG_0001.HEIC"),
        NsString("IMAudioTranscription"),
        NsString("Hello there"),
    ];
    assert_eq!(
        from_components(&components),
        Some(AttachmentMetaSlots {
            guid: Some("at_0_ABC"),
            transcription: Some("Hello there"),
            height: Some(3),
            width: Some(5),
            name: Some("IMG_0001.HEIC"),
        })
    );
}

#[test]
fn no_components_give_empty_metadata() {
    assert_eq!(
        from_components(&[]),
        Some(AttachmentMetaSlots {
            guid: None,
            transcription: None,
            height: None,
            width: None,
            name: None,
        })
    );
}

#[test]
fn a_value_of_the_wrong_kind_leaves_the_field_empty() {
    let components = [
        NsString("__kIMInlineMediaHeightAttributeName"),
        NsString("12"),
        NsString("__kIMFilenameAttributeName"),
        NsNumberFloat,
        Other,
    ];
    let meta = from_components(&components).unwrap();
    assert_eq!(meta.height, None);
    assert_eq!(meta.name, None);
}

#[test]
fn the_last_occurrence_of_a_key_wins() {
    let components = [
        NsString("__kIMFilenameAttributeName"),
        NsString("first.png"),
        NsString("__kIMFilenameAttributeName"),
        NsString("second.png"),
    ];
    assert_eq!(from_components(&components).unwrap().name, Some("second.png"));
}

#[test]
fn a_key_at_the_end_gives_no_metadata() {
    let components = [
        NsString("__kIMFileTransferGUIDAttributeName"),
        NsString("at_0_ABC"),
        NsString("__kIMInlineMediaWidthAttributeName"),
    ];
    assert_eq!(from_components(&components), None);
}

#[test]
fn other_strings_are_not_keys() {
    let components = [NsString("__kIMFilenameAttributeNam"), NsString("x")];
    assert_eq!(from_components(&components).unwrap().name, None);
}
