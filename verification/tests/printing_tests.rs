use chronosnap::printing::{decode_photo_payload, find_printer, test_page_text, PrinterInfo};

fn printer(name: &str, system_name: &str) -> PrinterInfo {
    PrinterInfo {
        name: name.to_owned(),
        system_name: system_name.to_owned(),
        is_default: false,
        is_shared: false,
        driver_name: "generic".to_owned(),
        uri: "".to_owned(),
        state: "READY".to_owned(),
    }
}

#[test]
fn find_printer_matches_display_name() {
    let list = vec![printer("Office", "office_1"), printer("Lobby", "lobby_1")];
    assert_eq!(find_printer(&list, &"Lobby".to_owned()), Some(1));
}

#[test]
fn find_printer_matches_system_name() {
    let list = vec![printer("Office", "office_1"), printer("Lobby", "lobby_1")];
    assert_eq!(find_printer(&list, &"office_1".to_owned()), Some(0));
}

#[test]
fn find_printer_returns_first_match() {
    let list = vec![printer("Twin", "a"), printer("Twin", "b")];
    assert_eq!(find_printer(&list, &"Twin".to_owned()), Some(0));
}

#[test]
fn find_printer_reports_absence() {
    let list = vec![printer("Office", "office_1")];
    assert_eq!(find_printer(&list, &"Basement".to_owned()), None);
}

#[test]
fn test_page_embeds_every_field() {
    let page = test_page_text(
        &"Office".to_owned(),
        &"generic-driver".to_owned(),
        &"READY".to_owned(),
        &"2024-01-02 03:04:05".to_owned(),
    );
    let expected = format!(
        "\nChronoSnap Printer Test Page\n=============================\n\nPrinter: {}\nDriver: {}\nStatus: {}\n\nIf you can read this clearly, your printer is working correctly!\n\nColors: [Black] [Cyan] [Magenta] [Yellow]\n\nTest printed at: {}\n\nChronoSnap Photobooth System\n",
        "Office", "generic-driver", "READY", "2024-01-02 03:04:05",
    );
    assert_eq!(page, expected);
}

#[test]
fn photo_payload_strips_a_data_url_wrapper() {
    let data = b"data:image/png;base64,QUJD".to_vec();
    let decoded = decode_photo_payload(&data).expect("payload should decode");
    assert_eq!(decoded, b"ABC".to_vec());
}

#[test]
fn bare_base64_passes_through_whole() {
    let decoded = decode_photo_payload(&b"QUJD".to_vec()).expect("payload should decode");
    assert_eq!(decoded, b"ABC".to_vec());
}

#[test]
fn data_url_without_comma_is_invalid() {
    let err = decode_photo_payload(&b"data:imageAAAA".to_vec()).unwrap_err();
    assert_eq!(err, "Invalid image data format");
}

#[test]
fn data_url_with_bad_base64_reports_decode_error() {
    assert!(decode_photo_payload(&b"data:image/png;base64,!!!".to_vec()).is_err());
}
