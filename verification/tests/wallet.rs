use monero_block_explorer::wallet::{
    encode_qr_svg, try_wallet_qr_code, wallet_address_uri, wallet_qr_code, QrCodeFailure,
};

#[test]
fn uri_with_no_parameters() {
    let uri = wallet_address_uri("44Addr", None, None, None, None);
    assert_eq!(uri, "monero:44Addr&tx_amount=&tx_description=&recipient_name=&tx_payment_id=");
}

#[test]
fn uri_with_all_parameters() {
    let uri = wallet_address_uri(
        "44Addr",
        Some("1.5".to_string()),
        Some("coffee".to_string()),
        Some("Bob".to_string()),
        Some("abcd".to_string()),
    );
    assert_eq!(uri, "monero:44Addr&tx_amount=1.5&tx_description=coffee&recipient_name=Bob&tx_payment_id=abcd");
}

#[test]
fn uri_with_some_parameters() {
    let uri = wallet_address_uri("X", Some("2".to_string()), None, Some("Al".to_string()), None);
    assert_eq!(uri, "monero:X&tx_amount=2&tx_description=&recipient_name=Al&tx_payment_id=");
}

#[test]
fn svg_is_encoded_in_base64() {
    assert_eq!(encode_qr_svg("hello"), "aGVsbG8=");
    assert_eq!(encode_qr_svg(""), "");
    assert_eq!(encode_qr_svg("<svg/>"), "PHN2Zy8+");
}

#[test]
fn qr_code_is_a_base64_svg() {
    let uri = wallet_address_uri("44Addr", None, None, None, None);
    let code = wallet_qr_code(&uri);
    assert_eq!(try_wallet_qr_code(&uri), Ok(code.clone()));
    let svg = String::from_utf8(base64::decode(&code).unwrap()).unwrap();
    assert!(svg.starts_with("<?xml"));
    assert!(svg.contains("<svg width=\"256\" height=\"256\""));
}

#[test]
fn too_long_data_cannot_be_drawn() {
    let uri = "x".repeat(10_000);
    assert_eq!(try_wallet_qr_code(&uri), Err(QrCodeFailure::Unrenderable));
}

#[test]
fn uris_of_738_code_points_always_get_a_code() {
    // Multi-byte characters push the UTF-8 length near the byte-mode limit.
    let uri = "\u{1F600}".repeat(738);
    assert!(try_wallet_qr_code(&uri).is_ok());
    let uri = "monero:".to_string() + &"4".repeat(731);
    assert!(try_wallet_qr_code(&uri).is_ok());
}

#[test]
fn long_ascii_uris_beyond_the_bound_can_still_be_drawn() {
    let uri = "a".repeat(2000);
    assert!(try_wallet_qr_code(&uri).is_ok());
}

#[test]
fn svg_encoding_pads_to_four_characters() {
    assert_eq!(encode_qr_svg("h"), "aA==");
    assert_eq!(encode_qr_svg("hi"), "aGk=");
    assert_eq!(encode_qr_svg("hel"), "aGVs");
    assert_eq!(encode_qr_svg("\u{ff}"), "w78=");
    assert_eq!(encode_qr_svg("\u{3ff}\u{3ff}\u{3ff}"), "z7/Pv8+/");
}
