use phi_bitwarden_helper::device::{
    client_settings, data_dir, device_id_path, hex, stored_device_id, uuid_v4, DeviceType,
};

#[test]
fn settings_default_to_the_us_cloud() {
    let s = client_settings("1.2.3", "dev-1", None, Some(""));
    assert_eq!(s.identity_url, "https://identity.bitwarden.com");
    assert_eq!(s.api_url, "https://api.bitwarden.com");
    assert_eq!(s.user_agent, "PhiBitwardenHelper/1.2.3");
    assert_eq!(s.device_type, DeviceType::MacOsCLI);
    assert_eq!(s.device_identifier, "dev-1");
    assert_eq!(s.client_version, "2026.6.0");
    assert_eq!(s.package_type, "cli");
}

#[test]
fn settings_take_the_servers_they_are_given() {
    let s = client_settings("1", "d", Some("https://id.eu"), Some("https://api.eu"));
    assert_eq!(s.identity_url, "https://id.eu");
    assert_eq!(s.api_url, "https://api.eu");
}

#[test]
fn the_identifier_lives_in_the_browsers_folder() {
    assert_eq!(data_dir(Some("/phi"), Some("/home/a")), "/phi");
    assert_eq!(
        data_dir(Some(""), Some("/home/a")),
        "/home/a/Library/Application Support/PhiBitwardenHelper"
    );
    assert_eq!(data_dir(None, None), "/tmp/Library/Application Support/PhiBitwardenHelper");
    assert_eq!(device_id_path("/phi"), "/phi/bitwarden-device-id");
}

#[test]
fn stored_identifiers_are_trimmed() {
    assert_eq!(stored_device_id(Some(" abc\n")), Some("abc".to_string()));
    assert_eq!(stored_device_id(Some(" \n")), None);
    assert_eq!(stored_device_id(None), None);
}

#[test]
fn hexadecimal_is_lower_case_and_padded() {
    assert_eq!(hex(&[]), "");
    assert_eq!(hex(&[0x00, 0x0f, 0xa0, 0xff]), "000fa0ff");
}

#[test]
fn uuids_carry_version_and_variant() {
    assert_eq!(uuid_v4([0; 16]), "00000000-0000-4000-8000-000000000000");
    assert_eq!(uuid_v4([0xff; 16]), "ffffffff-ffff-4fff-bfff-ffffffffffff");
    let bytes: [u8; 16] = core::array::from_fn(|i| i as u8);
    assert_eq!(uuid_v4(bytes), "00010203-0405-4607-8809-0a0b0c0d0e0f");
}

#[test]
fn a_written_identifier_is_read_back() {
    let id = uuid_v4([0x5a; 16]);
    assert_eq!(id, "5a5a5a5a-5a5a-4a5a-9a5a-5a5a5a5a5a5a");
    assert_eq!(stored_device_id(Some(&id)), Some(id.clone()));
    assert_eq!(stored_device_id(Some(&format!("{id}\n"))), Some(id));
}
