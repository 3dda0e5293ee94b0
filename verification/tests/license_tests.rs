use mercer_voice::license::{check_key, key_format_ok, validate_license_key, KeyFault, LicenseData};

#[test]
fn keys_of_the_right_form_pass() {
    assert_eq!(validate_license_key("VERBA-AB12-CD34-EF56-GH78"), Ok(()));
    assert_eq!(validate_license_key("VERBA-0000-0000-0000-0000"), Ok(()));
    assert_eq!(validate_license_key("VERBA-ZZZZ-9999-A0A0-0A0A"), Ok(()));
}

#[test]
fn case_and_surrounding_space_do_not_count_in_a_key() {
    assert_eq!(validate_license_key("  verba-ab12-cd34-ef56-gh78\n"), Ok(()));
    assert_eq!(validate_license_key("Verba-Ab12-cD34-EF56-gh78"), Ok(()));
}

#[test]
fn the_development_key_passes() {
    assert_eq!(validate_license_key("VERBA-DEV-KEY-0000-0000"), Ok(()));
    assert_eq!(validate_license_key(" verba-dev-key-0000-0000 "), Ok(()));
}

#[test]
fn no_key_is_asked_for() {
    assert_eq!(validate_license_key(""), Err("Please enter a product key".to_string()));
    assert_eq!(validate_license_key("   "), Err("Please enter a product key".to_string()));
}

#[test]
fn keys_of_another_form_are_refused() {
    let refused = Err("Invalid format. Use VERBA-XXXX-XXXX-XXXX-XXXX".to_string());
    assert_eq!(validate_license_key("VERBA"), refused);
    assert_eq!(validate_license_key("VERBA-AB12-CD34-EF56"), refused);
    assert_eq!(validate_license_key("VERBA-AB12-CD34-EF56-GH78-IJ90"), refused);
    assert_eq!(validate_license_key("VERBB-AB12-CD34-EF56-GH78"), refused);
    assert_eq!(validate_license_key("VERBA-AB1-CD345-EF56-GH78"), refused);
    assert_eq!(validate_license_key("VERBA-AB12-CD34-EF56-GH7"), refused);
    assert_eq!(validate_license_key("VERBA-AB12-CD34-EF56-GH789"), refused);
    assert_eq!(validate_license_key("VERBA-AB12-CD34-EF56-GH7_"), refused);
    assert_eq!(validate_license_key("VERBA-AB12-CD34-EF56-GH7É"), refused);
    assert_eq!(validate_license_key("VERBA AB12 CD34 EF56 GH78"), refused);
    assert_eq!(validate_license_key("VERBA-AB12-CD34-EF56--H78"), refused);
    assert_eq!(validate_license_key("XVERBA-AB12-CD34-EF56-GH7"), refused);
    assert_eq!(validate_license_key("VERBA-DEV-KEY-0000-0001"), refused);
}

#[test]
fn the_verdict_is_on_the_normalized_key() {
    assert_eq!(check_key("VERBA-AB12-CD34-EF56-GH78"), Ok(()));
    assert_eq!(check_key("VERBA-ab12-cd34-ef56-gh78"), Ok(()));
    assert_eq!(check_key("verba-AB12-CD34-EF56-GH78"), Err(KeyFault::Format));
    assert_eq!(check_key(" VERBA-AB12-CD34-EF56-GH78"), Err(KeyFault::Format));
    assert_eq!(check_key("verba-dev-key-0000-0000"), Err(KeyFault::Format));
    assert_eq!(check_key(""), Err(KeyFault::Empty));
    assert!(key_format_ok("VERBA-AB12-CD34-EF56-GH78"));
    assert!(!key_format_ok("VERBA-DEV-KEY-0000-0000"));
}

#[test]
fn license_data_holds_the_time_of_activation() {
    let d = LicenseData { activated_at: 1700000000 };
    assert_eq!(d.activated_at, 1700000000);
    assert_eq!(d, d.clone());
}
