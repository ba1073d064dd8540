//! Tests of the aisle-configuration pass-through.

use cooklang_core::api::parse_aisle_config;

#[test]
fn aisle_config_round_trips_to_json() {
    let r = parse_aisle_config("[produce]\napples\n").unwrap();
    assert_eq!(
        r,
        "{\"categories\":[{\"name\":\"produce\",\"ingredients\":[{\"names\":[\"apples\"]}]}]}"
    );
}

#[test]
fn aisle_config_error_surfaces_message() {
    let e = parse_aisle_config("[unclosed").unwrap_err();
    assert_eq!(e, "Error parsing input: Expected category");
}
