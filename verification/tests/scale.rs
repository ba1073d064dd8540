//! End-to-end tests of the parse-and-scale entry point.

use cooklang_core::api::{parse, parse_and_scale};

const SALT: &str = "---\nservings: 4\n---\n@salt{1%tsp}\nAdd @salt{1%tsp} to taste.";

#[test]
fn scaling_to_double_servings_doubles_numbers() {
    let r = parse_and_scale(SALT, 8, false).unwrap();
    let v: serde_json::Value = serde_json::from_str(&r).unwrap();
    let ingredients = v["ingredients"].as_array().unwrap();
    assert_eq!(ingredients[0]["name"], "salt");
    assert_eq!(ingredients[0]["quantity"]["value"], 2.0);
    assert_eq!(ingredients[0]["quantity"]["unit"], "tsp");
    // the step references the first salt entry with the ingredient tag
    let items = v["sections"][0]["content"][0]["items"].as_array().unwrap();
    assert_eq!(items[0]["type"], "ingredient");
    assert_eq!(items[0]["index"], 0);
}

#[test]
fn end_to_end_scaled_output() {
    let r = parse_and_scale(SALT, 8, false).unwrap();
    assert_eq!(
        r,
        "{\"metadata\":{\"servings\":\"\"},\
         \"ingredients\":[{\"name\":\"salt\",\"quantity\":{\"value\":2.0,\"unit\":\"tsp\"}},{\"name\":\"salt\",\"quantity\":{\"value\":2.0,\"unit\":\"tsp\"}}],\
         \"cookware\":[],\"timers\":[],\
         \"sections\":[{\"content\":[{\"items\":[{\"type\":\"ingredient\",\"index\":0},{\"type\":\"text\",\"value\":\" Add \"},{\"type\":\"ingredient\",\"index\":1},{\"type\":\"text\",\"value\":\" to taste.\"}]}]}],\
         \"warnings\":[]}"
    );
}

#[test]
fn scaling_to_same_servings_is_identity() {
    let scaled = parse_and_scale(SALT, 4, false).unwrap();
    let plain = parse(SALT, false).unwrap();
    assert_eq!(scaled, plain);
}

#[test]
fn scaling_doubles_both_range_bounds_and_keeps_text() {
    let text = "---\nservings: 2\n---\n@water{1-2%l} and @milk{some}";
    let r = parse_and_scale(text, 4, true).unwrap();
    let v: serde_json::Value = serde_json::from_str(&r).unwrap();
    assert_eq!(v["ingredients"][0]["quantity"]["value"]["start"], 2.0);
    assert_eq!(v["ingredients"][0]["quantity"]["value"]["end"], 4.0);
    assert_eq!(v["ingredients"][1]["quantity"]["value"], "some");
}

#[test]
fn missing_servings_metadata_fails_with_message() {
    let e = parse_and_scale("@salt{1%tsp}", 8, false).unwrap_err();
    assert_eq!(
        e,
        "Scaling error: Cannot scale recipe: servings metadata is not a valid number"
    );
}

#[test]
fn parse_errors_short_circuit_scaling() {
    let e = parse_and_scale("@a{1/0}", 8, false).unwrap_err();
    assert_eq!(e, "Division by zero");
}
