//! Direct tests of the verified JSON serializer and item normalization.

use cooklang_core::json::{write_dec, write_json_string, write_item, write_quantity, render_recipe};
use cooklang_core::convert::normalize_item;
use cooklang_core::output::{
    EntityOutput, ItemOutput, QuantityOutput, RecipeOutput, SectionOutput, SourceItem, StepOutput,
    TimerOutput, ValueOutput,
};

#[test]
fn quantity_without_unit_has_no_unit_field() {
    let q = QuantityOutput {
        value: Some(ValueOutput::Number { repr: "1.0".to_string() }),
        unit: None,
    };
    let mut s = String::new();
    write_quantity(&mut s, &q);
    assert_eq!(s, "{\"value\":1.0}");
    assert!(!s.contains("unit"));
}

#[test]
fn quantity_with_neither_field_is_empty_object() {
    let q = QuantityOutput { value: None, unit: None };
    let mut s = String::new();
    write_quantity(&mut s, &q);
    assert_eq!(s, "{}");
    assert!(!s.contains("null"));
}

#[test]
fn quantity_with_both_fields() {
    let q = QuantityOutput {
        value: Some(ValueOutput::Text { value: "some".to_string() }),
        unit: Some("g".to_string()),
    };
    let mut s = String::new();
    write_quantity(&mut s, &q);
    assert_eq!(s, "{\"value\":\"some\",\"unit\":\"g\"}");
}

#[test]
fn quantity_with_only_unit() {
    let q = QuantityOutput { value: None, unit: Some("g".to_string()) };
    let mut s = String::new();
    write_quantity(&mut s, &q);
    assert_eq!(s, "{\"unit\":\"g\"}");
}

#[test]
fn range_value_renders_as_object() {
    let q = QuantityOutput {
        value: Some(ValueOutput::Range { start: "1.0".to_string(), end: "2.0".to_string() }),
        unit: Some("l".to_string()),
    };
    let mut s = String::new();
    write_quantity(&mut s, &q);
    assert_eq!(s, "{\"value\":{\"start\":1.0,\"end\":2.0},\"unit\":\"l\"}");
}

#[test]
fn string_escaping_matches_json_rules() {
    let mut s = String::new();
    write_json_string(&mut s, "a\"b\\c\nd\u{1}\u{8}\te");
    assert_eq!(s, "\"a\\\"b\\\\c\\nd\\u0001\\b\\te\"");
}

#[test]
fn non_ascii_passes_through_unescaped() {
    let mut s = String::new();
    write_json_string(&mut s, "café ★");
    assert_eq!(s, "\"café ★\"");
}

#[test]
fn decimal_digits() {
    let mut s = String::new();
    write_dec(&mut s, 0);
    assert_eq!(s, "0");
    let mut s2 = String::new();
    write_dec(&mut s2, 1204);
    assert_eq!(s2, "1204");
}

#[test]
fn inline_quantity_normalizes_to_empty_text() {
    let out = normalize_item(SourceItem::InlineQuantity { index: 7 });
    match out {
        ItemOutput::Text { value } => assert_eq!(value, ""),
        _ => panic!("inline quantity must normalize to a text item"),
    }
}

#[test]
fn reference_items_keep_their_index() {
    match normalize_item(SourceItem::Ingredient { index: 3 }) {
        ItemOutput::Ingredient { index } => assert_eq!(index, 3),
        _ => panic!("wrong variant"),
    }
    match normalize_item(SourceItem::Timer { index: 9 }) {
        ItemOutput::Timer { index } => assert_eq!(index, 9),
        _ => panic!("wrong variant"),
    }
}

#[test]
fn item_discriminators() {
    let mut s = String::new();
    write_item(&mut s, &ItemOutput::Cookware { index: 2 });
    assert_eq!(s, "{\"type\":\"cookware\",\"index\":2}");
    let mut s2 = String::new();
    write_item(&mut s2, &ItemOutput::Text { value: "mix".to_string() });
    assert_eq!(s2, "{\"type\":\"text\",\"value\":\"mix\"}");
}

#[test]
fn whole_model_renders_with_stable_keys() {
    let rec = RecipeOutput {
        metadata: vec![
            ("servings".to_string(), "4".to_string()),
            ("title".to_string(), "Toast".to_string()),
        ],
        ingredients: vec![EntityOutput {
            name: "bread".to_string(),
            quantity: Some(QuantityOutput {
                value: Some(ValueOutput::Number { repr: "2.0".to_string() }),
                unit: None,
            }),
            note: Some("stale".to_string()),
        }],
        cookware: vec![EntityOutput { name: "toaster".to_string(), quantity: None, note: None }],
        timers: vec![TimerOutput {
            name: None,
            quantity: Some(QuantityOutput {
                value: Some(ValueOutput::Number { repr: "3.0".to_string() }),
                unit: Some("min".to_string()),
            }),
        }],
        sections: vec![SectionOutput {
            name: None,
            content: vec![StepOutput {
                items: vec![
                    ItemOutput::Text { value: "Toast ".to_string() },
                    ItemOutput::Ingredient { index: 0 },
                ],
            }],
        }],
        warnings: vec!["careful".to_string()],
    };
    let s = render_recipe(&rec);
    assert_eq!(
        s,
        "{\"metadata\":{\"servings\":\"4\",\"title\":\"Toast\"},\
         \"ingredients\":[{\"name\":\"bread\",\"quantity\":{\"value\":2.0},\"note\":\"stale\"}],\
         \"cookware\":[{\"name\":\"toaster\"}],\
         \"timers\":[{\"quantity\":{\"value\":3.0,\"unit\":\"min\"}}],\
         \"sections\":[{\"content\":[{\"items\":[{\"type\":\"text\",\"value\":\"Toast \"},{\"type\":\"ingredient\",\"index\":0}]}]}],\
         \"warnings\":[\"careful\"]}"
    );
}
