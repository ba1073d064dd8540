//! End-to-end tests of the parse entry point against the real parser.

use cooklang_core::api::parse;

#[test]
fn simple_recipe_full_output() {
    let r = parse("@salt{1%tsp}\nAdd @salt{1%tsp} to taste.", false).unwrap();
    assert_eq!(
        r,
        "{\"metadata\":{},\
         \"ingredients\":[{\"name\":\"salt\",\"quantity\":{\"value\":1.0,\"unit\":\"tsp\"}},{\"name\":\"salt\",\"quantity\":{\"value\":1.0,\"unit\":\"tsp\"}}],\
         \"cookware\":[],\"timers\":[],\
         \"sections\":[{\"content\":[{\"items\":[{\"type\":\"ingredient\",\"index\":0},{\"type\":\"text\",\"value\":\" Add \"},{\"type\":\"ingredient\",\"index\":1},{\"type\":\"text\",\"value\":\" to taste.\"}]}]}],\
         \"warnings\":[]}"
    );
}

#[test]
fn converting_twice_is_byte_identical() {
    let text = "Beat @eggs{3} in #bowl{} for ~{10%minutes}.";
    let a = parse(text, false).unwrap();
    let b = parse(text, false).unwrap();
    assert_eq!(a, b);
}

#[test]
fn entity_kinds_and_anonymous_timer() {
    let r = parse("Beat @eggs{3} in #bowl{} for ~{10%minutes}.", false).unwrap();
    assert_eq!(
        r,
        "{\"metadata\":{},\
         \"ingredients\":[{\"name\":\"eggs\",\"quantity\":{\"value\":3.0}}],\
         \"cookware\":[{\"name\":\"bowl\"}],\
         \"timers\":[{\"quantity\":{\"value\":10.0,\"unit\":\"minutes\"}}],\
         \"sections\":[{\"content\":[{\"items\":[{\"type\":\"text\",\"value\":\"Beat \"},{\"type\":\"ingredient\",\"index\":0},{\"type\":\"text\",\"value\":\" in \"},{\"type\":\"cookware\",\"index\":0},{\"type\":\"text\",\"value\":\" for \"},{\"type\":\"timer\",\"index\":0},{\"type\":\"text\",\"value\":\".\"}]}]}],\
         \"warnings\":[]}"
    );
}

#[test]
fn list_order_follows_source_order() {
    let r = parse("@aa{} @bb{} @cc{} with #pp{} #qq{}", false).unwrap();
    let v: serde_json::Value = serde_json::from_str(&r).unwrap();
    let ingredients = v["ingredients"].as_array().unwrap();
    assert_eq!(ingredients.len(), 3);
    assert_eq!(ingredients[0]["name"], "aa");
    assert_eq!(ingredients[1]["name"], "bb");
    assert_eq!(ingredients[2]["name"], "cc");
    let cookware = v["cookware"].as_array().unwrap();
    assert_eq!(cookware[0]["name"], "pp");
    assert_eq!(cookware[1]["name"], "qq");
    // every reference index stays valid against those same lists
    let items = v["sections"][0]["content"][0]["items"].as_array().unwrap();
    for it in items {
        match it["type"].as_str().unwrap() {
            "ingredient" => {
                let idx = it["index"].as_u64().unwrap() as usize;
                assert!(idx < ingredients.len());
            }
            "cookware" => {
                let idx = it["index"].as_u64().unwrap() as usize;
                assert!(idx < cookware.len());
            }
            _ => {}
        }
    }
    // reference order matches source order
    let refs: Vec<(String, u64)> = items
        .iter()
        .filter(|it| it["type"] != "text")
        .map(|it| (it["type"].as_str().unwrap().to_string(), it["index"].as_u64().unwrap()))
        .collect();
    assert_eq!(
        refs,
        vec![
            ("ingredient".to_string(), 0),
            ("ingredient".to_string(), 1),
            ("ingredient".to_string(), 2),
            ("cookware".to_string(), 0),
            ("cookware".to_string(), 1),
        ]
    );
}

#[test]
fn two_errors_join_with_one_newline() {
    let e = parse("@a{1/0}\n\n@b{1/0}", false).unwrap_err();
    assert_eq!(e, "Division by zero\nDivision by zero");
}

#[test]
fn sections_notes_and_escaped_names() {
    let r = parse(
        "= Dough\n\n@flour{200%g}(sifted) and @\"weird \\\"name\"{}\n\n> just a note paragraph\n\n= Baking =\n\nBake it.",
        true,
    )
    .unwrap();
    assert_eq!(
        r,
        "{\"metadata\":{},\
         \"ingredients\":[{\"name\":\"flour\",\"quantity\":{\"value\":200.0,\"unit\":\"g\"},\"note\":\"sifted\"},{\"name\":\"\\\"weird \\\"name\\\"\"}],\
         \"cookware\":[],\"timers\":[],\
         \"sections\":[{\"name\":\"Dough\",\"content\":[{\"items\":[{\"type\":\"ingredient\",\"index\":0},{\"type\":\"text\",\"value\":\" and \"},{\"type\":\"ingredient\",\"index\":1}]}]},{\"name\":\"Baking\",\"content\":[{\"items\":[{\"type\":\"text\",\"value\":\"Bake it.\"}]}]}],\
         \"warnings\":[]}"
    );
}

#[test]
fn range_and_text_values() {
    let r = parse("@water{1-2%l} and @milk{some}", true).unwrap();
    let v: serde_json::Value = serde_json::from_str(&r).unwrap();
    assert_eq!(v["ingredients"][0]["quantity"]["value"]["start"], 1.0);
    assert_eq!(v["ingredients"][0]["quantity"]["value"]["end"], 2.0);
    assert_eq!(v["ingredients"][0]["quantity"]["unit"], "l");
    assert_eq!(v["ingredients"][1]["quantity"]["value"], "some");
}

#[test]
fn non_string_metadata_becomes_empty_strings() {
    // numeric keys are not string-representable: both entries collapse to
    // the empty-string key, the later value winning
    let r = parse("---\n1: a\n2: b\n---\nJust a step.", false).unwrap();
    let v: serde_json::Value = serde_json::from_str(&r).unwrap();
    assert_eq!(v["metadata"]["" ], "b");
    assert_eq!(v["metadata"].as_object().unwrap().len(), 1);
}

#[test]
fn warning_surfaces_in_output() {
    let r = parse("@+salt{1}", true).unwrap();
    let v: serde_json::Value = serde_json::from_str(&r).unwrap();
    let warnings = v["warnings"].as_array().unwrap();
    assert!(!warnings.is_empty());
    assert!(warnings[0].as_str().unwrap().contains("Redundant new"));
}

#[test]
fn string_metadata_is_kept_verbatim() {
    let r = parse("---\ntitle: Cake\nauthor: me\n---\nMix it.", false).unwrap();
    let v: serde_json::Value = serde_json::from_str(&r).unwrap();
    assert_eq!(v["metadata"]["title"], "Cake");
    assert_eq!(v["metadata"]["author"], "me");
    assert_eq!(v["metadata"].as_object().unwrap().len(), 2);
}
