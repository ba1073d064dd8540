//! Proved properties of the conversion and serialization layer.

use vstd::prelude::*;
use crate::convert::{
    join_lines, spec_convert_item, spec_convert_recipe,
};
use crate::json::{
    json_str, join_comma, quantity_fields, quantity_json, value_json,
};
use crate::model::{
    ItemModel, ItemOutModel, QuantityOutModel, RecipeModel, ValueModel,
};

verus! {

/// Converting and serializing the same parsed recipe twice yields
/// byte-identical output: the result is a function of the recipe
/// model and the warning list alone, so two results agree.
pub proof fn lemma_convert_deterministic(
    m: RecipeModel,
    warnings: Seq<Seq<char>>,
    a: Seq<char>,
    b: Seq<char>,
)
    requires
        a == crate::json::recipe_json(spec_convert_recipe(m, warnings)),
        b == crate::json::recipe_json(spec_convert_recipe(m, warnings)),
    ensures
        a == b,
{
}

/// Order preservation: the converted entity lists have the same
/// length as the parsed lists, and the entry at every position keeps
/// its position, its name, and (for sections) its section name.
pub proof fn lemma_order_preserved(m: RecipeModel, warnings: Seq<Seq<char>>)
    ensures
        spec_convert_recipe(m, warnings).ingredients.len() == m.ingredients.len(),
        spec_convert_recipe(m, warnings).cookware.len() == m.cookware.len(),
        spec_convert_recipe(m, warnings).timers.len() == m.timers.len(),
        spec_convert_recipe(m, warnings).sections.len() == m.sections.len(),
        forall|i: int| 0 <= i < m.ingredients.len() ==> spec_convert_recipe(
            m,
            warnings,
        ).ingredients[i].name == m.ingredients[i].name,
        forall|i: int| 0 <= i < m.cookware.len() ==> spec_convert_recipe(
            m,
            warnings,
        ).cookware[i].name == m.cookware[i].name,
        forall|i: int| 0 <= i < m.timers.len() ==> spec_convert_recipe(m, warnings).timers[i].name
            == m.timers[i].name,
        forall|i: int| 0 <= i < m.sections.len() ==> spec_convert_recipe(
            m,
            warnings,
        ).sections[i].name == m.sections[i].name,
        forall|i: int| 0 <= i < m.ingredients.len() ==> spec_convert_recipe(
            m,
            warnings,
        ).ingredients[i] == crate::convert::spec_convert_entity(m.ingredients[i]),
        forall|i: int| 0 <= i < m.cookware.len() ==> spec_convert_recipe(m, warnings).cookware[i]
            == crate::convert::spec_convert_entity(m.cookware[i]),
        forall|i: int| 0 <= i < m.timers.len() ==> spec_convert_recipe(m, warnings).timers[i]
            == crate::convert::spec_convert_timer(m.timers[i]),
{
}

/// The diagnostics channel passes through unchanged: the warnings in
/// the output model are exactly the report's warnings, in report
/// order, with no deduplication and no re-sorting.
pub proof fn lemma_warnings_preserved(m: RecipeModel, warnings: Seq<Seq<char>>)
    ensures
        spec_convert_recipe(m, warnings).warnings == warnings,
{
}

/// Reference items keep their index through the conversion, so an
/// index that was valid against the parsed entity lists stays valid
/// against the converted lists of the same length.
pub proof fn lemma_item_index_preserved(it: ItemModel)
    ensures
        (it matches ItemModel::Ingredient { index } ==> spec_convert_item(it)
            == ItemOutModel::Ingredient { index }),
        (it matches ItemModel::Cookware { index } ==> spec_convert_item(it)
            == ItemOutModel::Cookware { index }),
        (it matches ItemModel::Timer { index } ==> spec_convert_item(it) == ItemOutModel::Timer {
            index,
        }),
        (it matches ItemModel::Text { value } ==> spec_convert_item(it) == ItemOutModel::Text {
            value,
        }),
{
}

/// A quantity with a value but no unit serializes without any unit
/// field: the object holds exactly the value field.
pub proof fn lemma_quantity_no_unit(v: ValueModel)
    ensures
        quantity_json(QuantityOutModel { value: Option::Some(v), unit: Option::None }) == seq!['{']
            + "\"value\":"@ + value_json(v) + seq!['}'],
{
    let q = QuantityOutModel { value: Option::Some(v), unit: Option::None };
    let fields = quantity_fields(q);
    assert(fields =~= seq!["\"value\":"@ + value_json(v)]);
    assert(join_comma(fields) == fields[0]);
    assert(seq!['{'] + ("\"value\":"@ + value_json(v)) + seq!['}'] =~= seq!['{'] + "\"value\":"@
        + value_json(v) + seq!['}']);
}

/// A quantity with neither value nor unit serializes as an empty
/// object, never as null fields.
pub proof fn lemma_quantity_empty()
    ensures
        quantity_json(QuantityOutModel { value: Option::None, unit: Option::None }) == seq!['{']
            + seq!['}'],
{
    let q = QuantityOutModel { value: Option::None, unit: Option::None };
    let fields = quantity_fields(q);
    assert(fields =~= Seq::<Seq<char>>::empty());
    assert(seq!['{'] + Seq::<char>::empty() + seq!['}'] =~= seq!['{'] + seq!['}']);
}

/// Two error messages aggregate into one string holding both texts in
/// order, separated by a single newline.
pub proof fn lemma_two_errors_joined(a: Seq<char>, b: Seq<char>)
    ensures
        join_lines(seq![a, b]) == a + seq!['\n'] + b,
{
    let msgs = seq![a, b];
    assert(msgs.drop_last() =~= seq![a]);
    assert(join_lines(seq![a]) == a);
}

/// An inline-quantity item always normalizes to a text item with an
/// empty payload, whatever its index was.
pub proof fn lemma_inline_quantity_normalized(index: int)
    ensures
        spec_convert_item(ItemModel::InlineQuantity { index }) == (ItemOutModel::Text {
            value: Seq::<char>::empty(),
        }),
{
}

/// The serialized text of a step item always carries one of the four
/// output discriminators; the inline-quantity kind can never reach the
/// wire.
pub proof fn lemma_item_closed(it: ItemModel)
    ensures
        spec_convert_item(it) is Text || spec_convert_item(it) is Ingredient || spec_convert_item(
            it,
        ) is Cookware || spec_convert_item(it) is Timer,
{
}

/// A string with no characters needing escape serializes as itself
/// between quotes.
pub proof fn lemma_json_str_plain(s: Seq<char>)
    requires
        forall|i: int| 0 <= i < s.len() ==> s[i] != '"' && s[i] != '\\' && (s[i] as u32) >= 32,
    ensures
        json_str(s) == seq!['"'] + s + seq!['"'],
{
    lemma_esc_plain(s);
}

/// The escaped body of such a string is the string itself.
proof fn lemma_esc_plain(s: Seq<char>)
    requires
        forall|i: int| 0 <= i < s.len() ==> s[i] != '"' && s[i] != '\\' && (s[i] as u32) >= 32,
    ensures
        crate::json::esc_str(s) == s,
    decreases s.len(),
{
    if s.len() == 0 {
        assert(crate::json::esc_str(s) =~= s);
    } else {
        let head = s.drop_last();
        assert(forall|i: int| 0 <= i < head.len() ==> head[i] == s[i]);
        lemma_esc_plain(head);
        assert(crate::json::esc_char(s.last()) == seq![s.last()]);
        assert(head + seq![s.last()] =~= s);
    }
}

} // verus!
