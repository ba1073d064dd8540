//! Conversion from the parsed recipe to the output model.
//!
//! The conversion is total: entity lists are mapped element-wise in
//! order, metadata entries fold into a string mapping (non-string keys
//! or values become the empty string, a repeated key keeps its first
//! position and its last value), only step content of a section is
//! retained, and the inline-quantity item kind normalizes to an empty
//! text item.

use vstd::prelude::*;
use crate::model::{
    ContentModel, EntityModel, EntityOutModel, ItemModel, ItemOutModel, QuantityModel,
    QuantityOutModel, RecipeModel, RecipeOutModel, SectionModel, SectionOutModel, TimerModel,
    TimerOutModel,
};
use crate::output::{
    EntityOutput, ItemOutput, QuantityOutput, RecipeOutput, SectionOutput, SourceItem, StepOutput,
    TimerOutput,
};
use crate::outside::{
    content_count, content_step_len, cookware_count, cookware_parts, errors_of, ingredient_count,
    ingredient_parts, metadata_entries, quantity_model, recipe_model, report_warnings,
    section_count, section_name, step_item, timer_count, timer_parts, unit_out, value_out,
    warnings_of,
};

verus! {

/// The string form of a metadata key: empty when the key is not
/// representable as a string.
pub open spec fn spec_meta_key(p: (Option<Seq<char>>, Option<Seq<char>>)) -> Seq<char> {
    match p.0 {
        Option::Some(k) => k,
        Option::None => Seq::<char>::empty(),
    }
}

/// The string form of a metadata value: empty when not representable.
pub open spec fn spec_meta_val(p: (Option<Seq<char>>, Option<Seq<char>>)) -> Seq<char> {
    match p.1 {
        Option::Some(v) => v,
        Option::None => Seq::<char>::empty(),
    }
}

/// Insertion into a string mapping: a present key keeps its position
/// and takes the new value, a new key goes to the end.
pub open spec fn spec_meta_insert(
    entries: Seq<(Seq<char>, Seq<char>)>,
    k: Seq<char>,
    v: Seq<char>,
) -> Seq<(Seq<char>, Seq<char>)>
    decreases entries.len(),
{
    if entries.len() == 0 {
        seq![(k, v)]
    } else if entries[0].0 == k {
        seq![(k, v)] + entries.drop_first()
    } else {
        seq![entries[0]] + spec_meta_insert(entries.drop_first(), k, v)
    }
}

/// The metadata mapping: every raw entry folded in, in order.
pub open spec fn spec_convert_metadata(
    raw: Seq<(Option<Seq<char>>, Option<Seq<char>>)>,
) -> Seq<(Seq<char>, Seq<char>)>
    decreases raw.len(),
{
    if raw.len() == 0 {
        Seq::<(Seq<char>, Seq<char>)>::empty()
    } else {
        spec_meta_insert(
            spec_convert_metadata(raw.drop_last()),
            spec_meta_key(raw.last()),
            spec_meta_val(raw.last()),
        )
    }
}

/// A converted quantity: the value is always carried over, the unit
/// stays as it was.
pub open spec fn spec_convert_quantity(q: QuantityModel) -> QuantityOutModel {
    QuantityOutModel { value: Option::Some(q.value), unit: q.unit }
}

/// A converted ingredient or cookware entry.
pub open spec fn spec_convert_entity(e: EntityModel) -> EntityOutModel {
    EntityOutModel {
        name: e.name,
        quantity: match e.quantity {
            Option::Some(q) => Option::Some(spec_convert_quantity(q)),
            Option::None => Option::None,
        },
        note: e.note,
    }
}

/// A converted timer entry.
pub open spec fn spec_convert_timer(t: TimerModel) -> TimerOutModel {
    TimerOutModel {
        name: t.name,
        quantity: match t.quantity {
            Option::Some(q) => Option::Some(spec_convert_quantity(q)),
            Option::None => Option::None,
        },
    }
}

/// A converted step item: text and references pass through unchanged,
/// an inline quantity normalizes to an empty text item.
pub open spec fn spec_convert_item(it: ItemModel) -> ItemOutModel {
    match it {
        ItemModel::Text { value } => ItemOutModel::Text { value },
        ItemModel::Ingredient { index } => ItemOutModel::Ingredient { index },
        ItemModel::Cookware { index } => ItemOutModel::Cookware { index },
        ItemModel::Timer { index } => ItemOutModel::Timer { index },
        ItemModel::InlineQuantity { index: _ } => (ItemOutModel::Text {
            value: Seq::<char>::empty(),
        }),
    }
}

/// The retained content of a section: steps mapped item-wise, text
/// paragraphs dropped.
pub open spec fn spec_convert_contents(cs: Seq<ContentModel>) -> Seq<Seq<ItemOutModel>>
    decreases cs.len(),
{
    if cs.len() == 0 {
        Seq::<Seq<ItemOutModel>>::empty()
    } else {
        let rest = spec_convert_contents(cs.drop_last());
        match cs.last() {
            ContentModel::Step { items } => rest.push(
                items.map_values(|it: ItemModel| spec_convert_item(it)),
            ),
            ContentModel::Text => rest,
        }
    }
}

/// A converted section.
pub open spec fn spec_convert_section(s: SectionModel) -> SectionOutModel {
    SectionOutModel { name: s.name, content: spec_convert_contents(s.content) }
}

/// The whole conversion: what the output model holds for a given
/// parsed recipe and warning list.
pub open spec fn spec_convert_recipe(m: RecipeModel, warnings: Seq<Seq<char>>) -> RecipeOutModel {
    RecipeOutModel {
        metadata: spec_convert_metadata(m.metadata),
        ingredients: m.ingredients.map_values(|e: EntityModel| spec_convert_entity(e)),
        cookware: m.cookware.map_values(|e: EntityModel| spec_convert_entity(e)),
        timers: m.timers.map_values(|t: TimerModel| spec_convert_timer(t)),
        sections: m.sections.map_values(|s: SectionModel| spec_convert_section(s)),
        warnings: warnings,
    }
}

/// Messages joined with a single newline between neighbours.
pub open spec fn join_lines(msgs: Seq<Seq<char>>) -> Seq<char>
    decreases msgs.len(),
{
    if msgs.len() == 0 {
        Seq::<char>::empty()
    } else if msgs.len() == 1 {
        msgs[0]
    } else {
        join_lines(msgs.drop_last()) + seq!['\n'] + msgs.last()
    }
}

/// How one more raw entry grows the metadata mapping.
proof fn lemma_convert_metadata_step(raw: Seq<(Option<Seq<char>>, Option<Seq<char>>)>, i: int)
    requires
        0 <= i < raw.len(),
    ensures
        spec_convert_metadata(raw.take(i + 1)) == spec_meta_insert(
            spec_convert_metadata(raw.take(i)),
            spec_meta_key(raw[i]),
            spec_meta_val(raw[i]),
        ),
{
    assert(raw.take(i + 1).drop_last() =~= raw.take(i));
    assert(raw.take(i + 1).last() == raw[i]);
}

/// Insertion at a found key is an update in place.
proof fn lemma_meta_insert_found(
    entries: Seq<(Seq<char>, Seq<char>)>,
    k: Seq<char>,
    v: Seq<char>,
    j: int,
)
    requires
        0 <= j < entries.len(),
        entries[j].0 == k,
        forall|l: int| 0 <= l < j ==> entries[l].0 != k,
    ensures
        spec_meta_insert(entries, k, v) == entries.update(j, (k, v)),
    decreases j,
{
    if j == 0 {
        assert(seq![(k, v)] + entries.drop_first() =~= entries.update(0, (k, v)));
    } else {
        assert(entries[0].0 != k);
        let rest = entries.drop_first();
        assert(rest[j - 1].0 == k);
        assert(forall|l: int| 0 <= l < j - 1 ==> rest[l].0 != k);
        lemma_meta_insert_found(rest, k, v, j - 1);
        assert(seq![entries[0]] + rest.update(j - 1, (k, v)) =~= entries.update(j, (k, v)));
    }
}

/// Insertion of an absent key is a push to the end.
proof fn lemma_meta_insert_absent(entries: Seq<(Seq<char>, Seq<char>)>, k: Seq<char>, v: Seq<char>)
    requires
        forall|l: int| 0 <= l < entries.len() ==> entries[l].0 != k,
    ensures
        spec_meta_insert(entries, k, v) == entries.push((k, v)),
    decreases entries.len(),
{
    if entries.len() == 0 {
        assert(seq![(k, v)] =~= entries.push((k, v)));
    } else {
        let rest = entries.drop_first();
        assert(forall|l: int| 0 <= l < rest.len() ==> rest[l].0 != k);
        lemma_meta_insert_absent(rest, k, v);
        assert(seq![entries[0]] + rest.push((k, v)) =~= entries.push((k, v)));
    }
}

/// How one more content entry grows a section's retained content.
proof fn lemma_convert_contents_step(cs: Seq<ContentModel>, j: int)
    requires
        0 <= j < cs.len(),
    ensures
        spec_convert_contents(cs.take(j + 1)) == (match cs[j] {
            ContentModel::Step { items } => spec_convert_contents(cs.take(j)).push(
                items.map_values(|it: ItemModel| spec_convert_item(it)),
            ),
            ContentModel::Text => spec_convert_contents(cs.take(j)),
        }),
{
    assert(cs.take(j + 1).drop_last() =~= cs.take(j));
    assert(cs.take(j + 1).last() == cs[j]);
}

/// Converts one quantity: the value is mapped through the value
/// conversion, the unit is copied as plain text.
pub fn convert_quantity(q: &cooklang::Quantity) -> (out: QuantityOutput)
    ensures
        out@ == spec_convert_quantity(quantity_model(*q)),
{
    QuantityOutput { value: Option::Some(value_out(q)), unit: unit_out(q) }
}

/// Normalizes one step item: text and references pass through, the
/// inline-quantity kind becomes a text item with an empty payload.
pub fn normalize_item(it: SourceItem) -> (out: ItemOutput)
    ensures
        out@ == spec_convert_item(it@),
{
    match it {
        SourceItem::Text { value } => ItemOutput::Text { value },
        SourceItem::Ingredient { index } => ItemOutput::Ingredient { index },
        SourceItem::Cookware { index } => ItemOutput::Cookware { index },
        SourceItem::Timer { index } => ItemOutput::Timer { index },
        SourceItem::InlineQuantity { index: _ } => ItemOutput::Text { value: String::new() },
    }
}

/// Joins messages with a single newline between neighbours.
pub fn join_error_messages(msgs: &Vec<String>) -> (s: String)
    ensures
        s@ == join_lines(msgs@.map_values(|m: String| m@)),
{
    let ghost viewed = msgs@.map_values(|m: String| m@);
    let mut out = String::new();
    let mut i: usize = 0;
    while i < msgs.len()
        invariant
            viewed == msgs@.map_values(|m: String| m@),
            viewed.len() == msgs@.len(),
            0 <= i <= msgs.len(),
            out@ == join_lines(viewed.take(i as int)),
        decreases msgs@.len() - i,
    {
        if i > 0 {
            crate::outside::push_char(&mut out, '\n');
        }
        out.append(msgs[i].as_str());
        proof {
            assert(viewed.take(i + 1).drop_last() =~= viewed.take(i as int));
            assert(viewed.take(i + 1).last() == viewed[i as int]);
            if i == 0 {
                assert(viewed.take(1) =~= seq![viewed[0]]);
            }
            assert(out@ =~= join_lines(viewed.take(i + 1)));
        }
        i += 1;
    }
    proof {
        assert(viewed.take(msgs@.len() as int) =~= viewed);
    }
    out
}

/// Builds the metadata mapping from the raw entries.
fn convert_metadata(recipe: &cooklang::Recipe) -> (meta: Vec<(String, String)>)
    ensures
        meta@.map_values(|p: (String, String)| (p.0@, p.1@)) == spec_convert_metadata(
            recipe_model(*recipe).metadata,
        ),
{
    let raw = metadata_entries(recipe);
    let ghost raw_model = recipe_model(*recipe).metadata;
    let mut meta: Vec<(String, String)> = Vec::new();
    let mut i: usize = 0;
    while i < raw.len()
        invariant
            raw@.map_values(
                |p: (Option<String>, Option<String>)| (
                    crate::outside::opt_str_view(p.0),
                    crate::outside::opt_str_view(p.1),
                ),
            ) == raw_model,
            raw_model == recipe_model(*recipe).metadata,
            raw_model.len() == raw@.len(),
            0 <= i <= raw.len(),
            meta@.map_values(|p: (String, String)| (p.0@, p.1@)) == spec_convert_metadata(
                raw_model.take(i as int),
            ),
        decreases raw@.len() - i,
    {
        let ghost viewed = meta@.map_values(|p: (String, String)| (p.0@, p.1@));
        let key = match &raw[i].0 {
            Option::Some(s) => s.clone(),
            Option::None => String::new(),
        };
        let val = match &raw[i].1 {
            Option::Some(s) => s.clone(),
            Option::None => String::new(),
        };
        proof {
            assert(raw_model[i as int] == (
                crate::outside::opt_str_view(raw@[i as int].0),
                crate::outside::opt_str_view(raw@[i as int].1),
            ));
            assert(key@ == spec_meta_key(raw_model[i as int]));
            assert(val@ == spec_meta_val(raw_model[i as int]));
        }
        // first-match search for the key
        let mut j: usize = 0;
        let mut found = false;
        while j < meta.len() && !found
            invariant
                viewed == meta@.map_values(|p: (String, String)| (p.0@, p.1@)),
                viewed.len() == meta@.len(),
                0 <= j <= meta.len(),
                !found ==> forall|l: int| 0 <= l < j ==> viewed[l].0 != key@,
                found ==> 1 <= j <= meta.len() && viewed[j - 1].0 == key@ && (forall|l: int|
                    0 <= l < j - 1 ==> viewed[l].0 != key@),
            decreases meta@.len() - j,
        {
            if meta[j].0 == key {
                found = true;
            }
            j += 1;
        }
        if found {
            meta[j - 1] = (key, val);
            proof {
                lemma_meta_insert_found(viewed, key@, val@, j - 1);
                assert(meta@.map_values(|p: (String, String)| (p.0@, p.1@)) =~= viewed.update(
                    j - 1,
                    (key@, val@),
                ));
            }
        } else {
            meta.push((key, val));
            proof {
                lemma_meta_insert_absent(viewed, key@, val@);
                assert(meta@.map_values(|p: (String, String)| (p.0@, p.1@)) =~= viewed.push(
                    (key@, val@),
                ));
            }
        }
        proof {
            lemma_convert_metadata_step(raw_model, i as int);
        }
        i += 1;
    }
    proof {
        assert(raw_model.take(raw@.len() as int) =~= raw_model);
    }
    meta
}

/// Converts the ingredient list element-wise, preserving order.
fn convert_ingredients(recipe: &cooklang::Recipe) -> (v: Vec<EntityOutput>)
    ensures
        v@.map_values(|e: EntityOutput| e@) == recipe_model(*recipe).ingredients.map_values(
            |e: EntityModel| spec_convert_entity(e),
        ),
{
    let ghost model = recipe_model(*recipe).ingredients;
    let n = ingredient_count(recipe);
    let mut v: Vec<EntityOutput> = Vec::new();
    let mut i: usize = 0;
    while i < n
        invariant
            model == recipe_model(*recipe).ingredients,
            n as int == model.len(),
            0 <= i <= n,
            v@.len() == i,
            forall|l: int| 0 <= l < i ==> v@[l]@ == spec_convert_entity(model[l]),
        decreases n - i,
    {
        let parts = ingredient_parts(recipe, i);
        let quantity = match parts.1 {
            Option::Some(q) => Option::Some(convert_quantity(&q)),
            Option::None => Option::None,
        };
        let e = EntityOutput { name: parts.0, quantity, note: parts.2 };
        proof {
            assert(e@ == spec_convert_entity(model[i as int]));
        }
        v.push(e);
        i += 1;
    }
    proof {
        assert(v@.map_values(|e: EntityOutput| e@) =~= model.map_values(
            |e: EntityModel| spec_convert_entity(e),
        ));
    }
    v
}

/// Converts the cookware list element-wise, preserving order.
fn convert_cookware(recipe: &cooklang::Recipe) -> (v: Vec<EntityOutput>)
    ensures
        v@.map_values(|e: EntityOutput| e@) == recipe_model(*recipe).cookware.map_values(
            |e: EntityModel| spec_convert_entity(e),
        ),
{
    let ghost model = recipe_model(*recipe).cookware;
    let n = cookware_count(recipe);
    let mut v: Vec<EntityOutput> = Vec::new();
    let mut i: usize = 0;
    while i < n
        invariant
            model == recipe_model(*recipe).cookware,
            n as int == model.len(),
            0 <= i <= n,
            v@.len() == i,
            forall|l: int| 0 <= l < i ==> v@[l]@ == spec_convert_entity(model[l]),
        decreases n - i,
    {
        let parts = cookware_parts(recipe, i);
        let quantity = match parts.1 {
            Option::Some(q) => Option::Some(convert_quantity(&q)),
            Option::None => Option::None,
        };
        let e = EntityOutput { name: parts.0, quantity, note: parts.2 };
        proof {
            assert(e@ == spec_convert_entity(model[i as int]));
        }
        v.push(e);
        i += 1;
    }
    proof {
        assert(v@.map_values(|e: EntityOutput| e@) =~= model.map_values(
            |e: EntityModel| spec_convert_entity(e),
        ));
    }
    v
}

/// Converts the timer list element-wise, preserving order.
fn convert_timers(recipe: &cooklang::Recipe) -> (v: Vec<TimerOutput>)
    ensures
        v@.map_values(|t: TimerOutput| t@) == recipe_model(*recipe).timers.map_values(
            |t: TimerModel| spec_convert_timer(t),
        ),
{
    let ghost model = recipe_model(*recipe).timers;
    let n = timer_count(recipe);
    let mut v: Vec<TimerOutput> = Vec::new();
    let mut i: usize = 0;
    while i < n
        invariant
            model == recipe_model(*recipe).timers,
            n as int == model.len(),
            0 <= i <= n,
            v@.len() == i,
            forall|l: int| 0 <= l < i ==> v@[l]@ == spec_convert_timer(model[l]),
        decreases n - i,
    {
        let parts = timer_parts(recipe, i);
        let quantity = match parts.1 {
            Option::Some(q) => Option::Some(convert_quantity(&q)),
            Option::None => Option::None,
        };
        let t = TimerOutput { name: parts.0, quantity };
        proof {
            assert(t@ == spec_convert_timer(model[i as int]));
        }
        v.push(t);
        i += 1;
    }
    proof {
        assert(v@.map_values(|t: TimerOutput| t@) =~= model.map_values(
            |t: TimerModel| spec_convert_timer(t),
        ));
    }
    v
}

/// Converts the section list, keeping only step content.
fn convert_sections(recipe: &cooklang::Recipe) -> (v: Vec<SectionOutput>)
    ensures
        v@.map_values(|s: SectionOutput| s@) == recipe_model(*recipe).sections.map_values(
            |s: SectionModel| spec_convert_section(s),
        ),
{
    let ghost model = recipe_model(*recipe).sections;
    let n = section_count(recipe);
    let mut v: Vec<SectionOutput> = Vec::new();
    let mut i: usize = 0;
    while i < n
        invariant
            model == recipe_model(*recipe).sections,
            n as int == model.len(),
            0 <= i <= n,
            v@.len() == i,
            forall|l: int| 0 <= l < i ==> v@[l]@ == spec_convert_section(model[l]),
        decreases n - i,
    {
        let name = section_name(recipe, i);
        let m = content_count(recipe, i);
        let ghost contents = model[i as int].content;
        let mut steps: Vec<StepOutput> = Vec::new();
        let mut j: usize = 0;
        while j < m
            invariant
                model == recipe_model(*recipe).sections,
                0 <= (i as int) < model.len(),
                m as int == contents.len(),
                contents == model[i as int].content,
                0 <= j <= m,
                steps@.map_values(|s: StepOutput| s@) == spec_convert_contents(
                    contents.take(j as int),
                ),
            decreases m - j,
        {
            let ghost steps_viewed = steps@.map_values(|s: StepOutput| s@);
            match content_step_len(recipe, i, j) {
                Option::Some(len) => {
                    let ghost items_model = (match contents[j as int] {
                        ContentModel::Step { items } => items,
                        ContentModel::Text => Seq::<ItemModel>::empty(),
                    });
                    let mut items: Vec<ItemOutput> = Vec::new();
                    let mut k: usize = 0;
                    while k < len
                        invariant
                            model == recipe_model(*recipe).sections,
                            0 <= (i as int) < model.len(),
                            contents == model[i as int].content,
                            0 <= (j as int) < contents.len(),
                            contents[j as int] matches ContentModel::Step { items: itm }
                                && itm == items_model,
                            len as int == items_model.len(),
                            0 <= k <= len,
                            items@.len() == k,
                            forall|l: int| 0 <= l < k ==> items@[l]@ == spec_convert_item(
                                items_model[l],
                            ),
                        decreases len - k,
                    {
                        let it = step_item(recipe, i, j, k);
                        let converted = normalize_item(it);
                        proof {
                            assert(converted@ == spec_convert_item(items_model[k as int]));
                        }
                        items.push(converted);
                        k += 1;
                    }
                    let st = StepOutput { items };
                    proof {
                        assert(st@ =~= items_model.map_values(
                            |it: ItemModel| spec_convert_item(it),
                        ));
                    }
                    steps.push(st);
                    proof {
                        lemma_convert_contents_step(contents, j as int);
                        assert(steps@.map_values(|s: StepOutput| s@) =~= spec_convert_contents(
                            contents.take(j as int + 1),
                        ));
                    }
                },
                Option::None => {
                    proof {
                        lemma_convert_contents_step(contents, j as int);
                        assert(steps@.map_values(|s: StepOutput| s@) =~= spec_convert_contents(
                            contents.take(j as int + 1),
                        ));
                    }
                },
            }
            j += 1;
        }
        let sec = SectionOutput { name, content: steps };
        proof {
            assert(contents.take(m as int) =~= contents);
            assert(sec@.content == spec_convert_contents(contents));
            assert(sec@ == spec_convert_section(model[i as int]));
        }
        v.push(sec);
        i += 1;
    }
    proof {
        assert(v@.map_values(|s: SectionOutput| s@) =~= model.map_values(
            |s: SectionModel| spec_convert_section(s),
        ));
    }
    v
}

/// Converts a parsed recipe and its report into the output model.
///
/// Total: it cannot fail, and it only reads its inputs.  The result is
/// exactly the specified conversion of what the recipe and the
/// report's warning channel hold.
pub fn convert_recipe(recipe: &cooklang::Recipe, report: &cooklang::error::SourceReport) -> (out:
    RecipeOutput)
    ensures
        out@ == spec_convert_recipe(recipe_model(*recipe), report_warnings(*report)),
{
    let out = RecipeOutput {
        metadata: convert_metadata(recipe),
        ingredients: convert_ingredients(recipe),
        cookware: convert_cookware(recipe),
        timers: convert_timers(recipe),
        sections: convert_sections(recipe),
        warnings: warnings_of(report),
    };
    proof {
        assert(out@ == spec_convert_recipe(recipe_model(*recipe), report_warnings(*report)));
    }
    out
}

/// Flattens a report's error channel into one newline-joined message.
pub fn error_message(report: &cooklang::error::SourceReport) -> (s: String)
    ensures
        s@ == join_lines(crate::outside::report_errors(*report)),
{
    let errs = errors_of(report);
    join_error_messages(&errs)
}

} // verus!
