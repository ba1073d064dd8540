//! Canonical JSON rendering of the output model.
//!
//! The wire shape is fixed field-for-field: object keys appear in
//! declaration order, optional fields that are absent are omitted
//! entirely, and strings are escaped exactly as the standard JSON
//! escape rules demand.  The `*_json` spec functions state the exact
//! character sequence; the `write_*` functions produce it.

use vstd::prelude::*;
use vstd::string::StringExecFns;
use vstd::string::StrSliceExecFns;
use crate::model::{
    EntityOutModel, ItemOutModel, QuantityOutModel, RecipeOutModel, SectionOutModel, TimerOutModel,
    ValueModel,
};
use crate::output::{
    EntityOutput, ItemOutput, QuantityOutput, RecipeOutput, SectionOutput, StepOutput, TimerOutput,
    ValueOutput,
};
use crate::outside::push_char;

verus! {

/// The hexadecimal digit character for a value below sixteen.
pub open spec fn hex_digit(n: int) -> char {
    if n == 0 { '0' }
    else if n == 1 { '1' }
    else if n == 2 { '2' }
    else if n == 3 { '3' }
    else if n == 4 { '4' }
    else if n == 5 { '5' }
    else if n == 6 { '6' }
    else if n == 7 { '7' }
    else if n == 8 { '8' }
    else if n == 9 { '9' }
    else if n == 10 { 'a' }
    else if n == 11 { 'b' }
    else if n == 12 { 'c' }
    else if n == 13 { 'd' }
    else if n == 14 { 'e' }
    else { 'f' }
}

/// The JSON escape of one character: quotes and backslashes get a
/// backslash, control characters get their short escape or `\u00XX`,
/// everything else stands for itself.
pub open spec fn esc_char(c: char) -> Seq<char> {
    if c == '"' { "\\\""@ }
    else if c == '\\' { "\\\\"@ }
    else if c == '\u{8}' { "\\b"@ }
    else if c == '\t' { "\\t"@ }
    else if c == '\n' { "\\n"@ }
    else if c == '\u{c}' { "\\f"@ }
    else if c == '\r' { "\\r"@ }
    else if (c as u32) < 32 {
        "\\u00"@ + seq![hex_digit((c as u32) as int / 16), hex_digit((c as u32) as int % 16)]
    } else { seq![c] }
}

/// The JSON escape of a whole string body.
pub open spec fn esc_str(s: Seq<char>) -> Seq<char>
    decreases s.len(),
{
    if s.len() == 0 {
        Seq::<char>::empty()
    } else {
        esc_str(s.drop_last()) + esc_char(s.last())
    }
}

/// A JSON string literal: the escaped body between double quotes.
pub open spec fn json_str(s: Seq<char>) -> Seq<char> {
    seq!['"'] + esc_str(s) + seq!['"']
}

/// The decimal digits of a number, most significant first.
pub open spec fn dec_digits(n: nat) -> Seq<char>
    decreases n,
{
    if n < 10 {
        seq![hex_digit(n as int)]
    } else {
        dec_digits(n / 10) + seq![hex_digit((n % 10) as int)]
    }
}

/// Pre-rendered pieces joined with commas.
pub open spec fn join_comma(fields: Seq<Seq<char>>) -> Seq<char>
    decreases fields.len(),
{
    if fields.len() == 0 {
        Seq::<char>::empty()
    } else if fields.len() == 1 {
        fields[0]
    } else {
        join_comma(fields.drop_last()) + seq![','] + fields.last()
    }
}

/// A JSON object from pre-rendered `"key":value` fields.
pub open spec fn json_object(fields: Seq<Seq<char>>) -> Seq<char> {
    seq!['{'] + join_comma(fields) + seq!['}']
}

/// A JSON array from pre-rendered elements.
pub open spec fn json_array(elems: Seq<Seq<char>>) -> Seq<char> {
    seq!['['] + join_comma(elems) + seq![']']
}

/// A quantity value: a number stands as its canonical text, a range is
/// an object with both bounds, text is a JSON string.
pub open spec fn value_json(v: ValueModel) -> Seq<char> {
    match v {
        ValueModel::Number { repr } => repr,
        ValueModel::Range { start, end } => json_object(
            seq!["\"start\":"@ + start, "\"end\":"@ + end],
        ),
        ValueModel::Text { text } => json_str(text),
    }
}

/// The present fields of a quantity, in declaration order.
pub open spec fn quantity_fields(q: QuantityOutModel) -> Seq<Seq<char>> {
    (match q.value {
        Option::Some(v) => seq!["\"value\":"@ + value_json(v)],
        Option::None => Seq::<Seq<char>>::empty(),
    }) + (match q.unit {
        Option::Some(u) => seq!["\"unit\":"@ + json_str(u)],
        Option::None => Seq::<Seq<char>>::empty(),
    })
}

/// A quantity: both fields optional, absent fields omitted.
pub open spec fn quantity_json(q: QuantityOutModel) -> Seq<char> {
    json_object(quantity_fields(q))
}

/// The present fields of an ingredient or cookware entry.
pub open spec fn entity_fields(e: EntityOutModel) -> Seq<Seq<char>> {
    seq!["\"name\":"@ + json_str(e.name)] + (match e.quantity {
        Option::Some(q) => seq!["\"quantity\":"@ + quantity_json(q)],
        Option::None => Seq::<Seq<char>>::empty(),
    }) + (match e.note {
        Option::Some(n) => seq!["\"note\":"@ + json_str(n)],
        Option::None => Seq::<Seq<char>>::empty(),
    })
}

/// An ingredient or cookware entry.
pub open spec fn entity_json(e: EntityOutModel) -> Seq<char> {
    json_object(entity_fields(e))
}

/// The present fields of a timer entry.
pub open spec fn timer_fields(t: TimerOutModel) -> Seq<Seq<char>> {
    (match t.name {
        Option::Some(n) => seq!["\"name\":"@ + json_str(n)],
        Option::None => Seq::<Seq<char>>::empty(),
    }) + (match t.quantity {
        Option::Some(q) => seq!["\"quantity\":"@ + quantity_json(q)],
        Option::None => Seq::<Seq<char>>::empty(),
    })
}

/// A timer entry.
pub open spec fn timer_json(t: TimerOutModel) -> Seq<char> {
    json_object(timer_fields(t))
}

/// A step item, tagged by its discriminator field.
pub open spec fn item_json(it: ItemOutModel) -> Seq<char> {
    match it {
        ItemOutModel::Text { value } => json_object(
            seq!["\"type\":\"text\""@, "\"value\":"@ + json_str(value)],
        ),
        ItemOutModel::Ingredient { index } => json_object(
            seq!["\"type\":\"ingredient\""@, "\"index\":"@ + dec_digits(index as nat)],
        ),
        ItemOutModel::Cookware { index } => json_object(
            seq!["\"type\":\"cookware\""@, "\"index\":"@ + dec_digits(index as nat)],
        ),
        ItemOutModel::Timer { index } => json_object(
            seq!["\"type\":\"timer\""@, "\"index\":"@ + dec_digits(index as nat)],
        ),
    }
}

/// A step: its ordered items.
pub open spec fn step_json(items: Seq<ItemOutModel>) -> Seq<char> {
    json_object(seq!["\"items\":"@ + json_array(items.map_values(|it: ItemOutModel| item_json(it)))])
}

/// A section: the optional name, then the retained steps.
pub open spec fn section_json(s: SectionOutModel) -> Seq<char> {
    json_object(
        (match s.name {
            Option::Some(n) => seq!["\"name\":"@ + json_str(n)],
            Option::None => Seq::<Seq<char>>::empty(),
        }) + seq![
            "\"content\":"@ + json_array(s.content.map_values(|st: Seq<ItemOutModel>| step_json(st)))
        ],
    )
}

/// One metadata entry as an object field.
pub open spec fn meta_entry_json(p: (Seq<char>, Seq<char>)) -> Seq<char> {
    json_str(p.0) + seq![':'] + json_str(p.1)
}

/// The whole output model: all six fields, always present, in a fixed
/// order.
pub open spec fn recipe_json(m: RecipeOutModel) -> Seq<char> {
    json_object(
        seq![
            "\"metadata\":"@ + json_object(
                m.metadata.map_values(|p: (Seq<char>, Seq<char>)| meta_entry_json(p)),
            ),
            "\"ingredients\":"@ + json_array(
                m.ingredients.map_values(|e: EntityOutModel| entity_json(e)),
            ),
            "\"cookware\":"@ + json_array(
                m.cookware.map_values(|e: EntityOutModel| entity_json(e)),
            ),
            "\"timers\":"@ + json_array(m.timers.map_values(|t: TimerOutModel| timer_json(t))),
            "\"sections\":"@ + json_array(
                m.sections.map_values(|s: SectionOutModel| section_json(s)),
            ),
            "\"warnings\":"@ + json_array(m.warnings.map_values(|w: Seq<char>| json_str(w))),
        ],
    )
}

/// How one comma-joined piece grows the join.
proof fn lemma_join_step(s: Seq<Seq<char>>, i: int)
    requires
        0 <= i < s.len(),
    ensures
        join_comma(s.take(i + 1)) == if i == 0 {
            s[0]
        } else {
            join_comma(s.take(i)) + seq![','] + s[i]
        },
{
    let t = s.take(i + 1);
    assert(t.drop_last() =~= s.take(i));
    assert(t.last() == s[i]);
    if i == 0 {
        assert(join_comma(t) == t[0]);
    }
}

fn hex_char(n: u8) -> (c: char)
    requires
        n < 16,
    ensures
        c == hex_digit(n as int),
{
    if n == 0 { '0' }
    else if n == 1 { '1' }
    else if n == 2 { '2' }
    else if n == 3 { '3' }
    else if n == 4 { '4' }
    else if n == 5 { '5' }
    else if n == 6 { '6' }
    else if n == 7 { '7' }
    else if n == 8 { '8' }
    else if n == 9 { '9' }
    else if n == 10 { 'a' }
    else if n == 11 { 'b' }
    else if n == 12 { 'c' }
    else if n == 13 { 'd' }
    else if n == 14 { 'e' }
    else { 'f' }
}

/// Writes the decimal digits of `n`.
pub fn write_dec(out: &mut String, n: usize)
    ensures
        final(out)@ == old(out)@ + dec_digits(n as nat),
    decreases n,
{
    if n < 10 {
        push_char(out, hex_char(n as u8));
        proof {
            assert(old(out)@.push(hex_digit(n as int)) =~= old(out)@ + dec_digits(n as nat));
        }
    } else {
        assert(n / 10 < n && n / 10 >= 1) by (nonlinear_arith)
            requires n >= 10,
        ;
        write_dec(out, n / 10);
        let d = (n % 10) as u8;
        assert(d < 10) by (nonlinear_arith)
            requires d == n % 10,
        ;
        push_char(out, hex_char(d));
        proof {
            assert((old(out)@ + dec_digits(n as nat / 10)).push(hex_digit((n % 10) as int))
                =~= old(out)@ + dec_digits(n as nat));
        }
    }
}

/// Writes a JSON string literal: the escaped body between quotes.
pub fn write_json_string(out: &mut String, s: &str)
    ensures
        final(out)@ == old(out)@ + json_str(s@),
{
    push_char(out, '"');
    let n = s.unicode_len();
    let mut i: usize = 0;
    while i < n
        invariant
            n == s@.len(),
            0 <= i <= n,
            out@ == old(out)@ + seq!['"'] + esc_str(s@.take(i as int)),
        decreases n - i,
    {
        let ghost pre = out@;
        let c = s.get_char(i);
        if c == '"' {
            out.append("\\\"");
        } else if c == '\\' {
            out.append("\\\\");
        } else if c == '\u{8}' {
            out.append("\\b");
        } else if c == '\t' {
            out.append("\\t");
        } else if c == '\n' {
            out.append("\\n");
        } else if c == '\u{c}' {
            out.append("\\f");
        } else if c == '\r' {
            out.append("\\r");
        } else if (c as u32) < 32 {
            out.append("\\u00");
            let code = c as u32;
            push_char(out, hex_char((code / 16) as u8));
            push_char(out, hex_char((code % 16) as u8));
            proof {
                assert(out@ =~= pre + esc_char(c));
            }
        } else {
            push_char(out, c);
            proof {
                assert(pre.push(c) =~= pre + esc_char(c));
            }
        }
        proof {
            assert(s@.take(i + 1).drop_last() =~= s@.take(i as int));
            assert(s@.take(i + 1).last() == s@[i as int]);
            assert(esc_str(s@.take(i + 1)) == esc_str(s@.take(i as int)) + esc_char(s@[i as int]));
            assert(out@ =~= old(out)@ + seq!['"'] + esc_str(s@.take(i + 1)));
        }
        i += 1;
    }
    proof {
        assert(s@.take(n as int) =~= s@);
    }
    push_char(out, '"');
    proof {
        assert((old(out)@ + seq!['"'] + esc_str(s@)).push('"') =~= old(out)@ + json_str(s@));
    }
}

/// Writes a quantity value.
pub fn write_value(out: &mut String, v: &ValueOutput)
    ensures
        final(out)@ == old(out)@ + value_json(v@),
{
    match v {
        ValueOutput::Number { repr } => {
            out.append(repr.as_str());
        },
        ValueOutput::Range { start, end } => {
            push_char(out, '{');
            out.append("\"start\":");
            out.append(start.as_str());
            push_char(out, ',');
            out.append("\"end\":");
            out.append(end.as_str());
            push_char(out, '}');
            proof {
                let fields = seq!["\"start\":"@ + start@, "\"end\":"@ + end@];
                lemma_join_step(fields, 1);
                assert(fields.take(2) =~= fields);
                assert(fields.take(1) =~= seq![fields[0]]);
                assert(join_comma(fields.take(1)) == fields[0]);
                assert(out@ =~= old(out)@ + value_json(v@));
            }
        },
        ValueOutput::Text { value } => {
            write_json_string(out, value.as_str());
        },
    }
}

/// Writes a quantity object, omitting absent fields.
pub fn write_quantity(out: &mut String, q: &QuantityOutput)
    ensures
        final(out)@ == old(out)@ + quantity_json(q@),
{
    push_char(out, '{');
    let mut has_field = false;
    match &q.value {
        Option::Some(v) => {
            out.append("\"value\":");
            write_value(out, v);
            has_field = true;
        },
        Option::None => {},
    }
    match &q.unit {
        Option::Some(u) => {
            if has_field {
                push_char(out, ',');
            }
            out.append("\"unit\":");
            write_json_string(out, u.as_str());
        },
        Option::None => {},
    }
    push_char(out, '}');
    proof {
        let fields = quantity_fields(q@);
        if q.value is Some && q.unit is Some {
            lemma_join_step(fields, 1);
            assert(fields.take(2) =~= fields);
            assert(fields.take(1) =~= seq![fields[0]]);
        }
        assert(out@ =~= old(out)@ + quantity_json(q@));
    }
}

/// Writes an ingredient or cookware entry.
pub fn write_entity(out: &mut String, e: &EntityOutput)
    ensures
        final(out)@ == old(out)@ + entity_json(e@),
{
    push_char(out, '{');
    out.append("\"name\":");
    write_json_string(out, e.name.as_str());
    match &e.quantity {
        Option::Some(q) => {
            push_char(out, ',');
            out.append("\"quantity\":");
            write_quantity(out, q);
        },
        Option::None => {},
    }
    match &e.note {
        Option::Some(n) => {
            push_char(out, ',');
            out.append("\"note\":");
            write_json_string(out, n.as_str());
        },
        Option::None => {},
    }
    push_char(out, '}');
    proof {
        let fields = entity_fields(e@);
        if fields.len() >= 2 {
            lemma_join_step(fields, 1);
            assert(fields.take(1) =~= seq![fields[0]]);
        }
        if fields.len() == 3 {
            lemma_join_step(fields, 2);
            assert(fields.take(2) =~= seq![fields[0], fields[1]]);
            assert(fields.take(3) =~= fields);
        } else if fields.len() == 2 {
            assert(fields.take(2) =~= fields);
        }
        assert(out@ =~= old(out)@ + entity_json(e@));
    }
}

/// Writes a timer entry, omitting absent fields.
pub fn write_timer(out: &mut String, t: &TimerOutput)
    ensures
        final(out)@ == old(out)@ + timer_json(t@),
{
    push_char(out, '{');
    let mut has_field = false;
    match &t.name {
        Option::Some(n) => {
            out.append("\"name\":");
            write_json_string(out, n.as_str());
            has_field = true;
        },
        Option::None => {},
    }
    match &t.quantity {
        Option::Some(q) => {
            if has_field {
                push_char(out, ',');
            }
            out.append("\"quantity\":");
            write_quantity(out, q);
        },
        Option::None => {},
    }
    push_char(out, '}');
    proof {
        let fields = timer_fields(t@);
        if t.name is Some && t.quantity is Some {
            lemma_join_step(fields, 1);
            assert(fields.take(2) =~= fields);
            assert(fields.take(1) =~= seq![fields[0]]);
        }
        assert(out@ =~= old(out)@ + timer_json(t@));
    }
}

/// Writes one step item with its discriminator tag.
pub fn write_item(out: &mut String, it: &ItemOutput)
    ensures
        final(out)@ == old(out)@ + item_json(it@),
{
    push_char(out, '{');
    match it {
        ItemOutput::Text { value } => {
            out.append("\"type\":\"text\"");
            push_char(out, ',');
            out.append("\"value\":");
            write_json_string(out, value.as_str());
            proof {
                let fields = seq!["\"type\":\"text\""@, "\"value\":"@ + json_str(value@)];
                lemma_join_step(fields, 1);
                assert(fields.take(2) =~= fields);
                assert(fields.take(1) =~= seq![fields[0]]);
            }
        },
        ItemOutput::Ingredient { index } => {
            out.append("\"type\":\"ingredient\"");
            push_char(out, ',');
            out.append("\"index\":");
            write_dec(out, *index);
            proof {
                let fields = seq![
                    "\"type\":\"ingredient\""@,
                    "\"index\":"@ + dec_digits(*index as nat),
                ];
                lemma_join_step(fields, 1);
                assert(fields.take(2) =~= fields);
                assert(fields.take(1) =~= seq![fields[0]]);
            }
        },
        ItemOutput::Cookware { index } => {
            out.append("\"type\":\"cookware\"");
            push_char(out, ',');
            out.append("\"index\":");
            write_dec(out, *index);
            proof {
                let fields = seq![
                    "\"type\":\"cookware\""@,
                    "\"index\":"@ + dec_digits(*index as nat),
                ];
                lemma_join_step(fields, 1);
                assert(fields.take(2) =~= fields);
                assert(fields.take(1) =~= seq![fields[0]]);
            }
        },
        ItemOutput::Timer { index } => {
            out.append("\"type\":\"timer\"");
            push_char(out, ',');
            out.append("\"index\":");
            write_dec(out, *index);
            proof {
                let fields = seq![
                    "\"type\":\"timer\""@,
                    "\"index\":"@ + dec_digits(*index as nat),
                ];
                lemma_join_step(fields, 1);
                assert(fields.take(2) =~= fields);
                assert(fields.take(1) =~= seq![fields[0]]);
            }
        },
    }
    push_char(out, '}');
    proof {
        assert(out@ =~= old(out)@ + item_json(it@));
    }
}

/// Writes a step: its item array.
pub fn write_step(out: &mut String, st: &StepOutput)
    ensures
        final(out)@ == old(out)@ + step_json(st@),
{
    push_char(out, '{');
    out.append("\"items\":");
    push_char(out, '[');
    let ghost rendered = st@.map_values(|it: ItemOutModel| item_json(it));
    let ghost base = out@;
    let mut k: usize = 0;
    while k < st.items.len()
        invariant
            rendered == st@.map_values(|it: ItemOutModel| item_json(it)),
            rendered.len() == st.items@.len(),
            st@ == st.items@.map_values(|it: ItemOutput| it@),
            0 <= k <= st.items.len(),
            out@ == base + join_comma(rendered.take(k as int)),
        decreases st.items@.len() - k,
    {
        if k > 0 {
            push_char(out, ',');
        }
        write_item(out, &st.items[k]);
        proof {
            lemma_join_step(rendered, k as int);
            assert(rendered[k as int] == item_json(st@[k as int]));
            assert(out@ =~= base + join_comma(rendered.take(k as int + 1)));
        }
        k += 1;
    }
    proof {
        assert(rendered.take(st.items@.len() as int) =~= rendered);
    }
    push_char(out, ']');
    push_char(out, '}');
    proof {
        let fields = seq!["\"items\":"@ + json_array(rendered)];
        assert(join_comma(fields) == fields[0]);
        assert(out@ =~= old(out)@ + step_json(st@));
    }
}

/// Writes a section: optional name, then its step array.
pub fn write_section(out: &mut String, sec: &SectionOutput)
    ensures
        final(out)@ == old(out)@ + section_json(sec@),
{
    push_char(out, '{');
    let mut has_name = false;
    match &sec.name {
        Option::Some(n) => {
            out.append("\"name\":");
            write_json_string(out, n.as_str());
            has_name = true;
        },
        Option::None => {},
    }
    if has_name {
        push_char(out, ',');
    }
    out.append("\"content\":");
    push_char(out, '[');
    let ghost rendered = sec@.content.map_values(|st: Seq<ItemOutModel>| step_json(st));
    let ghost base = out@;
    let mut j: usize = 0;
    while j < sec.content.len()
        invariant
            rendered == sec@.content.map_values(|st: Seq<ItemOutModel>| step_json(st)),
            sec@.content == sec.content@.map_values(|s: StepOutput| s@),
            rendered.len() == sec.content@.len(),
            0 <= j <= sec.content.len(),
            out@ == base + join_comma(rendered.take(j as int)),
        decreases sec.content@.len() - j,
    {
        if j > 0 {
            push_char(out, ',');
        }
        write_step(out, &sec.content[j]);
        proof {
            lemma_join_step(rendered, j as int);
            assert(rendered[j as int] == step_json(sec@.content[j as int]));
            assert(out@ =~= base + join_comma(rendered.take(j as int + 1)));
        }
        j += 1;
    }
    proof {
        assert(rendered.take(sec.content@.len() as int) =~= rendered);
    }
    push_char(out, ']');
    push_char(out, '}');
    proof {
        let content_field = "\"content\":"@ + json_array(rendered);
        let fields = (match sec@.name {
            Option::Some(nm) => seq!["\"name\":"@ + json_str(nm)],
            Option::None => Seq::<Seq<char>>::empty(),
        }) + seq![content_field];
        match sec@.name {
            Option::Some(nm) => {
                lemma_join_step(fields, 1);
                assert(fields.take(2) =~= fields);
                assert(fields.take(1) =~= seq![fields[0]]);
                assert(fields[0] == "\"name\":"@ + json_str(nm));
                assert(fields[1] == content_field);
            },
            Option::None => {
                assert(fields =~= seq![content_field]);
                assert(join_comma(fields) == fields[0]);
            },
        }
        assert(section_json(sec@) == json_object(fields));
        assert(out@ =~= old(out)@ + json_object(fields));
    }
}

/// Renders the whole output model as its canonical JSON text.
#[verifier::rlimit(100)]
pub fn render_recipe(rec: &RecipeOutput) -> (s: String)
    ensures
        s@ == recipe_json(rec@),
{
    let mut out = String::new();
    push_char(&mut out, '{');

    // metadata object
    out.append("\"metadata\":");
    push_char(&mut out, '{');
    let ghost meta_rendered = rec@.metadata.map_values(
        |p: (Seq<char>, Seq<char>)| meta_entry_json(p),
    );
    let ghost base0 = out@;
    let mut i: usize = 0;
    while i < rec.metadata.len()
        invariant
            meta_rendered == rec@.metadata.map_values(
                |p: (Seq<char>, Seq<char>)| meta_entry_json(p),
            ),
            rec@.metadata == rec.metadata@.map_values(|p: (String, String)| (p.0@, p.1@)),
            meta_rendered.len() == rec.metadata@.len(),
            0 <= i <= rec.metadata.len(),
            out@ == base0 + join_comma(meta_rendered.take(i as int)),
        decreases rec.metadata@.len() - i,
    {
        if i > 0 {
            push_char(&mut out, ',');
        }
        let ghost pre = out@;
        write_json_string(&mut out, rec.metadata[i].0.as_str());
        push_char(&mut out, ':');
        write_json_string(&mut out, rec.metadata[i].1.as_str());
        proof {
            lemma_join_step(meta_rendered, i as int);
            assert(meta_rendered[i as int] == meta_entry_json(rec@.metadata[i as int]));
            assert(out@ =~= pre + meta_entry_json(rec@.metadata[i as int]));
            assert(out@ =~= base0 + join_comma(meta_rendered.take(i as int + 1)));
        }
        i += 1;
    }
    proof {
        assert(meta_rendered.take(rec.metadata@.len() as int) =~= meta_rendered);
    }
    push_char(&mut out, '}');

    // ingredients array
    push_char(&mut out, ',');
    out.append("\"ingredients\":");
    write_entity_array(&mut out, &rec.ingredients);
    let ghost ing_rendered = rec@.ingredients.map_values(|e: EntityOutModel| entity_json(e));

    // cookware array
    push_char(&mut out, ',');
    out.append("\"cookware\":");
    write_entity_array(&mut out, &rec.cookware);
    let ghost cw_rendered = rec@.cookware.map_values(|e: EntityOutModel| entity_json(e));

    // timers array
    push_char(&mut out, ',');
    out.append("\"timers\":");
    push_char(&mut out, '[');
    let ghost tm_rendered = rec@.timers.map_values(|t: TimerOutModel| timer_json(t));
    let ghost base3 = out@;
    let mut t: usize = 0;
    while t < rec.timers.len()
        invariant
            tm_rendered == rec@.timers.map_values(|tm: TimerOutModel| timer_json(tm)),
            rec@.timers == rec.timers@.map_values(|tm: TimerOutput| tm@),
            tm_rendered.len() == rec.timers@.len(),
            0 <= t <= rec.timers.len(),
            out@ == base3 + join_comma(tm_rendered.take(t as int)),
        decreases rec.timers@.len() - t,
    {
        if t > 0 {
            push_char(&mut out, ',');
        }
        write_timer(&mut out, &rec.timers[t]);
        proof {
            lemma_join_step(tm_rendered, t as int);
            assert(tm_rendered[t as int] == timer_json(rec@.timers[t as int]));
            assert(out@ =~= base3 + join_comma(tm_rendered.take(t as int + 1)));
        }
        t += 1;
    }
    proof {
        assert(tm_rendered.take(rec.timers@.len() as int) =~= tm_rendered);
    }
    push_char(&mut out, ']');

    // sections array
    push_char(&mut out, ',');
    out.append("\"sections\":");
    push_char(&mut out, '[');
    let ghost sc_rendered = rec@.sections.map_values(|s: SectionOutModel| section_json(s));
    let ghost base4 = out@;
    let mut sidx: usize = 0;
    while sidx < rec.sections.len()
        invariant
            sc_rendered == rec@.sections.map_values(|s: SectionOutModel| section_json(s)),
            rec@.sections == rec.sections@.map_values(|s: SectionOutput| s@),
            sc_rendered.len() == rec.sections@.len(),
            0 <= sidx <= rec.sections.len(),
            out@ == base4 + join_comma(sc_rendered.take(sidx as int)),
        decreases rec.sections@.len() - sidx,
    {
        if sidx > 0 {
            push_char(&mut out, ',');
        }
        write_section(&mut out, &rec.sections[sidx]);
        proof {
            lemma_join_step(sc_rendered, sidx as int);
            assert(sc_rendered[sidx as int] == section_json(rec@.sections[sidx as int]));
            assert(out@ =~= base4 + join_comma(sc_rendered.take(sidx as int + 1)));
        }
        sidx += 1;
    }
    proof {
        assert(sc_rendered.take(rec.sections@.len() as int) =~= sc_rendered);
    }
    push_char(&mut out, ']');

    // warnings array
    push_char(&mut out, ',');
    out.append("\"warnings\":");
    push_char(&mut out, '[');
    let ghost w_rendered = rec@.warnings.map_values(|w: Seq<char>| json_str(w));
    let ghost base5 = out@;
    let mut w: usize = 0;
    while w < rec.warnings.len()
        invariant
            w_rendered == rec@.warnings.map_values(|wr: Seq<char>| json_str(wr)),
            rec@.warnings == rec.warnings@.map_values(|wr: String| wr@),
            w_rendered.len() == rec.warnings@.len(),
            0 <= w <= rec.warnings.len(),
            out@ == base5 + join_comma(w_rendered.take(w as int)),
        decreases rec.warnings@.len() - w,
    {
        if w > 0 {
            push_char(&mut out, ',');
        }
        write_json_string(&mut out, rec.warnings[w].as_str());
        proof {
            lemma_join_step(w_rendered, w as int);
            assert(w_rendered[w as int] == json_str(rec@.warnings[w as int]));
            assert(out@ =~= base5 + join_comma(w_rendered.take(w as int + 1)));
        }
        w += 1;
    }
    proof {
        assert(w_rendered.take(rec.warnings@.len() as int) =~= w_rendered);
    }
    push_char(&mut out, ']');
    push_char(&mut out, '}');

    proof {
        let fields = seq![
            "\"metadata\":"@ + json_object(meta_rendered),
            "\"ingredients\":"@ + json_array(ing_rendered),
            "\"cookware\":"@ + json_array(cw_rendered),
            "\"timers\":"@ + json_array(tm_rendered),
            "\"sections\":"@ + json_array(sc_rendered),
            "\"warnings\":"@ + json_array(w_rendered),
        ];
        assert(fields.take(1) =~= seq![fields[0]]);
        lemma_join_step(fields, 1);
        assert(fields.take(2) =~= seq![fields[0], fields[1]]);
        lemma_join_step(fields, 2);
        assert(fields.take(3) =~= seq![fields[0], fields[1], fields[2]]);
        lemma_join_step(fields, 3);
        assert(fields.take(4) =~= seq![fields[0], fields[1], fields[2], fields[3]]);
        lemma_join_step(fields, 4);
        assert(fields.take(5) =~= seq![fields[0], fields[1], fields[2], fields[3], fields[4]]);
        lemma_join_step(fields, 5);
        assert(fields.take(6) =~= fields);
        assert(out@ =~= recipe_json(rec@));
    }
    out
}

/// Writes an array of ingredient or cookware entries.
fn write_entity_array(out: &mut String, v: &Vec<EntityOutput>)
    ensures
        final(out)@ == old(out)@ + json_array(
            v@.map_values(|e: EntityOutput| e@).map_values(|e: EntityOutModel| entity_json(e)),
        ),
{
    push_char(out, '[');
    let ghost rendered = v@.map_values(|e: EntityOutput| e@).map_values(
        |e: EntityOutModel| entity_json(e),
    );
    let ghost base = out@;
    let mut i: usize = 0;
    while i < v.len()
        invariant
            rendered == v@.map_values(|e: EntityOutput| e@).map_values(
                |e: EntityOutModel| entity_json(e),
            ),
            rendered.len() == v@.len(),
            0 <= i <= v.len(),
            out@ == base + join_comma(rendered.take(i as int)),
        decreases v@.len() - i,
    {
        if i > 0 {
            push_char(out, ',');
        }
        write_entity(out, &v[i]);
        proof {
            lemma_join_step(rendered, i as int);
            assert(rendered[i as int] == entity_json(v@[i as int]@));
            assert(out@ =~= base + join_comma(rendered.take(i as int + 1)));
        }
        i += 1;
    }
    proof {
        assert(rendered.take(v@.len() as int) =~= rendered);
    }
    push_char(out, ']');
    proof {
        assert(out@ =~= old(out)@ + json_array(rendered));
    }
}

} // verus!
