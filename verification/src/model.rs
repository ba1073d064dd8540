//! Mathematical models of the recipe data.
//!
//! `*Model` types describe, at the specification level, what a parsed
//! recipe holds (as handed over by the external parser) and what the
//! output model holds.  Numbers are modeled by their canonical JSON
//! text, since this layer never computes with them: it only passes
//! them through to the serialized form.

use vstd::prelude::*;

verus! {

/// A quantity value as read from the parsed recipe: a number (kept as
/// its canonical JSON text), an inclusive range, or free text.
pub enum ValueModel {
    Number { repr: Seq<char> },
    Range { start: Seq<char>, end: Seq<char> },
    Text { text: Seq<char> },
}

/// A quantity as read from the parsed recipe: a value plus an optional
/// unit string.
pub struct QuantityModel {
    pub value: ValueModel,
    pub unit: Option<Seq<char>>,
}

/// An ingredient or cookware entry: name, optional quantity, optional note.
pub struct EntityModel {
    pub name: Seq<char>,
    pub quantity: Option<QuantityModel>,
    pub note: Option<Seq<char>>,
}

/// A timer entry: optional name (timers may be anonymous) and optional
/// quantity.
pub struct TimerModel {
    pub name: Option<Seq<char>>,
    pub quantity: Option<QuantityModel>,
}

/// A step item as read from the parsed recipe.  Reference variants
/// carry a zero-based index into the recipe's flat entity lists.
pub enum ItemModel {
    Text { value: Seq<char> },
    Ingredient { index: int },
    Cookware { index: int },
    Timer { index: int },
    InlineQuantity { index: int },
}

/// One piece of section content: a step (a sequence of items) or a
/// plain text paragraph, which the conversion drops.
pub enum ContentModel {
    Step { items: Seq<ItemModel> },
    Text,
}

/// A section: optional name plus ordered content.
pub struct SectionModel {
    pub name: Option<Seq<char>>,
    pub content: Seq<ContentModel>,
}

/// Everything the conversion reads from a parsed recipe.  Metadata
/// entries keep the raw optional string forms of key and value: a key
/// or value that is not representable as a string is `None`.
pub struct RecipeModel {
    pub metadata: Seq<(Option<Seq<char>>, Option<Seq<char>>)>,
    pub ingredients: Seq<EntityModel>,
    pub cookware: Seq<EntityModel>,
    pub timers: Seq<TimerModel>,
    pub sections: Seq<SectionModel>,
}

/// A quantity in the output model: both fields independently optional.
pub struct QuantityOutModel {
    pub value: Option<ValueModel>,
    pub unit: Option<Seq<char>>,
}

/// An ingredient or cookware entry in the output model.
pub struct EntityOutModel {
    pub name: Seq<char>,
    pub quantity: Option<QuantityOutModel>,
    pub note: Option<Seq<char>>,
}

/// A timer entry in the output model.
pub struct TimerOutModel {
    pub name: Option<Seq<char>>,
    pub quantity: Option<QuantityOutModel>,
}

/// A step item in the output model.  The inline-quantity input variant
/// has no counterpart here: it normalizes to an empty `Text`.
pub enum ItemOutModel {
    Text { value: Seq<char> },
    Ingredient { index: int },
    Cookware { index: int },
    Timer { index: int },
}

/// A section in the output model: only step content is retained.
pub struct SectionOutModel {
    pub name: Option<Seq<char>>,
    pub content: Seq<Seq<ItemOutModel>>,
}

/// The whole output model.  Metadata is a mapping with unique keys,
/// kept in first-insertion order.
pub struct RecipeOutModel {
    pub metadata: Seq<(Seq<char>, Seq<char>)>,
    pub ingredients: Seq<EntityOutModel>,
    pub cookware: Seq<EntityOutModel>,
    pub timers: Seq<TimerOutModel>,
    pub sections: Seq<SectionOutModel>,
    pub warnings: Seq<Seq<char>>,
}

} // verus!
