//! The executable output model: the flattened, boundary-safe shape
//! that a converted recipe is serialized from.

use vstd::prelude::*;
use crate::model::{
    EntityOutModel, ItemModel, ItemOutModel, QuantityOutModel, RecipeOutModel, SectionOutModel,
    TimerOutModel, ValueModel,
};

verus! {

/// A quantity value ready for serialization.  A number is carried as
/// its canonical JSON text, produced at the parser boundary.
pub enum ValueOutput {
    Number { repr: String },
    Range { start: String, end: String },
    Text { value: String },
}

impl View for ValueOutput {
    type V = ValueModel;

    open spec fn view(&self) -> ValueModel {
        match self {
            ValueOutput::Number { repr } => ValueModel::Number { repr: repr@ },
            ValueOutput::Range { start, end } => (ValueModel::Range {
                start: start@,
                end: end@,
            }),
            ValueOutput::Text { value } => ValueModel::Text { text: value@ },
        }
    }
}

/// A quantity ready for serialization.  Either field may be absent;
/// absent fields are omitted from the serialized form.
pub struct QuantityOutput {
    pub value: Option<ValueOutput>,
    pub unit: Option<String>,
}

impl View for QuantityOutput {
    type V = QuantityOutModel;

    open spec fn view(&self) -> QuantityOutModel {
        QuantityOutModel {
            value: match self.value {
                Option::Some(v) => Option::Some(v@),
                Option::None => Option::None,
            },
            unit: match self.unit {
                Option::Some(u) => Option::Some(u@),
                Option::None => Option::None,
            },
        }
    }
}

/// An ingredient or cookware entry ready for serialization.
pub struct EntityOutput {
    pub name: String,
    pub quantity: Option<QuantityOutput>,
    pub note: Option<String>,
}

impl View for EntityOutput {
    type V = EntityOutModel;

    open spec fn view(&self) -> EntityOutModel {
        EntityOutModel {
            name: self.name@,
            quantity: match self.quantity {
                Option::Some(q) => Option::Some(q@),
                Option::None => Option::None,
            },
            note: match self.note {
                Option::Some(n) => Option::Some(n@),
                Option::None => Option::None,
            },
        }
    }
}

/// A timer entry ready for serialization.
pub struct TimerOutput {
    pub name: Option<String>,
    pub quantity: Option<QuantityOutput>,
}

impl View for TimerOutput {
    type V = TimerOutModel;

    open spec fn view(&self) -> TimerOutModel {
        TimerOutModel {
            name: match self.name {
                Option::Some(n) => Option::Some(n@),
                Option::None => Option::None,
            },
            quantity: match self.quantity {
                Option::Some(q) => Option::Some(q@),
                Option::None => Option::None,
            },
        }
    }
}

/// A step item as read from the parsed recipe, in plain form.
pub enum SourceItem {
    Text { value: String },
    Ingredient { index: usize },
    Cookware { index: usize },
    Timer { index: usize },
    InlineQuantity { index: usize },
}

impl View for SourceItem {
    type V = ItemModel;

    open spec fn view(&self) -> ItemModel {
        match self {
            SourceItem::Text { value } => ItemModel::Text { value: value@ },
            SourceItem::Ingredient { index } => ItemModel::Ingredient { index: *index as int },
            SourceItem::Cookware { index } => ItemModel::Cookware { index: *index as int },
            SourceItem::Timer { index } => ItemModel::Timer { index: *index as int },
            SourceItem::InlineQuantity { index } => (ItemModel::InlineQuantity {
                index: *index as int,
            }),
        }
    }
}

/// A step item ready for serialization: tagged `text`, `ingredient`,
/// `cookware` or `timer` on the wire.
pub enum ItemOutput {
    Text { value: String },
    Ingredient { index: usize },
    Cookware { index: usize },
    Timer { index: usize },
}

impl View for ItemOutput {
    type V = ItemOutModel;

    open spec fn view(&self) -> ItemOutModel {
        match self {
            ItemOutput::Text { value } => ItemOutModel::Text { value: value@ },
            ItemOutput::Ingredient { index } => ItemOutModel::Ingredient { index: *index as int },
            ItemOutput::Cookware { index } => ItemOutModel::Cookware { index: *index as int },
            ItemOutput::Timer { index } => ItemOutModel::Timer { index: *index as int },
        }
    }
}

/// A step ready for serialization: an ordered sequence of items.
pub struct StepOutput {
    pub items: Vec<ItemOutput>,
}

impl View for StepOutput {
    type V = Seq<ItemOutModel>;

    open spec fn view(&self) -> Seq<ItemOutModel> {
        self.items@.map_values(|it: ItemOutput| it@)
    }
}

/// A section ready for serialization.
pub struct SectionOutput {
    pub name: Option<String>,
    pub content: Vec<StepOutput>,
}

impl View for SectionOutput {
    type V = SectionOutModel;

    open spec fn view(&self) -> SectionOutModel {
        SectionOutModel {
            name: match self.name {
                Option::Some(n) => Option::Some(n@),
                Option::None => Option::None,
            },
            content: self.content@.map_values(|s: StepOutput| s@),
        }
    }
}

/// The whole output model, constructed once per conversion and
/// immediately serialized.
pub struct RecipeOutput {
    pub metadata: Vec<(String, String)>,
    pub ingredients: Vec<EntityOutput>,
    pub cookware: Vec<EntityOutput>,
    pub timers: Vec<TimerOutput>,
    pub sections: Vec<SectionOutput>,
    pub warnings: Vec<String>,
}

impl View for RecipeOutput {
    type V = RecipeOutModel;

    open spec fn view(&self) -> RecipeOutModel {
        RecipeOutModel {
            metadata: self.metadata@.map_values(|p: (String, String)| (p.0@, p.1@)),
            ingredients: self.ingredients@.map_values(|e: EntityOutput| e@),
            cookware: self.cookware@.map_values(|e: EntityOutput| e@),
            timers: self.timers@.map_values(|t: TimerOutput| t@),
            sections: self.sections@.map_values(|s: SectionOutput| s@),
            warnings: self.warnings@.map_values(|w: String| w@),
        }
    }
}

} // verus!
