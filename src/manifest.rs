//! The parts of a manifest that the registry rewrite reads and changes.
use vstd::prelude::*;

verus! {

/// The value of a dependency entry, as far as its `registry` field goes.
pub enum DepValue {
    /// A value without addressable fields, such as a bare version string.
    Bare,
    /// A table or inline table; `registry` holds the field's text when the
    /// field is present and is a string, and is `None` otherwise.
    TableLike { registry: Option<String> },
}

/// One entry of a dependency table: its declared key and its value.
pub struct DepEntry {
    pub key: String,
    pub value: DepValue,
}

pub ghost enum DepValueView {
    Bare,
    TableLike { registry: Option<Seq<char>> },
}

pub ghost struct DepEntryView {
    pub key: Seq<char>,
    pub value: DepValueView,
}

impl View for DepValue {
    type V = DepValueView;

    open spec fn view(&self) -> DepValueView {
        match self {
            DepValue::Bare => DepValueView::Bare,
            DepValue::TableLike { registry } => DepValueView::TableLike {
                registry: match registry {
                    Some(r) => Some(r@),
                    None => None,
                },
            },
        }
    }
}

impl View for DepEntry {
    type V = DepEntryView;

    open spec fn view(&self) -> DepEntryView {
        DepEntryView { key: self.key@, value: self.value@ }
    }
}

/// The entries of a manifest, in the order in which its tables list them.
pub open spec fn entries_view(entries: Seq<DepEntry>) -> Seq<DepEntryView> {
    entries.map_values(|e: DepEntry| e@)
}

impl DepValue {
    /// A copy of the value.
    pub fn copy(&self) -> (r: DepValue)
        ensures
            r@ == self@,
    {
        match self {
            DepValue::Bare => DepValue::Bare,
            DepValue::TableLike { registry } => DepValue::TableLike {
                registry: match registry {
                    Some(s) => Some(s.clone()),
                    None => None,
                },
            },
        }
    }
}

impl DepEntry {
    /// A copy of the entry.
    pub fn copy(&self) -> (r: DepEntry)
        ensures
            r@ == self@,
    {
        DepEntry { key: self.key.clone(), value: self.value.copy() }
    }
}

} // verus!
