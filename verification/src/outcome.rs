//! What an execution engine reports of one run, and the items that the data
//! of a panic decodes to.

use vstd::prelude::*;
use crate::field::FieldElement;

verus! {

/// One decoded piece of panic data: its text, and whether it stands for a
/// string (which is shown in quotes) or for a number.
#[derive(Clone, Debug, PartialEq, Eq)]
pub struct DisplayItem {
    pub item: String,
    pub is_string: bool,
}

/// A display item as a value: the characters of its text, and its kind.
pub struct DisplayItemView {
    pub text: Seq<char>,
    pub is_string: bool,
}

impl View for DisplayItem {
    type V = DisplayItemView;

    open spec fn view(&self) -> DisplayItemView {
        DisplayItemView { text: self.item@, is_string: self.is_string }
    }
}

/// The text by which an item is shown: in double quotes if it is a string,
/// as it is otherwise. Nothing inside the quotes is escaped.
pub open spec fn quoted_text(item: DisplayItemView) -> Seq<char> {
    if item.is_string {
        "\""@ + item.text + "\""@
    } else {
        item.text
    }
}

impl DisplayItem {
    /// The text by which the item is shown.
    pub fn quote_if_string(&self) -> (s: String)
        ensures
            s@ == quoted_text(self@),
    {
        if self.is_string {
            let mut s = String::new();
            s.append("\"");
            s.append(self.item.as_str());
            s.append("\"");
            assert(s@ =~= "\""@ + self.item@ + "\""@);
            s
        } else {
            self.item.clone()
        }
    }
}

/// How a run ended: the entry point returned, or the program panicked. Both
/// carry field elements, in order: the returned values, or the panic data.
#[derive(Clone, Debug, PartialEq, Eq)]
pub enum OutcomeValue {
    Success(Vec<FieldElement>),
    Panic(Vec<FieldElement>),
}

/// How a run ended, over the numbers that it carries.
pub enum OutcomeValueView {
    Success(Seq<nat>),
    Panic(Seq<nat>),
}

/// The numbers that a sequence of field elements holds.
pub open spec fn field_values(elements: Seq<FieldElement>) -> Seq<nat> {
    Seq::new(elements.len(), |i: int| elements[i]@)
}

/// The numbers that a sequence of memory cells holds; an empty cell holds none.
pub open spec fn cell_values(cells: Seq<Option<FieldElement>>) -> Seq<Option<nat>> {
    Seq::new(
        cells.len(),
        |i: int|
            match cells[i] {
                Some(element) => Some(element@),
                None => None,
            },
    )
}

impl View for OutcomeValue {
    type V = OutcomeValueView;

    open spec fn view(&self) -> OutcomeValueView {
        match self {
            OutcomeValue::Success(values) => OutcomeValueView::Success(field_values(values@)),
            OutcomeValue::Panic(values) => OutcomeValueView::Panic(field_values(values@)),
        }
    }
}

/// The outcome of one run.
///
/// `remaining_budget` is what is left of the execution budget; an engine
/// reports it exactly when it was given a budget. `memory_trace` is the
/// engine's memory after the run, cell by cell; a cell that was never
/// written is `None`.
#[derive(Clone, Debug, PartialEq, Eq)]
pub struct ExecutionOutcome {
    pub value: OutcomeValue,
    pub remaining_budget: Option<FieldElement>,
    pub memory_trace: Vec<Option<FieldElement>>,
}

/// The outcome of one run, over numbers.
pub struct ExecutionOutcomeView {
    pub value: OutcomeValueView,
    pub remaining_budget: Option<nat>,
    pub memory_trace: Seq<Option<nat>>,
}

impl View for ExecutionOutcome {
    type V = ExecutionOutcomeView;

    open spec fn view(&self) -> ExecutionOutcomeView {
        ExecutionOutcomeView {
            value: self.value@,
            remaining_budget: match self.remaining_budget {
                Some(budget) => Some(budget@),
                None => None,
            },
            memory_trace: cell_values(self.memory_trace@),
        }
    }
}

/// The display items as values.
pub open spec fn item_views(items: Seq<DisplayItem>) -> Seq<DisplayItemView> {
    Seq::new(items.len(), |i: int| items[i]@)
}

} // verus!
