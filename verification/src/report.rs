//! The report of a run: what it says, and the function that writes it.
//!
//! A report is made of up to four sections, in this order: the captured
//! debug output (on request), the line that tells how the run ended, the
//! line of the remaining budget (where the engine reported one), and the
//! dump of the memory (on request).

use vstd::prelude::*;
use crate::decimal::{decimal_text, lemma_decimal_text_digits};
use crate::field::FieldElement;
use crate::outcome::{
    cell_values, field_values, item_views, quoted_text, DisplayItem, DisplayItemView,
    ExecutionOutcome, ExecutionOutcomeView, OutcomeValue, OutcomeValueView,
};

verus! {

/// The numerals of `values`, in order, with `", "` between neighbours.
pub open spec fn comma_separated(values: Seq<nat>) -> Seq<char>
    decreases values.len(),
{
    if values.len() == 0 {
        Seq::<char>::empty()
    } else if values.len() == 1 {
        decimal_text(values[0])
    } else {
        comma_separated(values.drop_last()) + ", "@ + decimal_text(values.last())
    }
}

/// A sequence of numbers as a list: `[]`, `[42]`, `[1, 2, 3]`.
pub open spec fn list_text(values: Seq<nat>) -> Seq<char> {
    "["@ + comma_separated(values) + "]"@
}

/// The texts by which the items are shown, one after the other.
///
/// Nothing stands between two items: the items `1` and `2` give `12`, where
/// a reader expects `1, 2`. This is a known defect of the report. It is kept,
/// and stated here, because a report with separators is another format: the
/// change is to be made for all readers of reports at once, not in passing.
pub open spec fn items_text(items: Seq<DisplayItemView>) -> Seq<char>
    decreases items.len(),
{
    if items.len() == 0 {
        Seq::<char>::empty()
    } else {
        items_text(items.drop_last()) + quoted_text(items.last())
    }
}

/// One memory cell: `_` for an empty cell, the numeral of its value
/// otherwise, and `", "` after either.
pub open spec fn cell_text(cell: Option<nat>) -> Seq<char> {
    match cell {
        None => "_, "@,
        Some(value) => decimal_text(value) + ", "@,
    }
}

/// The memory cells, in order. Each cell brings its own `", "`, the last one
/// too.
pub open spec fn cells_text(cells: Seq<Option<nat>>) -> Seq<char>
    decreases cells.len(),
{
    if cells.len() == 0 {
        Seq::<char>::empty()
    } else {
        cells_text(cells.drop_last()) + cell_text(cells.last())
    }
}

/// The captured debug output, where it was asked for.
pub open spec fn log_section(captured_log: Seq<char>, use_dbg_print_hint: bool) -> Seq<char> {
    if use_dbg_print_hint {
        captured_log
    } else {
        Seq::<char>::empty()
    }
}

/// The line that tells how the run ended: the returned values as a list, or
/// the decoded items of the panic.
pub open spec fn value_section(value: OutcomeValueView, panic_items: Seq<DisplayItemView>) -> Seq<
    char,
> {
    match value {
        OutcomeValueView::Success(values) => "Run completed successfully, returning "@ + list_text(
            values,
        ) + "\n"@,
        OutcomeValueView::Panic(_) => "Run panicked with ["@ + items_text(panic_items) + "].\n"@,
    }
}

/// The line of the remaining budget, where there is one.
pub open spec fn budget_section(remaining_budget: Option<nat>) -> Seq<char> {
    match remaining_budget {
        Some(budget) => "Remaining gas: "@ + decimal_text(budget) + "\n"@,
        None => Seq::<char>::empty(),
    }
}

/// The dump of the memory, where it was asked for.
pub open spec fn memory_section(cells: Seq<Option<nat>>, print_full_memory: bool) -> Seq<char> {
    if print_full_memory {
        "Full memory: ["@ + cells_text(cells) + "]\n"@
    } else {
        Seq::<char>::empty()
    }
}

/// The report of a run.
pub open spec fn report_text(
    outcome: ExecutionOutcomeView,
    panic_items: Seq<DisplayItemView>,
    captured_log: Seq<char>,
    print_full_memory: bool,
    use_dbg_print_hint: bool,
) -> Seq<char> {
    log_section(captured_log, use_dbg_print_hint) + value_section(outcome.value, panic_items)
        + budget_section(outcome.remaining_budget) + memory_section(
        outcome.memory_trace,
        print_full_memory,
    )
}

/// The report is a function of what it shows, and of nothing else.
///
/// Two reports are the same text if the two runs ended the same way, with
/// the same remaining budget, and agree on what the flags bring in: on the
/// captured debug output if that is shown, on the memory if that is dumped,
/// on the decoded items if the run panicked.
pub proof fn lemma_report_is_deterministic(
    first: ExecutionOutcomeView,
    second: ExecutionOutcomeView,
    first_items: Seq<DisplayItemView>,
    second_items: Seq<DisplayItemView>,
    first_log: Seq<char>,
    second_log: Seq<char>,
    print_full_memory: bool,
    use_dbg_print_hint: bool,
)
    requires
        first.value == second.value,
        first.remaining_budget == second.remaining_budget,
        print_full_memory ==> first.memory_trace == second.memory_trace,
        use_dbg_print_hint ==> first_log == second_log,
        first.value is Panic ==> first_items == second_items,
    ensures
        report_text(first, first_items, first_log, print_full_memory, use_dbg_print_hint)
            == report_text(second, second_items, second_log, print_full_memory, use_dbg_print_hint),
{
}

/// How often the character `c` occurs in `text`.
pub open spec fn occurrences(text: Seq<char>, c: char) -> nat
    decreases text.len(),
{
    if text.len() == 0 {
        0
    } else {
        occurrences(text.drop_last(), c) + if text.last() == c {
            1nat
        } else {
            0nat
        }
    }
}

/// How many of the cells are empty.
pub open spec fn empty_cells(cells: Seq<Option<nat>>) -> nat
    decreases cells.len(),
{
    if cells.len() == 0 {
        0
    } else {
        empty_cells(cells.drop_last()) + if cells.last() is None {
            1nat
        } else {
            0nat
        }
    }
}

/// The occurrences in a text are those in its first part and those in the
/// rest.
pub proof fn lemma_occurrences_concat(first: Seq<char>, rest: Seq<char>, c: char)
    ensures
        occurrences(first + rest, c) == occurrences(first, c) + occurrences(rest, c),
    decreases rest.len(),
{
    if rest.len() == 0 {
        assert(first + rest =~= first);
    } else {
        assert((first + rest).drop_last() =~= first + rest.drop_last());
        lemma_occurrences_concat(first, rest.drop_last(), c);
    }
}

/// A character other than a digit does not occur in a numeral.
pub proof fn lemma_numeral_holds_digits_only(n: nat, c: char)
    requires
        !('0' <= c <= '9'),
    ensures
        occurrences(decimal_text(n), c) == 0,
{
    let text = decimal_text(n);
    assert forall|i: int| 0 <= i < text.len() implies text[i] != c by {
        lemma_decimal_text_digits(n, i);
    }
    lemma_absent_character(text, c);
}

/// A character that is at no place of a text does not occur in it.
proof fn lemma_absent_character(text: Seq<char>, c: char)
    requires
        forall|i: int| 0 <= i < text.len() ==> text[i] != c,
    ensures
        occurrences(text, c) == 0,
    decreases text.len(),
{
    if text.len() > 0 {
        lemma_absent_character(text.drop_last(), c);
    }
}

/// How often a character occurs in a text of one character.
proof fn lemma_single_character(x: char, c: char)
    ensures
        occurrences(seq![x], c) == if x == c {
            1nat
        } else {
            0nat
        },
{
    reveal_with_fuel(occurrences, 2);
    assert(seq![x].drop_last() =~= Seq::<char>::empty());
}

/// One cell of a memory dump holds one comma, and an underscore exactly if
/// it is empty.
pub proof fn lemma_cell_text_marks(cell: Option<nat>)
    ensures
        occurrences(cell_text(cell), ',') == 1,
        occurrences(cell_text(cell), '_') == if cell is None {
            1nat
        } else {
            0nat
        },
{
    reveal_strlit("_, ");
    reveal_strlit(", ");
    assert(", "@ =~= seq![','] + seq![' ']);
    lemma_single_character(',', ',');
    lemma_single_character(',', '_');
    lemma_single_character(' ', ',');
    lemma_single_character(' ', '_');
    lemma_occurrences_concat(seq![','], seq![' '], ',');
    lemma_occurrences_concat(seq![','], seq![' '], '_');
    match cell {
        None => {
            assert("_, "@ =~= seq!['_'] + ", "@);
            lemma_single_character('_', ',');
            lemma_single_character('_', '_');
            lemma_occurrences_concat(seq!['_'], ", "@, ',');
            lemma_occurrences_concat(seq!['_'], ", "@, '_');
        },
        Some(value) => {
            lemma_numeral_holds_digits_only(value, ',');
            lemma_numeral_holds_digits_only(value, '_');
            lemma_occurrences_concat(decimal_text(value), ", "@, ',');
            lemma_occurrences_concat(decimal_text(value), ", "@, '_');
        },
    }
}

/// The cells of a memory dump can be counted: the dump holds one comma for
/// each cell, and one underscore for each empty cell.
pub proof fn lemma_memory_dump_counts_cells(cells: Seq<Option<nat>>)
    ensures
        occurrences(cells_text(cells), ',') == cells.len(),
        occurrences(cells_text(cells), '_') == empty_cells(cells),
    decreases cells.len(),
{
    if cells.len() > 0 {
        lemma_memory_dump_counts_cells(cells.drop_last());
        lemma_cell_text_marks(cells.last());
        lemma_occurrences_concat(cells_text(cells.drop_last()), cell_text(cells.last()), ',');
        lemma_occurrences_concat(cells_text(cells.drop_last()), cell_text(cells.last()), '_');
    }
}

/// Appends the list of `values` to `out`.
fn push_list(out: &mut String, values: &Vec<FieldElement>)
    ensures
        final(out)@ == old(out)@ + list_text(field_values(values@)),
{
    let ghost start = out@;
    let ghost numbers = field_values(values@);
    out.append("[");
    let mut i: usize = 0;
    while i < values.len()
        invariant
            i <= values.len(),
            numbers == field_values(values@),
            out@ == start + "["@ + comma_separated(numbers.take(i as int)),
        decreases values.len() - i,
    {
        let ghost before = out@;
        if i > 0 {
            out.append(", ");
        }
        let numeral = values[i].to_decimal();
        out.append(numeral.as_str());
        proof {
            let head = numbers.take(i + 1);
            assert(head.drop_last() =~= numbers.take(i as int));
            assert(head.last() == values[i as int]@);
            if i == 0 {
                assert(head[0] == values[0]@);
                assert(comma_separated(numbers.take(0)) =~= Seq::<char>::empty());
                assert(out@ =~= start + "["@ + comma_separated(head));
            } else {
                assert(out@ =~= start + "["@ + comma_separated(head));
            }
        }
        i = i + 1;
    }
    out.append("]");
    proof {
        assert(numbers.take(values.len() as int) =~= numbers);
        assert(out@ =~= start + list_text(numbers));
    }
}

/// Appends the items of a panic to `out`, each as it is shown.
fn push_items(out: &mut String, items: &Vec<DisplayItem>)
    ensures
        final(out)@ == old(out)@ + items_text(item_views(items@)),
{
    let ghost start = out@;
    let ghost views = item_views(items@);
    let mut i: usize = 0;
    assert(out@ =~= start + items_text(views.take(0)));
    while i < items.len()
        invariant
            i <= items.len(),
            views == item_views(items@),
            out@ == start + items_text(views.take(i as int)),
        decreases items.len() - i,
    {
        let shown = items[i].quote_if_string();
        out.append(shown.as_str());
        proof {
            let head = views.take(i + 1);
            assert(head.drop_last() =~= views.take(i as int));
            assert(head.last() == items[i as int]@);
            assert(out@ =~= start + items_text(head));
        }
        i = i + 1;
    }
    proof {
        assert(views.take(items.len() as int) =~= views);
    }
}

/// Appends the memory cells to `out`.
fn push_cells(out: &mut String, cells: &Vec<Option<FieldElement>>)
    ensures
        final(out)@ == old(out)@ + cells_text(cell_values(cells@)),
{
    let ghost start = out@;
    let ghost numbers = cell_values(cells@);
    let mut i: usize = 0;
    assert(out@ =~= start + cells_text(numbers.take(0)));
    while i < cells.len()
        invariant
            i <= cells.len(),
            numbers == cell_values(cells@),
            out@ == start + cells_text(numbers.take(i as int)),
        decreases cells.len() - i,
    {
        match &cells[i] {
            None => {
                out.append("_, ");
            },
            Some(value) => {
                let numeral = value.to_decimal();
                out.append(numeral.as_str());
                out.append(", ");
            },
        }
        proof {
            let head = numbers.take(i + 1);
            assert(head.drop_last() =~= numbers.take(i as int));
            assert(head.last() == numbers[i as int]);
            assert(out@ =~= start + cells_text(head));
        }
        i = i + 1;
    }
    proof {
        assert(numbers.take(cells.len() as int) =~= numbers);
    }
}

/// Writes the report of a run.
///
/// `panic_items` are the items that the data of a panic decodes to; they are
/// read only where the run panicked. `captured_log` is the debug output that
/// the run left behind; it opens the report where `use_dbg_print_hint` is
/// set, and is left out otherwise. The function writes to no other channel:
/// a caller that wants the report on a console prints what it gets.
///
/// Two things in a report are not as a reader may expect. Between the items
/// of a panic no separator is written, which is a known defect (see
/// [`items_text`]). And the cells of a memory dump each end in `", "`, the
/// last one too, so that a dump closes with `, ]`.
pub fn generate_run_result_log(
    result: &ExecutionOutcome,
    panic_items: &Vec<DisplayItem>,
    captured_log: &str,
    print_full_memory: bool,
    use_dbg_print_hint: bool,
) -> (report: String)
    ensures
        report@ == report_text(
            result@,
            item_views(panic_items@),
            captured_log@,
            print_full_memory,
            use_dbg_print_hint,
        ),
{
    let mut out = String::new();
    if use_dbg_print_hint {
        out.append(captured_log);
    }
    assert(out@ =~= log_section(captured_log@, use_dbg_print_hint));
    let ghost after_log = out@;
    match &result.value {
        OutcomeValue::Success(values) => {
            out.append("Run completed successfully, returning ");
            push_list(&mut out, values);
            out.append("\n");
        },
        OutcomeValue::Panic(_) => {
            out.append("Run panicked with [");
            push_items(&mut out, panic_items);
            out.append("].\n");
        },
    }
    assert(out@ =~= after_log + value_section(result@.value, item_views(panic_items@)));
    let ghost after_value = out@;
    match &result.remaining_budget {
        Some(budget) => {
            out.append("Remaining gas: ");
            let numeral = budget.to_decimal();
            out.append(numeral.as_str());
            out.append("\n");
        },
        None => {},
    }
    assert(out@ =~= after_value + budget_section(result@.remaining_budget));
    let ghost after_budget = out@;
    if print_full_memory {
        out.append("Full memory: [");
        push_cells(&mut out, &result.memory_trace);
        out.append("]\n");
    }
    assert(out@ =~= after_budget + memory_section(result@.memory_trace, print_full_memory));
    out
}

} // verus!
