use cairo_felt::Felt252;
use cairo_run_report::field::FieldElement;
use cairo_run_report::outcome::{DisplayItem, ExecutionOutcome, OutcomeValue};
use cairo_run_report::report::generate_run_result_log;

fn felts(values: &[u64]) -> Vec<FieldElement> {
    values.iter().map(|value| FieldElement::from_u64(*value)).collect()
}

fn number(text: &str) -> DisplayItem {
    DisplayItem { item: text.to_string(), is_string: false }
}

fn string(text: &str) -> DisplayItem {
    DisplayItem { item: text.to_string(), is_string: true }
}

fn success(values: &[u64]) -> ExecutionOutcome {
    ExecutionOutcome {
        value: OutcomeValue::Success(felts(values)),
        remaining_budget: None,
        memory_trace: Vec::new(),
    }
}

fn panic_with(values: &[u64]) -> ExecutionOutcome {
    ExecutionOutcome {
        value: OutcomeValue::Panic(felts(values)),
        remaining_budget: None,
        memory_trace: Vec::new(),
    }
}

#[test]
fn success_with_one_value() {
    let report = generate_run_result_log(&success(&[42]), &Vec::new(), "", false, false);
    assert_eq!(report, "Run completed successfully, returning [42]\n");
}

#[test]
fn success_without_values() {
    let report = generate_run_result_log(&success(&[]), &Vec::new(), "", false, false);
    assert_eq!(report, "Run completed successfully, returning []\n");
}

#[test]
fn success_with_several_values() {
    let report = generate_run_result_log(&success(&[1, 2, 3]), &Vec::new(), "", false, false);
    assert_eq!(report, "Run completed successfully, returning [1, 2, 3]\n");
    let report = generate_run_result_log(&success(&[0, 100]), &Vec::new(), "", false, false);
    assert_eq!(report, "Run completed successfully, returning [0, 100]\n");
}

#[test]
fn success_list_agrees_with_debug_of_felts() {
    let numbers = [0u64, 7, 10, 4096, u64::MAX];
    let as_felts: Vec<Felt252> = numbers.iter().map(|n| Felt252::from(*n)).collect();
    let report = generate_run_result_log(&success(&numbers), &Vec::new(), "", false, false);
    assert_eq!(report, format!("Run completed successfully, returning {:?}\n", as_felts));
}

#[test]
fn success_ignores_panic_items() {
    let items = vec![number("1"), string("x")];
    let report = generate_run_result_log(&success(&[42]), &items, "", false, false);
    assert_eq!(report, "Run completed successfully, returning [42]\n");
}

#[test]
fn panic_with_one_numeric_item() {
    let report = generate_run_result_log(&panic_with(&[1]), &vec![number("1")], "", false, false);
    assert_eq!(report, "Run panicked with [1].\n");
}

#[test]
fn panic_with_two_items_has_no_separator() {
    let items = vec![number("1"), number("2")];
    let report = generate_run_result_log(&panic_with(&[1, 2]), &items, "", false, false);
    // The items follow each other directly. A reader might expect
    // "Run panicked with [1, 2].", which is not what a report holds.
    assert_eq!(report, "Run panicked with [12].\n");
    assert!(report.contains("Run panicked with [12]."));
    assert!(!report.contains(','));
    assert_ne!(report, "Run panicked with [1, 2].\n");
}

#[test]
fn panic_without_items() {
    let report = generate_run_result_log(&panic_with(&[]), &Vec::new(), "", false, false);
    assert_eq!(report, "Run panicked with [].\n");
}

#[test]
fn panic_string_item_is_quoted() {
    let report =
        generate_run_result_log(&panic_with(&[7, 8, 9]), &vec![string("out of gas")], "", false, false);
    assert_eq!(report, "Run panicked with [\"out of gas\"].\n");
}

#[test]
fn panic_mixed_items() {
    let items = vec![string("bad input"), number("0x2a"), string("")];
    let report = generate_run_result_log(&panic_with(&[1, 2, 3, 4]), &items, "", false, false);
    assert_eq!(report, "Run panicked with [\"bad input\"0x2a\"\"].\n");
}

#[test]
fn panic_shows_items_not_raw_values() {
    let report =
        generate_run_result_log(&panic_with(&[999, 888]), &vec![number("1")], "", false, false);
    assert_eq!(report, "Run panicked with [1].\n");
}

#[test]
fn quote_if_string_quotes_strings_only() {
    assert_eq!(string("abc").quote_if_string(), "\"abc\"");
    assert_eq!(number("abc").quote_if_string(), "abc");
    assert_eq!(string("").quote_if_string(), "\"\"");
    assert_eq!(number("").quote_if_string(), "");
    assert_eq!(string("say \"hi\"").quote_if_string(), "\"say \"hi\"\"");
}

#[test]
fn metered_run_reports_remaining_budget() {
    let mut outcome = success(&[5]);
    outcome.remaining_budget = Some(FieldElement::from_u64(870));
    let report = generate_run_result_log(&outcome, &Vec::new(), "", false, false);
    assert_eq!(report, "Run completed successfully, returning [5]\nRemaining gas: 870\n");
    let line = report.lines().find(|line| line.starts_with("Remaining gas: ")).unwrap();
    let remaining: u64 = line["Remaining gas: ".len()..].parse().unwrap();
    assert!(remaining <= 1000);
}

#[test]
fn remaining_budget_of_zero() {
    let mut outcome = panic_with(&[1]);
    outcome.remaining_budget = Some(FieldElement::from_u64(0));
    let report = generate_run_result_log(&outcome, &vec![number("1")], "", false, false);
    assert_eq!(report, "Run panicked with [1].\nRemaining gas: 0\n");
}

#[test]
fn unmetered_run_has_no_budget_line() {
    let report = generate_run_result_log(&success(&[5]), &Vec::new(), "", true, true);
    assert!(!report.contains("Remaining gas"));
}

#[test]
fn full_memory_dump() {
    let mut outcome = success(&[3]);
    outcome.memory_trace = vec![
        None,
        Some(FieldElement::from_u64(1)),
        Some(FieldElement::from_u64(290341444919459839)),
        None,
        None,
        Some(FieldElement::from_u64(0)),
    ];
    let report = generate_run_result_log(&outcome, &Vec::new(), "", true, false);
    assert_eq!(
        report,
        "Run completed successfully, returning [3]\nFull memory: [_, 1, 290341444919459839, _, _, 0, ]\n"
    );
    let start = report.find("Full memory: [").unwrap() + "Full memory: [".len();
    let end = report.rfind("]\n").unwrap();
    let section = &report[start..end];
    assert_eq!(section.matches(", ").count(), outcome.memory_trace.len());
    assert_eq!(section.matches("_, ").count(), 3);
}

#[test]
fn full_memory_dump_of_empty_memory() {
    let report = generate_run_result_log(&success(&[]), &Vec::new(), "", true, false);
    assert_eq!(report, "Run completed successfully, returning []\nFull memory: []\n");
}

#[test]
fn memory_is_left_out_unless_asked_for() {
    let mut outcome = success(&[3]);
    outcome.memory_trace = vec![None, Some(FieldElement::from_u64(1))];
    let report = generate_run_result_log(&outcome, &Vec::new(), "", false, false);
    assert_eq!(report, "Run completed successfully, returning [3]\n");
}

#[test]
fn captured_log_opens_the_report() {
    let report = generate_run_result_log(&success(&[1]), &Vec::new(), "[DEBUG] x = 1\n", false, true);
    assert_eq!(report, "[DEBUG] x = 1\nRun completed successfully, returning [1]\n");
}

#[test]
fn captured_log_is_taken_as_it_is() {
    let report = generate_run_result_log(&success(&[1]), &Vec::new(), "no line break", false, true);
    assert_eq!(report, "no line breakRun completed successfully, returning [1]\n");
    let report = generate_run_result_log(&success(&[1]), &Vec::new(), "", false, true);
    assert_eq!(report, "Run completed successfully, returning [1]\n");
}

#[test]
fn captured_log_is_left_out_unless_asked_for() {
    let report = generate_run_result_log(&success(&[1]), &Vec::new(), "[DEBUG] x = 1\n", false, false);
    assert_eq!(report, "Run completed successfully, returning [1]\n");
}

#[test]
fn all_sections_in_order() {
    let outcome = ExecutionOutcome {
        value: OutcomeValue::Panic(felts(&[1, 2])),
        remaining_budget: Some(FieldElement::from_u64(12)),
        memory_trace: vec![Some(FieldElement::from_u64(8)), None],
    };
    let items = vec![string("oops"), number("2")];
    let report = generate_run_result_log(&outcome, &items, "log line\n", true, true);
    assert_eq!(
        report,
        "log line\nRun panicked with [\"oops\"2].\nRemaining gas: 12\nFull memory: [8, _, ]\n"
    );
}

#[test]
fn text_beyond_ascii_is_kept() {
    let items = vec![string("grüß dich"), number("√2")];
    let report = generate_run_result_log(&panic_with(&[1]), &items, "→ log\n", false, true);
    assert_eq!(report, "→ log\nRun panicked with [\"grüß dich\"√2].\n");
}

#[test]
fn rendering_is_deterministic() {
    let outcome = ExecutionOutcome {
        value: OutcomeValue::Success(felts(&[1, 22, 333])),
        remaining_budget: Some(FieldElement::from_u64(4444)),
        memory_trace: vec![None, Some(FieldElement::from_u64(55555))],
    };
    let again = outcome.clone();
    let first = generate_run_result_log(&outcome, &Vec::new(), "log", true, true);
    let second = generate_run_result_log(&again, &Vec::new(), "log", true, true);
    assert_eq!(first.as_bytes(), second.as_bytes());
    assert_eq!(
        first,
        "logRun completed successfully, returning [1, 22, 333]\nRemaining gas: 4444\nFull memory: [_, 55555, ]\n"
    );
}

#[test]
fn large_values_are_written_in_full() {
    let outcome = ExecutionOutcome {
        value: OutcomeValue::Success(vec![FieldElement::from_bytes_be([0xff; 32])]),
        remaining_budget: None,
        memory_trace: Vec::new(),
    };
    let report = generate_run_result_log(&outcome, &Vec::new(), "", false, false);
    assert_eq!(
        report,
        "Run completed successfully, returning [115792089237316195423570985008687907853269984665640564039457584007913129639935]\n"
    );
}
