use responses_proxy::call_ids::{
    next_generated_tool_call_id, normalize_tool_call_id, normalize_tool_output_call_id,
};
use std::collections::VecDeque;

#[test]
fn ids_are_numbered_and_distinct() {
    let mut counter: usize = 9;
    assert_eq!(next_generated_tool_call_id(&mut counter), "call_proxy_9");
    assert_eq!(next_generated_tool_call_id(&mut counter), "call_proxy_10");
    assert_eq!(counter, 11);
    let mut seen = Vec::new();
    let mut counter: usize = 0;
    for n in 0..1200usize {
        let id = next_generated_tool_call_id(&mut counter);
        assert_eq!(id, format!("call_proxy_{}", n));
        assert!(!seen.contains(&id));
        seen.push(id);
    }
    let mut last = usize::MAX - 1;
    assert_eq!(next_generated_tool_call_id(&mut last), format!("call_proxy_{}", usize::MAX - 1));
}

#[test]
fn an_id_that_says_something_is_kept_as_it_is() {
    let mut pending = VecDeque::new();
    let mut counter = 0;
    assert_eq!(normalize_tool_call_id(" call_1 ", &mut pending, &mut counter), " call_1 ");
    assert_eq!(normalize_tool_output_call_id("call_1", &mut pending, &mut counter), "call_1");
    assert!(pending.is_empty());
    assert_eq!(counter, 0);
}

#[test]
fn outputs_answer_calls_in_their_order() {
    let mut pending = VecDeque::new();
    let mut counter = 0;
    let first = normalize_tool_call_id("", &mut pending, &mut counter);
    let second = normalize_tool_call_id(" \t\u{3000}", &mut pending, &mut counter);
    assert_eq!((first.as_str(), second.as_str()), ("call_proxy_0", "call_proxy_1"));
    assert_eq!(pending.len(), 2);
    assert_eq!(normalize_tool_output_call_id("", &mut pending, &mut counter), first);
    let third = normalize_tool_call_id("", &mut pending, &mut counter);
    assert_eq!(normalize_tool_output_call_id("\n", &mut pending, &mut counter), second);
    assert_eq!(normalize_tool_output_call_id("", &mut pending, &mut counter), third);
    assert_eq!(third, "call_proxy_2");
    assert!(pending.is_empty());
}

#[test]
fn an_output_without_a_call_is_given_a_new_id() {
    let mut pending = VecDeque::new();
    let mut counter = 4;
    assert_eq!(normalize_tool_output_call_id("", &mut pending, &mut counter), "call_proxy_4");
    assert_eq!(counter, 5);
    assert!(pending.is_empty());
    assert_eq!(normalize_tool_call_id("", &mut pending, &mut counter), "call_proxy_5");
}

#[test]
fn a_full_counter_matters_only_where_an_id_is_made() {
    let mut pending = VecDeque::new();
    let mut counter = usize::MAX;
    assert_eq!(normalize_tool_call_id("x", &mut pending, &mut counter), "x");
    assert_eq!(normalize_tool_output_call_id("x", &mut pending, &mut counter), "x");
    pending.push_back("waits".to_string());
    assert_eq!(normalize_tool_output_call_id("", &mut pending, &mut counter), "waits");
    assert_eq!(counter, usize::MAX);
    assert!(pending.is_empty());
}

#[test]
fn ids_go_first_in_first_out() {
    for start in [0, usize::MAX - 7] {
        let mut pending = VecDeque::new();
        let mut counter = start;
        let mut made = Vec::new();
        for given in ["", " ", "\t", "", "\n ", "", ""] {
            made.push(normalize_tool_call_id(given, &mut pending, &mut counter));
        }
        assert_eq!(counter, start + 7);
        for (i, given) in [" ", "", "", "\u{a0}", "", " ", ""].iter().enumerate() {
            assert_eq!(normalize_tool_output_call_id(given, &mut pending, &mut counter), made[i]);
        }
        assert!(pending.is_empty());
        assert_eq!(counter, start + 7);
    }
}
