use tg_bot::coerce::{
    compose_description, count_at, flag_at, list_at, pair_admission_methods, pair_faq,
    pair_scholarships, pair_team, text_at, text_count, text_flag, trim_each,
};

fn strings(items: &[&str]) -> Vec<String> {
    items.iter().map(|s| s.to_string()).collect()
}

#[test]
fn boolean_coercion() {
    assert!(text_flag("Да"));
    assert!(!text_flag("Нет"));
    assert!(text_flag("  общежитие: да "));
    assert!(!flag_at(&Vec::new(), 4));
    assert!(flag_at(&strings(&["да"]), 0));
}

#[test]
fn numeric_coercion() {
    assert_eq!(text_count("120"), 120);
    assert_eq!(text_count(""), 0);
    assert_eq!(text_count("abc"), 0);
    assert_eq!(text_count(" 42 "), 42);
    assert_eq!(text_count("+7"), 7);
    assert_eq!(text_count("12a"), 0);
    assert_eq!(text_count("-3"), 0);
    assert_eq!(text_count("4294967295"), 4294967295);
    assert_eq!(text_count("4294967296"), 0);
    assert_eq!(count_at(&strings(&["5"]), 0), 5);
    assert_eq!(count_at(&strings(&["5"]), 1), 0);
}

#[test]
fn description_composition() {
    assert_eq!(compose_description("L", "D"), "L\n\nD");
    assert_eq!(compose_description("L", ""), "L");
    assert_eq!(compose_description("", "D"), "D");
    assert_eq!(compose_description("", ""), "");
}

#[test]
fn list_pairing_with_offset() {
    let titles: Vec<String> = (0..9).map(|i| format!("t{}", i)).collect();
    let descs: Vec<String> = (0..9).map(|i| format!("d{}", i)).collect();
    let faq = pair_faq(&titles, &descs, 7);
    assert_eq!(faq.len(), 2);
    assert_eq!(faq[0].question, "t7");
    assert_eq!(faq[0].answer, "d7");
    assert_eq!(faq[1].question, "t8");
    assert_eq!(faq[1].answer, "d8");
    let methods = pair_admission_methods(&titles, &descs, 7);
    assert_eq!(methods.len(), 7);
    for (i, m) in methods.iter().enumerate() {
        assert_eq!(m.name, format!("t{}", i));
        assert_eq!(m.description, format!("d{}", i));
    }
}

#[test]
fn pairing_uses_shorter_list() {
    let a = strings(&["a0", "a1", "a2"]);
    let b = strings(&["b0"]);
    assert_eq!(pair_admission_methods(&a, &b, 7).len(), 1);
    assert_eq!(pair_faq(&a, &b, 7).len(), 0);
    assert_eq!(pair_faq(&a, &a, 1).len(), 2);
}

#[test]
fn even_odd_pairing() {
    let items = strings(&["n0", "a0", "n1", "a1"]);
    let s = pair_scholarships(&items);
    assert_eq!(s.len(), 2);
    assert_eq!(s[0].name, "n0");
    assert_eq!(s[0].amount, "a0");
    assert_eq!(s[1].name, "n1");
    assert_eq!(s[1].amount, "a1");
    let odd = strings(&["n0", "a0", "n1"]);
    let s = pair_scholarships(&odd);
    assert_eq!(s.len(), 1);
    assert_eq!(s[0].name, "n0");
    assert!(pair_scholarships(&Vec::new()).is_empty());
}

#[test]
fn team_pairing_fills_missing_positions() {
    let t = pair_team(&strings(&["A", "B"]), &strings(&["P"]));
    assert_eq!(t.len(), 2);
    assert_eq!(t[0].position, "P");
    assert_eq!(t[1].position, "");
    assert!(t[0].degree.is_none());
}

#[test]
fn text_lists() {
    assert_eq!(text_at(&strings(&["x"]), 0), "x");
    assert_eq!(text_at(&strings(&["x"]), 3), "");
    assert_eq!(list_at(&strings(&["a, b ,c"]), 0), strings(&["a", "b ,c"]));
    assert!(list_at(&Vec::new(), 7).is_empty());
    assert_eq!(trim_each(&strings(&["  a ", "\tb\n"])), strings(&["a", "b"]));
}
