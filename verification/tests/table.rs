use ettac::table::merge_tables;

fn e(k: &str, v: i32) -> (String, i32) {
    (k.to_string(), v)
}

fn get(entries: &[(String, i32)], key: &str) -> Option<i32> {
    entries.iter().rev().find(|(k, _)| k == key).map(|(_, v)| *v)
}

#[test]
fn merge_later_values_win() {
    let out = merge_tables(vec![e("a", 1), e("b", 2)], vec![e("b", 20), e("c", 30)]);
    assert_eq!(out, vec![e("a", 1), e("b", 20), e("c", 30)]);
}

#[test]
fn merge_into_empty_defaults() {
    assert_eq!(merge_tables(vec![], vec![e("x", 1)]), vec![e("x", 1)]);
    assert_eq!(merge_tables(vec![e("x", 1)], vec![]), vec![e("x", 1)]);
}

#[test]
fn merge_repeated_key_in_top_keeps_last() {
    let out = merge_tables(vec![e("a", 1)], vec![e("a", 2), e("a", 3)]);
    assert_eq!(out, vec![e("a", 3)]);
}

#[test]
fn merge_stepwise_equals_merge_at_once() {
    let defaults = vec![e("a", 1), e("b", 2)];
    let first = vec![e("b", 3), e("c", 4)];
    let second = vec![e("c", 5), e("d", 6)];
    let stepwise = merge_tables(merge_tables(defaults.clone(), first.clone()), second.clone());
    let at_once = merge_tables(defaults, merge_tables(first, second));
    for key in ["a", "b", "c", "d", "z"] {
        assert_eq!(get(&stepwise, key), get(&at_once, key));
    }
}
