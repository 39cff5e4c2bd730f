use llm_backend::names::find_name;

fn names(list: &[&str]) -> Vec<String> {
    list.iter().map(|name| name.to_string()).collect()
}

#[test]
fn a_name_is_found_where_it_first_stands() {
    let list = names(&["a", "b", "a", "c"]);
    assert_eq!(find_name(&list, &"a".to_string()), Some(0));
    assert_eq!(find_name(&list, &"b".to_string()), Some(1));
    assert_eq!(find_name(&list, &"c".to_string()), Some(3));
}

#[test]
fn a_name_that_is_not_there_is_not_found() {
    let list = names(&["a", "b"]);
    assert_eq!(find_name(&list, &"d".to_string()), None);
    assert_eq!(find_name(&list, &"".to_string()), None);
    assert_eq!(find_name(&list, &"A".to_string()), None);
    assert_eq!(find_name(&Vec::new(), &"a".to_string()), None);
}
