use os_detect::tables::ReferenceTables;
use os_detect::text::contains;

fn strings(values: &[&str]) -> Vec<String> {
    values.iter().map(|value| value.to_string()).collect()
}

#[test]
fn tables_accept_exactly_what_they_list() {
    let tables = ReferenceTables::new(strings(&["x86_64", "aarch64"]), strings(&["Ubuntu"]));
    assert!(tables.accepts_architecture(&"x86_64".to_string()));
    assert!(tables.accepts_architecture(&"aarch64".to_string()));
    assert!(!tables.accepts_architecture(&"i386".to_string()));
    assert!(!tables.accepts_architecture(&"Ubuntu".to_string()));
    assert!(tables.accepts_distribution(&"Ubuntu".to_string()));
    assert!(!tables.accepts_distribution(&"x86_64".to_string()));
    assert!(!tables.accepts_distribution(&"".to_string()));
}

#[test]
fn empty_tables_accept_nothing() {
    let tables = ReferenceTables::new(Vec::new(), Vec::new());
    assert!(!tables.accepts_architecture(&"x86_64".to_string()));
    assert!(!tables.accepts_distribution(&"Ubuntu".to_string()));
}

#[test]
fn contains_compares_whole_strings() {
    let list = strings(&["alpha", "beta", "beta", ""]);
    assert!(contains(&list, &"alpha".to_string()));
    assert!(contains(&list, &"beta".to_string()));
    assert!(contains(&list, &"".to_string()));
    assert!(!contains(&list, &"alph".to_string()));
    assert!(!contains(&list, &"Alpha".to_string()));
    assert!(!contains(&Vec::new(), &"alpha".to_string()));
}
