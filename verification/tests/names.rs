use data_backs::name::{is_name_char, is_valid_name};

#[test]
fn letters_digits_dash_underscore_are_valid() {
    assert!(is_valid_name("metrics"));
    assert!(is_valid_name("a-b_c-9"));
    assert!(is_valid_name("Z0"));
    assert!(is_valid_name("-"));
    assert!(is_valid_name("_"));
    assert!(is_valid_name("widget"));
}

#[test]
fn letters_and_digits_of_other_scripts_are_valid() {
    assert!(is_valid_name("données"));
    assert!(is_valid_name("数据-٣"));
}

#[test]
fn any_other_character_makes_a_name_invalid() {
    assert!(!is_valid_name("bad name!"));
    assert!(!is_valid_name("bad name"));
    assert!(!is_valid_name("a/b"));
    assert!(!is_valid_name("a.b"));
    assert!(!is_valid_name(".."));
    assert!(!is_valid_name("metrics!"));
    assert!(!is_valid_name("!metrics"));
    assert!(!is_valid_name("me trics"));
    assert!(!is_valid_name("a:b"));
    assert!(!is_valid_name("a\\b"));
    assert!(!is_valid_name("a\nb"));
}

#[test]
fn the_empty_name_is_valid() {
    assert!(is_valid_name(""));
}

#[test]
fn one_invalid_character_anywhere_is_found() {
    for position in 0..5 {
        let mut name: Vec<char> = "abcde".chars().collect();
        name[position] = ' ';
        let name: String = name.into_iter().collect();
        assert!(!is_valid_name(&name), "{:?}", name);
    }
}

#[test]
fn name_char_goes_by_the_answer_it_is_given() {
    assert!(is_name_char('a', true));
    assert!(!is_name_char('a', false));
    assert!(is_name_char('-', false));
    assert!(is_name_char('_', false));
    assert!(!is_name_char(' ', false));
    assert!(!is_name_char('.', false));
    assert!(!is_name_char('/', false));
}
