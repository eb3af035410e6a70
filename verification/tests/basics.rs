use std::path::Path;

use lunamate_ui::fresh_id::{contains_text, fresh_id, same_texts};
use lunamate_ui::id_set::{IdSet, TextSet};
use lunamate_ui::number_text::{
    characters, decimal, non_empty, number_is_accepted, parse_u32, trim, white_space,
};
use lunamate_ui::path::{same_optional_path, same_path};
use lunamate_ui::text::{clone_optional, same_optional, strip_suffix};

fn texts(list: &[&str]) -> Vec<String> {
    list.iter().map(|text| text.to_string()).collect()
}

#[test]
fn white_space_is_that_of_unicode() {
    for code in 0..=0x10ffff_u32 {
        if let Some(c) = char::from_u32(code) {
            assert_eq!(white_space(c), c.is_whitespace(), "{code:x}");
        }
    }
}

#[test]
fn trimming_takes_white_space_from_both_ends_only() {
    for text in ["", " ", "a", " a b ", "\t\u{3000}猫\n", "a ", " a", "\u{200b}x"] {
        assert_eq!(trim(text), text.trim());
    }
}

#[test]
fn characters_are_listed_in_order() {
    assert_eq!(characters("a猫b"), vec!['a', '猫', 'b']);
    assert_eq!(characters(""), Vec::<char>::new());
}

#[test]
fn blank_text_is_no_value() {
    assert_eq!(non_empty("  "), None);
    assert_eq!(non_empty(""), None);
    assert_eq!(non_empty(" key "), Some("key".to_string()));
}

#[test]
fn numbers_are_read_like_the_standard_parser_does() {
    for text in [
        "", " ", "0", "7", "007", "+7", "-7", "+", "4294967295", "4294967296", "99999999999999999999",
        " 12 ", "1 2", "1_000", "12a", "٣", "+0",
    ] {
        let trimmed = text.trim();
        let expected = if trimmed.is_empty() { None } else { trimmed.parse::<u32>().ok() };
        assert_eq!(parse_u32(text), expected, "{text}");
    }
}

#[test]
fn shown_numbers_are_read_back() {
    for value in [0_u32, 1, 9, 10, 99, 100, 12345, u32::MAX] {
        assert_eq!(decimal(value as u64), value.to_string());
        assert_eq!(parse_u32(&decimal(value as u64)), Some(value));
    }
    assert_eq!(decimal(u64::MAX), u64::MAX.to_string());
}

#[test]
fn suffix_is_stripped_where_it_is_there() {
    assert_eq!(strip_suffix("cat.model3.json", ".model3.json"), Some("cat".to_string()));
    assert_eq!(strip_suffix(".model3.json", ".model3.json"), Some(String::new()));
    assert_eq!(strip_suffix("cat.json", ".model3.json"), None);
    assert_eq!(strip_suffix("猫.model3.json", ".model3.json"), Some("猫".to_string()));
}

#[test]
fn optional_texts_are_compared_by_content() {
    let some = Some("a".to_string());
    assert!(same_optional(&some, &clone_optional(&some)));
    assert!(!same_optional(&some, &None));
    assert!(!same_optional(&some, &Some("b".to_string())));
    assert!(same_optional(&None, &None));
}

#[test]
fn fresh_identifier_takes_the_smallest_free_number() {
    assert_eq!(fresh_id("model-", &texts(&[])), "model-1");
    assert_eq!(fresh_id("model-", &texts(&["model-1", "model-3"])), "model-2");
    assert_eq!(fresh_id("model-", &texts(&["model-2", "model-1", "other", "model-1"])), "model-3");
    assert_eq!(fresh_id("model-", &texts(&["model-01"])), "model-1");
    assert!(!contains_text(&texts(&["a", "b"]), &"c".to_string()));
    assert!(contains_text(&texts(&["a", "b"]), &"b".to_string()));
}

#[test]
fn set_of_numbers_counts_each_once() {
    let mut set = IdSet::new();
    assert!(set.is_empty());
    assert!(set.insert(4));
    assert!(!set.insert(4));
    set.extend(&vec![4, 5, 5, 6]);
    assert_eq!(set.len(), 3);
    set.remove(5);
    assert!(!set.contains(5));
    assert!(set.contains(6));
    let copy = set.copy();
    set.remove_all(&vec![4, 6, 9]);
    assert!(set.is_empty());
    assert_eq!(copy.len(), 2);
}

#[test]
fn set_of_texts_can_be_narrowed() {
    let mut set = TextSet::new();
    set.extend(&texts(&["a", "b", "a", "c"]));
    assert!(set.contains(&"c".to_string()));
    let rest = set.without(&texts(&["a"]));
    assert!(!rest.contains(&"a".to_string()));
    assert!(rest.contains(&"b".to_string()));
    let mut kept = TextSet::new();
    kept.insert("a".to_string());
    let copy = set.copy();
    set.retain(&kept);
    assert!(set.contains(&"a".to_string()));
    assert!(!set.contains(&"b".to_string()));
    set.remove(&"a".to_string());
    assert!(set.is_empty());
    assert!(!copy.is_empty());
}

#[test]
fn number_fields_accept_digits_alone() {
    for text in ["0", "7", "007", "4294967295"] {
        assert!(number_is_accepted(text), "{text}");
    }
    for text in ["", " ", "+7", " 7", "7 ", "-1", "1.0", "4294967296", "\u{0667}", "a"] {
        assert!(!number_is_accepted(text), "{text}");
    }
}

#[test]
fn paths_are_compared_by_components() {
    let mut spelled = vec![String::new()];
    let mut longest = vec![String::new()];
    for _ in 0..5 {
        let mut longer = Vec::new();
        for text in &longest {
            for c in ['a', '.', '/'] {
                longer.push(format!("{text}{c}"));
            }
        }
        spelled.extend(longer.iter().cloned());
        longest = longer;
    }
    for left in &spelled {
        for right in &spelled {
            let same = Path::new(left) == Path::new(right);
            assert_eq!(same_path(left, right), same, "{left} {right}");
        }
    }
    assert!(same_path("models//fox/./x.json/", "models/fox/x.json"));
    assert!(!same_path("./models", "models"));
    assert!(!same_path("/models", "models"));
    assert!(!same_path("models/../fox", "fox"));
}

#[test]
fn optional_paths_are_compared() {
    let path = |text: &str| Some(text.to_string());
    assert!(same_optional_path(&path("a//b"), &path("a/b")));
    assert!(!same_optional_path(&path("a"), &path("b")));
    assert!(!same_optional_path(&path("a"), &None));
    assert!(!same_optional_path(&None, &path("a")));
    assert!(same_optional_path(&None, &None));
}

#[test]
fn lists_of_texts_are_compared_in_order() {
    assert!(same_texts(&texts(&["a", "b"]), &texts(&["a", "b"])));
    assert!(!same_texts(&texts(&["a", "b"]), &texts(&["b", "a"])));
    assert!(!same_texts(&texts(&["a"]), &texts(&["a", "b"])));
}
