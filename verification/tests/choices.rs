use bewegung::selection::{chosen_texts, missing_cover_photos, option_choices, selected_values};
use bewegung::sql_filter::FilterValue;

#[test]
fn chosen_options_in_list_order() {
    let opts = vec![("a".to_string(), true), ("b".to_string(), false), ("c".to_string(), true)];
    assert_eq!(selected_values(&opts), vec!["a".to_string(), "c".to_string()]);
    assert!(selected_values(&vec![]).is_empty());
}

#[test]
fn stored_choices_mark_options() {
    let values = vec!["Work".to_string(), "Fun".to_string(), "Kids".to_string()];
    let chosen = vec!["Kids".to_string(), "Work".to_string(), "Other".to_string()];
    assert_eq!(option_choices(&values, &chosen), vec![true, false, true]);
    assert_eq!(option_choices(&values, &vec![]), vec![false, false, false]);
}

#[test]
fn stored_filter_texts() {
    let v = FilterValue::List(vec![Some("a".into()), None, Some("b".into())]);
    assert_eq!(chosen_texts(&v), vec!["a".to_string(), "b".to_string()]);
    assert!(chosen_texts(&FilterValue::Other).is_empty());
}

#[test]
fn cover_photos_missing_from_album() {
    let album = vec![Some("/p/1.jpg".to_string()), None, Some("/p/3.jpg".to_string())];
    let covers = vec![Some("/p/1.jpg".to_string()), Some("/p/2.jpg".to_string()), None, Some("/p/2.jpg".to_string())];
    assert_eq!(missing_cover_photos(&album, &covers), vec!["/p/2.jpg".to_string(), "/p/2.jpg".to_string()]);
    assert!(missing_cover_photos(&album, &vec![]).is_empty());
}
