use mplayer::utils::StringFeatures;

#[test]
fn insert_if_empty_fills_an_empty_string() {
    let mut text = String::new();
    text.insert_if_empty("fallback");
    assert_eq!(text, "fallback");
}

#[test]
fn insert_if_empty_leaves_a_filled_string_alone() {
    let mut text = String::from("kept");
    text.insert_if_empty("fallback");
    assert_eq!(text, "kept");
}

#[test]
fn insert_if_empty_with_empty_content_keeps_the_string_empty() {
    let mut text = String::new();
    text.insert_if_empty("");
    assert_eq!(text, "");
}
