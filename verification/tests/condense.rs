use forecast_watch::condense::{condense_forecast, remove_line_breaks, PART_SEPARATOR};

#[test]
fn line_breaks_are_removed() {
    assert_eq!(remove_line_breaks("Mon:\nwindy.\n"), "Mon:windy.");
    assert_eq!(remove_line_breaks("\n\n"), "");
    assert_eq!(remove_line_breaks(""), "");
    assert_eq!(remove_line_breaks("a\nb\nc"), "abc");
}

#[test]
fn text_without_line_breaks_is_kept() {
    assert_eq!(remove_line_breaks("Tue: clear."), "Tue: clear.");
    assert_eq!(remove_line_breaks("−12 °C\r\t ❄"), "−12 °C\r\t ❄");
}

#[test]
fn removing_line_breaks_agrees_with_replace() {
    for text in ["", "\n", "a\n\nb", "no breaks", "\nfront", "back\n", "Böen\nüber\n100"] {
        assert_eq!(remove_line_breaks(text), text.replace("\n", ""));
    }
}

#[test]
fn parts_are_joined_by_single_spaces() {
    let parts = vec![
        "Mon:\nwindy.".to_string(),
        "Tue:\nclear.".to_string(),
        "Wed:\nsnow.".to_string(),
    ];
    assert_eq!(condense_forecast(&parts), "Mon:windy. Tue:clear. Wed:snow.");
    assert_eq!(PART_SEPARATOR, ' ');
}

#[test]
fn no_parts_give_the_empty_forecast() {
    assert_eq!(condense_forecast(&Vec::new()), "");
}

#[test]
fn one_part_has_no_separator() {
    assert_eq!(condense_forecast(&vec!["Mon:\nwindy.".to_string()]), "Mon:windy.");
}

#[test]
fn empty_parts_still_count() {
    let parts = vec!["".to_string(), "a".to_string(), "\n".to_string(), "b".to_string()];
    assert_eq!(condense_forecast(&parts), " a  b");
}

#[test]
fn condensing_agrees_with_replace_and_join() {
    let parts = vec![
        "Today\nHigh 20F\nWind NW 50-70 mph".to_string(),
        "Tonight\nLow 5F".to_string(),
        "Tomorrow\nHigh 15F\n".to_string(),
    ];
    let expected = parts
        .iter()
        .map(|part| part.replace("\n", ""))
        .collect::<Vec<_>>()
        .join(" ");
    assert_eq!(condense_forecast(&parts), expected);
}
