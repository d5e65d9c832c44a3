use forecast_watch::chunker::{chunk, split_string_into_sms_message_lengths, TEXT_MESSAGE_LENGTH};

fn text_of_length(length: usize) -> String {
    let alphabet: Vec<char> = "abcdefghijklmnopqrstuvwxyz0123456789 .,:".chars().collect();
    (0..length).map(|i| alphabet[(i * 7 + i / 40) % alphabet.len()]).collect()
}

fn lengths(chunks: &[String]) -> Vec<usize> {
    chunks.iter().map(|fragment| fragment.chars().count()).collect()
}

#[test]
fn message_length_is_160() {
    assert_eq!(TEXT_MESSAGE_LENGTH, 160);
}

#[test]
fn empty_text_has_no_fragments() {
    assert_eq!(chunk("", 1), Vec::<String>::new());
    assert_eq!(chunk("", 160), Vec::<String>::new());
    assert_eq!(split_string_into_sms_message_lengths(&String::new()), Vec::<String>::new());
}

#[test]
fn text_of_325_characters_is_cut_into_160_160_5() {
    let text = text_of_length(325);
    let chunks = split_string_into_sms_message_lengths(&text);
    assert_eq!(lengths(&chunks), vec![160, 160, 5]);
    assert_eq!(chunks.concat(), text);
    assert_eq!(chunks[0], text[0..160]);
    assert_eq!(chunks[1], text[160..320]);
    assert_eq!(chunks[2], text[320..325]);
    assert_eq!(chunk(&text, 160), chunks);
}

#[test]
fn exact_multiple_has_no_trailing_fragment() {
    for k in 1..5usize {
        let text = text_of_length(k * 160);
        let chunks = split_string_into_sms_message_lengths(&text);
        assert_eq!(chunks.len(), k);
        assert_eq!(lengths(&chunks), vec![160; k]);
    }
    assert_eq!(chunk("abcdef", 3), vec!["abc".to_string(), "def".to_string()]);
    assert_eq!(chunk("abcdef", 6), vec!["abcdef".to_string()]);
}

#[test]
fn short_text_is_one_fragment() {
    assert_eq!(chunk("abc", 160), vec!["abc".to_string()]);
    assert_eq!(chunk("a", 1), vec!["a".to_string()]);
}

#[test]
fn fragments_of_length_one() {
    assert_eq!(chunk("abc", 1), vec!["a".to_string(), "b".to_string(), "c".to_string()]);
}

#[test]
fn remainder_is_the_last_fragment() {
    assert_eq!(
        chunk("abcdefgh", 3),
        vec!["abc".to_string(), "def".to_string(), "gh".to_string()]
    );
    assert_eq!(chunk("abcd", 3), vec!["abc".to_string(), "d".to_string()]);
}

#[test]
fn fragment_count_is_length_over_max_rounded_up() {
    for (length, max_length, count) in [
        (0usize, 160usize, 0usize),
        (1, 160, 1),
        (159, 160, 1),
        (160, 160, 1),
        (161, 160, 2),
        (320, 160, 2),
        (321, 160, 3),
        (325, 160, 3),
        (700, 160, 5),
        (2000, 160, 13),
        (10, 3, 4),
        (10, 1, 10),
        (10, 10, 1),
        (10, 11, 1),
    ] {
        assert_eq!(chunk(&text_of_length(length), max_length).len(), count);
    }
}

#[test]
fn chunks_concatenate_to_the_text() {
    for length in [0usize, 1, 2, 5, 159, 160, 161, 325, 480, 701] {
        let text = text_of_length(length);
        for max_length in [1usize, 2, 3, 7, 160, 161, 1000] {
            let chunks = chunk(&text, max_length);
            assert_eq!(chunks.concat(), text);
            for (index, fragment) in chunks.iter().enumerate() {
                let size = fragment.chars().count();
                assert!(size >= 1);
                assert!(size <= max_length);
                if index + 1 < chunks.len() {
                    assert_eq!(size, max_length);
                }
            }
        }
    }
}

#[test]
fn fragments_are_counted_in_characters() {
    let text = "Böen über 100 km/h, −12 °C, Schnee ❄❄";
    let chunks = chunk(text, 4);
    assert_eq!(chunks.concat(), text);
    assert_eq!(chunks[0], "Böen");
    assert_eq!(chunks[1], " übe");
    assert_eq!(chunks.len(), (text.chars().count() + 3) / 4);
    let snow = chunk("❄❄❄", 2);
    assert_eq!(snow, vec!["❄❄".to_string(), "❄".to_string()]);
}

#[test]
fn chunking_is_restartable() {
    let text = text_of_length(500);
    assert_eq!(chunk(&text, 160), chunk(&text, 160));
}

#[test]
fn zero_length_admits_no_fragment() {
    assert_eq!(chunk("abc", 0), Vec::<String>::new());
    assert_eq!(chunk("", 0), Vec::<String>::new());
}
