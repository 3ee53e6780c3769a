// Widths here are in tenths of a unit: an advance of 10.0 is written 100.
use font_widths::{FontError, FontWidths};

fn advances_with(entries: &[(char, i32)]) -> Vec<i32> {
    let mut widths = vec![0i32; 95];
    for &(c, w) in entries {
        widths[(c as usize) - 32] = w;
    }
    widths
}

fn helvetica() -> FontWidths {
    let mut store = FontWidths::new();
    let widths = advances_with(&[(' ', 40), ('A', 100), ('B', 90)]);
    assert_eq!(store.create_ascii_map("Helvetica".to_string(), widths), Ok(()));
    assert_eq!(
        store.create_kerning_map("Helvetica".to_string(), vec![b'A', b'B'], vec![15]),
        Ok(())
    );
    store
}

fn width(store: &FontWidths, text: &str) -> i128 {
    store.text_width("Helvetica".to_string(), text.to_string())
}

#[test]
fn kerned_pair_scenario() {
    let store = helvetica();
    assert_eq!(width(&store, "AB"), 175);
    assert_eq!(width(&store, "BA"), 190);
}

#[test]
fn batch_scenario() {
    let store = helvetica();
    let texts = vec!["A".to_string(), "AB".to_string(), String::new()];
    assert_eq!(store.text_widths("Helvetica".to_string(), texts), vec![100, 175, 0]);
}

#[test]
fn unregistered_font() {
    let store = helvetica();
    assert_eq!(store.text_width("Courier".to_string(), "AB".to_string()), 0);
    let texts = vec!["A".to_string(), "AB".to_string()];
    assert_eq!(store.text_widths("Courier".to_string(), texts), Vec::<i128>::new());
    assert!(store.get(&"Courier".to_string()).is_none());
}

#[test]
fn empty_text_is_zero() {
    let store = helvetica();
    assert_eq!(width(&store, ""), 0);
}

#[test]
fn single_characters_measure_their_advance() {
    let mut store = FontWidths::new();
    let widths: Vec<i32> = (0..95).map(|i| 3 * i + 7).collect();
    store.create_ascii_map("Mono".to_string(), widths.clone()).unwrap();
    // A pair for every combination does not touch single characters.
    store
        .create_kerning_map("Mono".to_string(), vec![b'A', b'A', b'x', b'y'], vec![5, 6])
        .unwrap();
    for code in 32u8..=126 {
        let text = (code as char).to_string();
        assert_eq!(
            store.text_width("Mono".to_string(), text),
            widths[(code - 32) as usize] as i128
        );
    }
}

#[test]
fn registered_pair_is_subtracted() {
    let mut store = FontWidths::new();
    let widths = advances_with(&[('T', 61), ('o', 55)]);
    store.create_ascii_map("Serif".to_string(), widths).unwrap();
    store.create_kerning_map("Serif".to_string(), b"To".to_vec(), vec![8]).unwrap();
    assert_eq!(store.text_width("Serif".to_string(), "To".to_string()), 61 + 55 - 8);
    assert_eq!(store.text_width("Serif".to_string(), "oT".to_string()), 55 + 61);
}

#[test]
fn registering_advances_twice_changes_nothing() {
    let widths = advances_with(&[(' ', 40), ('A', 100), ('B', 90)]);
    let mut once = FontWidths::new();
    once.create_ascii_map("F".to_string(), widths.clone()).unwrap();
    let mut twice = FontWidths::new();
    twice.create_ascii_map("F".to_string(), widths.clone()).unwrap();
    twice.create_ascii_map("F".to_string(), widths).unwrap();
    for text in ["", "A", "AB A", "BBA"] {
        assert_eq!(
            once.text_width("F".to_string(), text.to_string()),
            twice.text_width("F".to_string(), text.to_string())
        );
    }
}

#[test]
fn kerning_registration_keeps_advances() {
    let mut store = FontWidths::new();
    let widths = advances_with(&[('A', 100), ('B', 90)]);
    store.create_ascii_map("F".to_string(), widths).unwrap();
    store.create_kerning_map("F".to_string(), b"AB".to_vec(), vec![15]).unwrap();
    let font = store.get(&"F".to_string()).unwrap();
    assert_eq!(font.advance(b'A'), 100);
    assert_eq!(font.advance(b'B'), 90);
    assert_eq!(font.kerning(b'A', b'B'), Some(15));
}

#[test]
fn advance_registration_keeps_kerning() {
    let mut store = FontWidths::new();
    store.create_kerning_map("F".to_string(), b"AB".to_vec(), vec![15]).unwrap();
    let widths = advances_with(&[('A', 100), ('B', 90)]);
    store.create_ascii_map("F".to_string(), widths).unwrap();
    let font = store.get(&"F".to_string()).unwrap();
    assert_eq!(font.kerning(b'A', b'B'), Some(15));
    assert_eq!(font.kerning(b'B', b'A'), None);
    assert_eq!(store.text_width("F".to_string(), "AB".to_string()), 175);
}


#[test]
fn kerning_before_advances_creates_a_blank_font() {
    let mut store = FontWidths::new();
    store.create_kerning_map("F".to_string(), b"AB".to_vec(), vec![15]).unwrap();
    let font = store.get(&"F".to_string()).unwrap();
    assert_eq!(font.advance(b'A'), 0);
    assert_eq!(store.text_width("F".to_string(), "AB".to_string()), -15);
}

#[test]
fn accented_letter_measures_its_transliteration() {
    let store = helvetica();
    assert_eq!(width(&store, "\u{c9}"), 0);
    assert_eq!(width(&store, "\u{c0}"), 100);
    assert_eq!(width(&store, "\u{c0}B"), 175);
    assert_eq!(width(&store, "\u{c5}\u{df}"), 100);
}

#[test]
fn font_map_transliterates_text() {
    let store = helvetica();
    let font = store.get(&"Helvetica".to_string()).unwrap();
    assert_eq!(font.text_width(&"\u{c0}\u{df}B".to_string()), 100 + 90);
    assert_eq!(font.ascii_text_width(&vec!['\u{c0}', 'B']), 90);
}

#[test]
fn unprintable_characters_are_skipped() {
    let store = helvetica();
    assert_eq!(width(&store, "A\tB"), 175);
    assert_eq!(width(&store, "\nA"), 100);
    let font = store.get(&"Helvetica".to_string()).unwrap();
    assert_eq!(font.ascii_text_width(&vec!['A', '\u{7f}', 'B']), 175);
}

#[test]
fn spaces_count() {
    let store = helvetica();
    assert_eq!(width(&store, "A B"), 100 + 40 + 90);
}

#[test]
fn later_pair_overwrites_earlier() {
    let mut store = helvetica();
    store
        .create_kerning_map("Helvetica".to_string(), b"ABAB".to_vec(), vec![10, 20])
        .unwrap();
    assert_eq!(width(&store, "AB"), 170);
    assert_eq!(width(&store, "ABAB"), 100 + 90 + 100 + 90 - 20 - 20);
}

#[test]
fn wrong_advance_count_is_refused() {
    let mut store = FontWidths::new();
    assert_eq!(
        store.create_ascii_map("F".to_string(), vec![1; 94]),
        Err(FontError::InvalidInput)
    );
    assert_eq!(
        store.create_ascii_map("F".to_string(), vec![1; 96]),
        Err(FontError::InvalidInput)
    );
    assert!(store.get(&"F".to_string()).is_none());
}

#[test]
fn odd_kerning_keys_are_refused() {
    let mut store = helvetica();
    assert_eq!(
        store.create_kerning_map("Helvetica".to_string(), b"ABA".to_vec(), vec![1]),
        Err(FontError::InvalidInput)
    );
    assert_eq!(
        store.create_kerning_map("Helvetica".to_string(), b"BA".to_vec(), vec![1, 2]),
        Err(FontError::InvalidInput)
    );
    assert_eq!(width(&store, "BA"), 190);
    assert!(store.create_kerning_map("X".to_string(), vec![], vec![]).is_ok());
}

#[test]
fn long_text_sums_every_character() {
    let store = helvetica();
    let text = "AB".repeat(1000);
    assert_eq!(width(&store, &text), 1000 * 175);
}

#[test]
fn negative_advances() {
    let mut store = FontWidths::new();
    let widths = advances_with(&[('A', -2_000_000_000), ('B', -2_000_000_000)]);
    store.create_ascii_map("F".to_string(), widths).unwrap();
    store.create_kerning_map("F".to_string(), b"AB".to_vec(), vec![i32::MAX]).unwrap();
    assert_eq!(
        store.text_width("F".to_string(), "AB".to_string()),
        -4_000_000_000i128 - i32::MAX as i128
    );
}
