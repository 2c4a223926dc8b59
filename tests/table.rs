use wasm_zici::{
    distinct_strings, ensure_loaded, get_all_new_chars_from_txt, get_new_chars, CharTable,
};

#[test]
fn test_get_all_new_chars_from_txt() {
    let mut slot: Option<CharTable> = None;
    ensure_loaded(&mut slot);
    assert!(slot.is_some(), "Global characters not initialized");

    let chars = slot.as_ref().unwrap();
    assert_eq!(chars.len(), 12, "Expected 12 terms, got {}", chars.len());

    for i in 0..chars.len() {
        let term_chars = chars.row(i);
        assert!(!term_chars.is_empty(), "Term {} has no characters", i + 1);
        println!("Term {} has {} characters", i + 1, term_chars.len());
    }
}

#[test]
fn test_get_new_chars() {
    let chars = get_all_new_chars_from_txt();

    let test_cases = vec![
        (1, 1, 0),
        (1, 2, 1),
        (2, 1, 2),
        (2, 2, 3),
        (3, 1, 4),
        (3, 2, 5),
        (4, 1, 6),
        (4, 2, 7),
        (5, 1, 8),
        (5, 2, 9),
        (6, 1, 10),
        (6, 2, 11),
    ];

    for (grade, term, index) in test_cases {
        assert!(
            index < chars.len(),
            "Grade {} Term {} maps to invalid index {}",
            grade,
            term,
            index
        );
        assert!(
            !chars.row(index).is_empty(),
            "Grade {} Term {} should have characters",
            grade,
            term
        );
        println!(
            "Grade {} Term {} has {} characters",
            grade,
            term,
            chars.row(index).len()
        );
    }
}

#[test]
fn lookup_matches_row_order() {
    let table = get_all_new_chars_from_txt();
    let mut slot: Option<CharTable> = None;
    for grade in 1..=6usize {
        for term in 1..=2usize {
            let index = (grade - 1) * 2 + (term - 1);
            let got = get_new_chars(&mut slot, grade, term);
            assert_eq!(&got, table.row(index));
            assert_eq!(got, table.chars_for(grade, term));
        }
    }
}

#[test]
fn row_lengths_are_exact() {
    let table = get_all_new_chars_from_txt();
    let expected: [usize; 12] = [102, 200, 250, 250, 250, 250, 250, 250, 220, 180, 180, 120];
    for (i, n) in expected.iter().enumerate() {
        assert_eq!(table.row(i).len(), *n);
    }
}

#[test]
fn rows_hold_distinct_single_characters() {
    let table = get_all_new_chars_from_txt();
    for i in 0..table.len() {
        let row = table.row(i);
        for (a, s) in row.iter().enumerate() {
            assert_eq!(s.chars().count(), 1);
            for t in row.iter().skip(a + 1) {
                assert_ne!(s, t);
            }
        }
    }
}

#[test]
fn first_and_last_rows_begin_and_end_as_taught() {
    let mut slot: Option<CharTable> = None;
    let first = get_new_chars(&mut slot, 1, 1);
    assert_eq!(first[0], "一");
    assert_eq!(first[1], "二");
    assert_eq!(first[2], "三");
    assert_eq!(first[first.len() - 1], "厂");
    let last = get_new_chars(&mut slot, 6, 2);
    assert_eq!(last[0], "蒜");
    assert_eq!(last[last.len() - 1], "怖");
}

#[test]
fn invalid_grade_or_term_gives_nothing() {
    let mut slot: Option<CharTable> = None;
    assert!(get_new_chars(&mut slot, 0, 1).is_empty());
    assert!(get_new_chars(&mut slot, 7, 1).is_empty());
    assert!(get_new_chars(&mut slot, 1, 0).is_empty());
    assert!(get_new_chars(&mut slot, 1, 3).is_empty());
    assert!(get_new_chars(&mut slot, usize::MAX, usize::MAX).is_empty());
    assert!(slot.is_none());
}

#[test]
fn lookup_loads_an_empty_slot() {
    let mut slot: Option<CharTable> = None;
    let got = get_new_chars(&mut slot, 3, 2);
    assert!(!got.is_empty());
    assert!(slot.is_some());
    assert_eq!(slot.as_ref().unwrap().len(), 12);
}

#[test]
fn loading_again_gives_identical_table() {
    let mut slot: Option<CharTable> = None;
    ensure_loaded(&mut slot);
    let first: Vec<Vec<String>> = (0..12).map(|i| slot.as_ref().unwrap().row(i).clone()).collect();
    for _ in 0..3 {
        ensure_loaded(&mut slot);
        let table = slot.as_ref().unwrap();
        assert_eq!(table.len(), 12);
        for i in 0..12 {
            assert_eq!(table.row(i), &first[i]);
        }
    }
    let rebuilt = get_all_new_chars_from_txt();
    assert_eq!(rebuilt.len(), 12);
    for i in 0..12 {
        assert_eq!(rebuilt.row(i), &first[i]);
    }
}

#[test]
fn distinct_strings_keeps_first_occurrences() {
    assert_eq!(distinct_strings("abca"), vec!["a", "b", "c"]);
    assert_eq!(distinct_strings("一一二"), vec!["一", "二"]);
    assert!(distinct_strings("").is_empty());
}

#[test]
fn distinct_strings_splits_at_code_points() {
    let got = distinct_strings("é中a😀");
    assert_eq!(got, vec!["é", "中", "a", "😀"]);
    assert_eq!(got[1].len(), 3);
}
