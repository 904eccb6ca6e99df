use present_loop::examples::{parse_index, resolve_selection, Selection};

fn list() -> Vec<Vec<u8>> {
    vec![
        b"image_clear".to_vec(),
        b"mandelbrot".to_vec(),
        b"triangle".to_vec(),
    ]
}

#[test]
fn empty_selection_runs_first_example() {
    assert_eq!(
        resolve_selection(&list(), &Vec::new()),
        Selection::Run { index: 0 }
    );
}

#[test]
fn numeric_selection_runs_by_position() {
    assert_eq!(
        resolve_selection(&list(), &b"2".to_vec()),
        Selection::Run { index: 2 }
    );
    assert_eq!(
        resolve_selection(&list(), &b"007".to_vec()),
        Selection::UnknownIndex
    );
    assert_eq!(
        resolve_selection(&list(), &b"9".to_vec()),
        Selection::UnknownIndex
    );
}

#[test]
fn plus_sign_reads_as_number() {
    // the standard usize parsing accepts one leading '+'
    assert_eq!(
        resolve_selection(&list(), &b"+1".to_vec()),
        Selection::Run { index: 1 }
    );
    assert_eq!(parse_index(&b"+0".to_vec()), Some(0));
    assert_eq!(parse_index(&b"+".to_vec()), None);
}

#[test]
fn name_selection_runs_by_name() {
    assert_eq!(
        resolve_selection(&list(), &b"mandelbrot".to_vec()),
        Selection::Run { index: 1 }
    );
    assert_eq!(
        resolve_selection(&list(), &b"unknown".to_vec()),
        Selection::UnknownName
    );
}

#[test]
fn overflowing_number_falls_back_to_name_lookup() {
    // too large for usize: not a number, and no example has that name
    assert_eq!(
        resolve_selection(&list(), &b"99999999999999999999999999".to_vec()),
        Selection::UnknownName
    );
    assert_eq!(parse_index(&b"99999999999999999999999999".to_vec()), None);
}

#[test]
fn parse_index_matches_standard_parsing() {
    for s in ["0", "17", "007", "+3", "", "+", "1a", "a1", "-1", "18446744073709551615", "18446744073709551616"] {
        assert_eq!(
            parse_index(&s.as_bytes().to_vec()),
            s.parse::<usize>().ok(),
            "on input {:?}",
            s
        );
    }
}
