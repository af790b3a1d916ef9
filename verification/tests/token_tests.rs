use elucidator::token::{TokenClone, TokenData};

#[test]
fn token_data_new_empty_ok() {
    let _ = TokenData::new("", 0, 0);
}

#[test]
fn token_data_new_one_char_ok() {
    let _ = TokenData::new("c", 0, 1);
}

#[test]
fn token_data_new_ok() {
    let _ = TokenData::new("cat", 0, 3);
}

#[test]
fn token_data_to_clone_ok() {
    let td = TokenData::new("cat", 0, 3);
    let tc = TokenClone::from_token_data(&td);
    assert_eq!(
        tc,
        TokenClone {
            data: "cat".to_string(),
            column_start: 0,
            column_end: 3,
        }
    );
}

#[test]
fn token_clone_new_counts_chars() {
    let tc = TokenClone::new("\u{1F980}ab", 4);
    assert_eq!(tc.column_start, 4);
    assert_eq!(tc.column_end, 7);
    assert_eq!(tc.to_display_string(), "Cols 4-7: \u{1F980}ab");
}
