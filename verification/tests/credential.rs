use issuemyst::credential::{load_credential, CREDENTIAL_PATH};
use issuemyst::error::CredentialError;

#[test]
fn credential_path_is_the_pat_file() {
    assert_eq!(CREDENTIAL_PATH, "pat.txt");
}

#[test]
fn unreadable_file_gives_no_credential() {
    assert_eq!(load_credential(None), Err(CredentialError));
}

#[test]
fn trailing_newline_is_trimmed() {
    assert_eq!(load_credential(Some("ghp_abc123\n".to_string())), Ok("ghp_abc123".to_string()));
}

#[test]
fn surrounding_white_space_is_trimmed() {
    assert_eq!(
        load_credential(Some(" \t\r\n ghp_abc123 \n\n".to_string())),
        Ok("ghp_abc123".to_string())
    );
}

#[test]
fn inner_white_space_is_kept() {
    assert_eq!(load_credential(Some("  a b\tc  ".to_string())), Ok("a b\tc".to_string()));
}

#[test]
fn clean_contents_are_kept_whole() {
    assert_eq!(load_credential(Some("token".to_string())), Ok("token".to_string()));
}

#[test]
fn empty_contents_give_an_empty_credential() {
    assert_eq!(load_credential(Some(String::new())), Ok(String::new()));
}

#[test]
fn white_space_alone_gives_an_empty_credential() {
    assert_eq!(load_credential(Some(" \n\t ".to_string())), Ok(String::new()));
}

#[test]
fn unicode_white_space_is_trimmed() {
    let contents = "\u{a0}\u{3000}\u{2003}tok\u{e9}n\u{2028}\u{85}\u{1680}".to_string();
    assert_eq!(load_credential(Some(contents)), Ok("tok\u{e9}n".to_string()));
}

#[test]
fn zero_width_space_is_no_white_space() {
    let contents = "\u{200b}token\u{200b}".to_string();
    assert_eq!(load_credential(Some(contents.clone())), Ok(contents));
}

#[test]
fn agrees_with_str_trim_on_every_character() {
    for code in 0u32..=0x10ffff {
        if let Some(c) = char::from_u32(code) {
            let mut contents = String::with_capacity(12);
            contents.push(c);
            contents.push('x');
            contents.push(c);
            let trimmed = contents.trim().to_string();
            assert_eq!(load_credential(Some(contents)), Ok(trimmed), "U+{:04X}", code);
        }
    }
}

#[test]
fn agrees_with_str_trim_on_mixed_contents() {
    let alphabet = [' ', '\n', '\t', '\r', 'a', 'Z', '9', '_', '\u{a0}', '\u{e9}', '\u{2009}', '\u{200b}'];
    let mut state: u64 = 0x2545f4914f6cdd1d;
    for _ in 0..3000 {
        let mut contents = String::new();
        state ^= state << 13;
        state ^= state >> 7;
        state ^= state << 17;
        let length = state % 9;
        for _ in 0..length {
            state ^= state << 13;
            state ^= state >> 7;
            state ^= state << 17;
            contents.push(alphabet[(state % alphabet.len() as u64) as usize]);
        }
        let trimmed = contents.trim().to_string();
        assert_eq!(load_credential(Some(contents.clone())), Ok(trimmed), "{:?}", contents);
    }
}
