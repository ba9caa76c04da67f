use mizet_fw::keymap::{get_next_idx, get_prev_idx, key_info, KEY_LENGTH};
use usbd_hid::descriptor::KeyboardUsage;

#[test]
fn index_wraps_at_both_ends() {
    assert_eq!(get_next_idx(0), 1);
    assert_eq!(get_next_idx(KEY_LENGTH - 1), 0);
    assert_eq!(get_prev_idx(0), KEY_LENGTH - 1);
    assert_eq!(get_prev_idx(10), 9);
}

#[test]
fn next_and_prev_undo_each_other() {
    for i in 0..KEY_LENGTH {
        assert_eq!(get_prev_idx(get_next_idx(i)), i);
        assert_eq!(get_next_idx(get_prev_idx(i)), i);
        assert!(get_next_idx(i) < KEY_LENGTH);
        assert!(get_prev_idx(i) < KEY_LENGTH);
    }
}

#[test]
fn keycodes_are_the_hid_usages() {
    let usages = [
        KeyboardUsage::KeyboardAa, KeyboardUsage::KeyboardBb, KeyboardUsage::KeyboardCc,
        KeyboardUsage::KeyboardDd, KeyboardUsage::KeyboardEe, KeyboardUsage::KeyboardFf,
        KeyboardUsage::KeyboardGg, KeyboardUsage::KeyboardHh, KeyboardUsage::KeyboardIi,
        KeyboardUsage::KeyboardJj, KeyboardUsage::KeyboardKk, KeyboardUsage::KeyboardLl,
        KeyboardUsage::KeyboardMm, KeyboardUsage::KeyboardNn, KeyboardUsage::KeyboardOo,
        KeyboardUsage::KeyboardPp, KeyboardUsage::KeyboardQq, KeyboardUsage::KeyboardRr,
        KeyboardUsage::KeyboardSs, KeyboardUsage::KeyboardTt, KeyboardUsage::KeyboardUu,
        KeyboardUsage::KeyboardVv, KeyboardUsage::KeyboardWw, KeyboardUsage::KeyboardXx,
        KeyboardUsage::KeyboardYy, KeyboardUsage::KeyboardZz,
        KeyboardUsage::Keyboard1Exclamation, KeyboardUsage::Keyboard2At,
        KeyboardUsage::Keyboard3Hash, KeyboardUsage::Keyboard4Dollar,
        KeyboardUsage::Keyboard5Percent, KeyboardUsage::Keyboard6Caret,
        KeyboardUsage::Keyboard7Ampersand, KeyboardUsage::Keyboard8Asterisk,
        KeyboardUsage::Keyboard9OpenParens, KeyboardUsage::Keyboard0CloseParens,
        KeyboardUsage::KeyboardEnter, KeyboardUsage::KeyboardEscape,
        KeyboardUsage::KeyboardBackspace, KeyboardUsage::KeyboardTab,
        KeyboardUsage::KeyboardSpacebar, KeyboardUsage::KeyboardDashUnderscore,
        KeyboardUsage::KeyboardEqualPlus, KeyboardUsage::KeyboardOpenBracketBrace,
        KeyboardUsage::KeyboardCloseBracketBrace, KeyboardUsage::KeyboardBackslashBar,
        KeyboardUsage::KeyboardSemiColon, KeyboardUsage::KeyboardSingleDoubleQuote,
        KeyboardUsage::KeyboardBacktickTilde, KeyboardUsage::KeyboardCommaLess,
        KeyboardUsage::KeyboardPeriodGreater, KeyboardUsage::KeyboardSlashQuestion,
        KeyboardUsage::KeyboardF1, KeyboardUsage::KeyboardF2, KeyboardUsage::KeyboardF3,
        KeyboardUsage::KeyboardF4, KeyboardUsage::KeyboardF5, KeyboardUsage::KeyboardF6,
        KeyboardUsage::KeyboardF7, KeyboardUsage::KeyboardF8, KeyboardUsage::KeyboardF9,
        KeyboardUsage::KeyboardF10,
    ];
    assert_eq!(usages.len(), KEY_LENGTH);
    for (i, u) in usages.iter().enumerate() {
        assert_eq!(key_info(i).keycode, *u as u8, "key {}", i);
    }
}

#[test]
fn legends_of_some_keys() {
    let a = key_info(0);
    assert_eq!((a.shifted_key, a.key, a.middle_key), ("A", "a", None));
    let enter = key_info(36);
    assert_eq!((enter.shifted_key, enter.middle_key, enter.key), ("R", Some("E"), "T"));
    let quote = key_info(47);
    assert_eq!((quote.shifted_key, quote.key), ("\"", "'"));
    let backslash = key_info(45);
    assert_eq!((backslash.shifted_key, backslash.key), ("|", "\\"));
    let f10 = key_info(61);
    assert_eq!((f10.shifted_key, f10.key), ("F", "0"));
    let with_middle: Vec<usize> = (0..KEY_LENGTH).filter(|&i| key_info(i).middle_key.is_some()).collect();
    assert_eq!(with_middle, vec![36, 37, 38, 39, 40]);
}
