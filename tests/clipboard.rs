use sdl3::clipboard::VideoSubsystem;
use sdl3::error::Error;

#[test]
fn c_text_appends_nul() {
    let clipboard = VideoSubsystem::new().clipboard();
    assert_eq!(clipboard.clipboard_c_text("Hello World!").unwrap(), b"Hello World!\0".to_vec());
    assert_eq!(clipboard.clipboard_c_text("").unwrap(), vec![0u8]);
    assert_eq!(clipboard.clipboard_c_text("é").unwrap(), vec![0xC3, 0xA9, 0]);
}

#[test]
fn c_text_rejects_nul() {
    let clipboard = VideoSubsystem::new().clipboard();
    assert_eq!(clipboard.clipboard_c_text("a\0b"), Err(Error::NulInText));
    assert_eq!(clipboard.clipboard_c_text("\0"), Err(Error::NulInText));
}

#[test]
fn set_outcome_reports_native_error() {
    let clipboard = VideoSubsystem::new().clipboard();
    assert_eq!(clipboard.set_outcome(true, String::new()), Ok(()));
    assert_eq!(
        clipboard.set_outcome(false, "no video".to_string()),
        Err(Error::SdlError("no video".to_string()))
    );
}

#[test]
fn text_outcome_round_trip() {
    let clipboard = VideoSubsystem::new().clipboard();
    let mut sent = clipboard.clipboard_c_text("Hello World!").unwrap();
    sent.pop();
    assert_eq!(clipboard.text_outcome(Some(sent), String::new()), Ok("Hello World!".to_string()));
}

#[test]
fn text_outcome_empty_and_absent() {
    let clipboard = VideoSubsystem::new().clipboard();
    assert_eq!(clipboard.text_outcome(Some(Vec::new()), String::new()), Ok(String::new()));
    assert_eq!(
        clipboard.text_outcome(None, "clipboard unavailable".to_string()),
        Err(Error::SdlError("clipboard unavailable".to_string()))
    );
}

#[test]
fn text_outcome_decodes_multibyte_text() {
    let clipboard = VideoSubsystem::new().clipboard();
    assert_eq!(clipboard.text_outcome(Some(vec![0xC3, 0xA9]), String::new()), Ok("é".to_string()));
    assert_eq!(
        clipboard.text_outcome(Some(vec![0x61, 0xE2, 0x82, 0xAC]), String::new()),
        Ok("a€".to_string())
    );
}
