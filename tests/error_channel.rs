use rest_client::error::{Error, ErrorKind};
use rest_client::error_channel::{
    category_name, clear_error, last_error, last_error_length, last_error_message,
    set_general_error, set_last_error, take_last_error, update_last_error, ErrorChannel,
    ERROR_GENERAL,
};

#[test]
fn message_with_nothing_pending_writes_nothing() {
    let mut channel = ErrorChannel::new();
    let mut buffer = [7u8; 16];
    assert_eq!(last_error_message(&mut channel, &mut buffer), 0);
    assert_eq!(buffer, [7u8; 16]);
    assert_eq!(last_error_length(&channel), 0);
}

#[test]
fn message_is_read_once_then_zero() {
    let mut channel = ErrorChannel::new();
    update_last_error(&mut channel, Error::new(ErrorKind::InvalidInput, "bad url"));
    assert_eq!(last_error_length(&channel), 8);
    let mut buffer = [0xffu8; 16];
    assert_eq!(last_error_message(&mut channel, &mut buffer), 7);
    assert_eq!(&buffer[..8], b"bad url\0");
    assert_eq!(buffer[8], 0xff);
    assert_eq!(last_error_message(&mut channel, &mut buffer), 0);
    assert_eq!(last_error_length(&channel), 0);
}

#[test]
fn short_buffer_keeps_the_error() {
    let mut channel = ErrorChannel::new();
    update_last_error(&mut channel, Error::new(ErrorKind::LoadError, "abcdef"));
    let mut small = [1u8; 6];
    assert_eq!(last_error_message(&mut channel, &mut small), -1);
    assert_eq!(small, [1u8; 6]);
    assert_eq!(last_error_length(&channel), 7);
    let mut exact = [1u8; 7];
    assert_eq!(last_error_message(&mut channel, &mut exact), 6);
    assert_eq!(&exact, b"abcdef\0");
}

#[test]
fn length_counts_utf8_bytes() {
    let mut channel = ErrorChannel::new();
    update_last_error(&mut channel, Error::new(ErrorKind::General, "é"));
    assert_eq!(last_error_length(&channel), 3);
}

#[test]
fn newer_error_overwrites_older() {
    let mut channel = ErrorChannel::new();
    update_last_error(&mut channel, Error::new(ErrorKind::LoadError, "first"));
    update_last_error(&mut channel, Error::new(ErrorKind::TransportError, "second"));
    let e = take_last_error(&mut channel).unwrap();
    assert_eq!(e.message, "second");
    assert_eq!(e.kind, ErrorKind::TransportError);
    assert!(take_last_error(&mut channel).is_none());
}

#[test]
fn categories_are_recorded() {
    let mut channel = ErrorChannel::new();
    update_last_error(&mut channel, Error::new(ErrorKind::BufferTooSmall, "small"));
    assert_eq!(last_error(&channel), Some((String::from("small"), 5)));
    update_last_error(&mut channel, Error::new(ErrorKind::LoadError, "load"));
    assert_eq!(last_error(&channel), Some((String::from("load"), ERROR_GENERAL)));
    set_last_error(&mut channel, Error::new(ErrorKind::General, "odd"), 42);
    assert_eq!(last_error(&channel), Some((String::from("odd"), 42)));
    set_general_error(&mut channel, Error::new(ErrorKind::NullPointer, "null"));
    assert_eq!(last_error(&channel), Some((String::from("null"), ERROR_GENERAL)));
    clear_error(&mut channel);
    assert_eq!(last_error(&channel), None);
}

#[test]
fn category_names() {
    assert_eq!(category_name(0), "General");
    assert_eq!(category_name(1), "UTF-8 Error");
    assert_eq!(category_name(2), "Not Found");
    assert_eq!(category_name(3), "Permission Denied");
    assert_eq!(category_name(4), "Parse Error");
    assert_eq!(category_name(5), "Buffer is too small");
    assert_eq!(category_name(6), "Unknown");
    assert_eq!(category_name(99), "Unknown");
    assert_eq!(ErrorKind::TransportError.code(), 4);
    assert_eq!(ErrorKind::InvalidInput.name(), "Invalid Input");
}

#[test]
fn context_keeps_kind_and_chains_causes() {
    let e = Error::new(ErrorKind::SymbolMissing, "symbol not found").context("loading plugin failed");
    assert_eq!(e.kind, ErrorKind::SymbolMissing);
    assert_eq!(e.message, "loading plugin failed");
    assert_eq!(e.causes, vec![String::from("symbol not found")]);
    assert_eq!(e.message_len(), 21);
}

#[test]
fn message_with_nul_reads_as_empty_c_string() {
    let mut channel = ErrorChannel::new();
    set_last_error(&mut channel, Error::new(ErrorKind::General, "a\0b"), 4);
    assert_eq!(last_error(&channel), Some((String::new(), 4)));
    assert_eq!(last_error_length(&channel), 4);
}
