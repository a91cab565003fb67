use layerwatch::hyprland::{DecodeError, Event, EventDecoder, EventError};
use tokio_util::bytes::BytesMut;

fn window(class: &str, title: &str) -> Event {
    Event::ActiveWindow { class: class.to_string(), title: title.to_string() }
}

#[test]
fn decoder_takes_one_line_at_a_time() {
    let mut decoder = EventDecoder::new();
    let mut buffer = BytesMut::from(&b"activewindow>>kitty,vim\nworkspace>>2\nactivewin"[..]);
    assert_eq!(decoder.decode(&mut buffer), Ok(Some(window("kitty", "vim"))));
    assert_eq!(&buffer[..], &b"workspace>>2\nactivewin"[..]);
    assert_eq!(decoder.decode(&mut buffer), Ok(Some(Event::Nothing("workspace>>2".to_string()))));
    assert_eq!(&buffer[..], &b"activewin"[..]);
    assert_eq!(decoder.decode(&mut buffer), Ok(None));
    assert_eq!(&buffer[..], &b"activewin"[..]);
    buffer.extend_from_slice(b"dow>>a,b\n");
    assert_eq!(decoder.decode(&mut buffer), Ok(Some(window("a", "b"))));
    assert!(buffer.is_empty());
    assert_eq!(decoder.decode(&mut buffer), Ok(None));
}

#[test]
fn decoder_waits_for_the_line_feed() {
    let mut decoder = EventDecoder::new();
    let mut buffer = BytesMut::new();
    assert_eq!(decoder.decode(&mut buffer), Ok(None));
    buffer.extend_from_slice(b"activewindow>>a,b");
    assert_eq!(decoder.decode(&mut buffer), Ok(None));
    assert_eq!(decoder.decode(&mut buffer), Ok(None));
    assert_eq!(&buffer[..], &b"activewindow>>a,b"[..]);
}

#[test]
fn decoder_drops_one_carriage_return_before_the_line_feed() {
    let mut decoder = EventDecoder::new();
    let mut buffer = BytesMut::from(&b"workspace>>1\r\nworkspace>>2\r\r\n"[..]);
    assert_eq!(decoder.decode(&mut buffer), Ok(Some(Event::Nothing("workspace>>1".to_string()))));
    assert_eq!(
        decoder.decode(&mut buffer),
        Ok(Some(Event::Nothing("workspace>>2\r".to_string())))
    );
    assert!(buffer.is_empty());
}

#[test]
fn decoder_refuses_a_line_that_is_not_utf8() {
    let mut decoder = EventDecoder::new();
    let mut buffer = BytesMut::from(&b"activewindow>>\xff,b\nworkspace>>2\n"[..]);
    assert_eq!(decoder.decode(&mut buffer), Err(DecodeError::NotUtf8));
    assert_eq!(&buffer[..], &b"workspace>>2\n"[..]);
    assert_eq!(decoder.decode(&mut buffer), Ok(Some(Event::Nothing("workspace>>2".to_string()))));
}

#[test]
fn decoder_reads_text_beyond_ascii() {
    let mut decoder = EventDecoder::new();
    let mut buffer = BytesMut::from("activewindow>>caf\u{e9},\u{65e5}\u{672c}\n".as_bytes());
    assert_eq!(
        decoder.decode(&mut buffer),
        Ok(Some(window("caf\u{e9}", "\u{65e5}\u{672c}")))
    );
}

#[test]
fn decoder_hands_on_the_refusal_of_a_line() {
    let mut decoder = EventDecoder::new();
    let mut buffer = BytesMut::from(&b"\nactivewindow>>kitty\nx>>y\n"[..]);
    assert_eq!(
        decoder.decode(&mut buffer),
        Err(DecodeError::Event(EventError::InvalidLine(String::new())))
    );
    assert_eq!(
        decoder.decode(&mut buffer),
        Err(DecodeError::Event(EventError::InvalidActiveWindow("kitty".to_string())))
    );
    assert_eq!(decoder.decode(&mut buffer), Ok(Some(Event::Nothing("x>>y".to_string()))));
    assert!(buffer.is_empty());
}
