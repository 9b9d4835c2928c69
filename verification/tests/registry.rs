use servo_media_mpv::address::{parse_stream_id, stream_address};
use servo_media_mpv::registry::{OpenOutcome, StreamRegistry};
use servo_media_mpv::stream::{ReadOutcome, SeekAction, ServoStream, SharedStream};
use std::sync::{Arc, Mutex};

#[test]
fn addresses_are_the_scheme_and_the_number() {
    assert_eq!(stream_address(0), "servo://0");
    assert_eq!(stream_address(7), "servo://7");
    assert_eq!(stream_address(1234567890), "servo://1234567890");
    assert_eq!(stream_address(u64::MAX), "servo://18446744073709551615");
}

#[test]
fn addresses_name_their_streams() {
    for id in [0, 1, 9, 10, 99, 100, 4096, u64::MAX - 1, u64::MAX] {
        assert_eq!(parse_stream_id(&stream_address(id)), Some(id));
    }
}

#[test]
fn the_scheme_may_be_missing_or_repeated() {
    assert_eq!(parse_stream_id("12"), Some(12));
    assert_eq!(parse_stream_id("servo://servo://12"), Some(12));
    assert_eq!(parse_stream_id("servo://+12"), Some(12));
    assert_eq!(parse_stream_id("servo://0012"), Some(12));
}

#[test]
fn other_texts_name_no_stream() {
    for text in [
        "", "servo://", "servo://x", "servo://-1", "servo:// 1", "servo://1 ", "servo:/1", "+",
        "servo://+", "servo://++1", "servo://1servo://", "servo://1/2", "Servo://1",
        "servo://\u{661}",
    ] {
        assert_eq!(parse_stream_id(text), None, "{}", text);
    }
}

#[test]
fn numbers_beyond_the_range_name_no_stream() {
    assert_eq!(parse_stream_id("servo://18446744073709551615"), Some(u64::MAX));
    assert_eq!(parse_stream_id("servo://18446744073709551616"), None);
    assert_eq!(parse_stream_id("servo://99999999999999999999999"), None);
    assert_eq!(parse_stream_id("servo://000000000000000000000000001"), Some(1));
}

type Registry = StreamRegistry<&'static str, Mutex<ServoStream>>;

fn client(registry: &mut Registry, id: u64) -> Option<&'static str> {
    registry.get(id).and_then(|stream| stream.observer)
}

#[test]
fn streams_are_numbered_from_one() {
    let mut registry: Registry = StreamRegistry::new();
    assert!(registry.has_number());
    let (first, stream) = registry.register("first", Mutex::new);
    assert_eq!(first, 1);
    assert_eq!(stream.observer, Some("first"));
    let (second, _) = registry.register("second", Mutex::new);
    assert_eq!(second, 2);
    assert_eq!(client(&mut registry, 1), Some("first"));
    assert_eq!(client(&mut registry, 2), Some("second"));
    assert!(registry.get(0).is_none());
    assert!(registry.get(3).is_none());
}

#[test]
fn a_registered_stream_is_shared_and_not_copied() {
    let mut registry: Registry = StreamRegistry::new();
    let (id, stream) = registry.register("client", Mutex::new);
    assert!(Arc::ptr_eq(&stream, &registry.get(id).unwrap()));
    stream.inner.lock().unwrap().set_size(5);
    assert_eq!(registry.get(id).unwrap().inner.lock().unwrap().size(), 5);
}

#[test]
fn a_registered_stream_is_empty_and_asks_its_client() {
    let mut registry: Registry = StreamRegistry::new();
    let (_, stream) = registry.register("client", Mutex::new);
    let mut inner = stream.inner.lock().unwrap();
    assert_eq!(inner.read(&mut [0]), ReadOutcome::Wait);
    assert_eq!(inner.seek(8), SeekAction::OpenChannel(8));
}

#[test]
fn a_shared_stream_without_a_client_asks_nobody() {
    let fallback: SharedStream<&str, Mutex<ServoStream>> = SharedStream::new(None, Mutex::new);
    assert_eq!(fallback.observer, None);
    assert_eq!(fallback.inner.lock().unwrap().seek(8), SeekAction::Return(0));
    let observed = SharedStream::new(Some("client"), Mutex::new);
    assert_eq!(observed.observer, Some("client"));
    assert_eq!(observed.inner.lock().unwrap().seek(8), SeekAction::OpenChannel(8));
}

#[test]
fn numbers_are_not_reused_after_removal() {
    let mut registry: Registry = StreamRegistry::new();
    let (first, _) = registry.register("a", Mutex::new);
    registry.remove(first);
    assert!(registry.get(first).is_none());
    let (second, _) = registry.register("b", Mutex::new);
    assert_ne!(first, second);
    registry.remove(77);
    assert_eq!(client(&mut registry, second), Some("b"));
}

#[test]
fn an_address_opens_its_stream_until_it_is_removed() {
    let mut registry: Registry = StreamRegistry::new();
    let (one, _) = registry.register("one", Mutex::new);
    let (two, _) = registry.register("two", Mutex::new);
    registry.remove(two);
    match registry.open(&stream_address(one)) {
        OpenOutcome::Found(stream) => assert_eq!(stream.observer, Some("one")),
        _ => panic!("not found"),
    }
    match registry.open(&stream_address(two)) {
        OpenOutcome::UnknownStream(id) => assert_eq!(id, two),
        _ => panic!("found"),
    }
    assert!(matches!(registry.open("servo://one"), OpenOutcome::BadAddress));
}
