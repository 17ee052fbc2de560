use groqbara::platform::PlatformKind;
use groqbara::text::{
    chunk_units, encode_for_injection, plan_typing, plan_typing_trimmed, type_text, InjectError, CHUNK_UNITS,
};
use groqbara::platform::LineBreakStyle;

fn flatten(chunks: &[Vec<u16>]) -> Vec<u16> {
    chunks.iter().flat_map(|c| c.iter().copied()).collect()
}

#[test]
fn empty_text_posts_nothing() {
    for p in [PlatformKind::MacOS, PlatformKind::Windows] {
        let plan = type_text("", 0, p).unwrap();
        assert!(plan.chunks.is_empty());
    }
}

#[test]
fn hello_world_uses_carriage_return_on_macos() {
    let plan = type_text("hello\nworld", 0, PlatformKind::MacOS).unwrap();
    let expected: Vec<u16> = "hello\rworld".encode_utf16().collect();
    assert_eq!(plan.chunks.len(), 1);
    assert_eq!(flatten(&plan.chunks), expected);
}

#[test]
fn hello_world_uses_crlf_on_windows() {
    let plan = type_text("hello\nworld", 0, PlatformKind::Windows).unwrap();
    let expected: Vec<u16> = "hello\r\nworld".encode_utf16().collect();
    assert_eq!(flatten(&plan.chunks), expected);
    assert_eq!(expected.len(), 12);
}

#[test]
fn long_text_is_cut_into_chunks_of_24_units() {
    let text = "abcdefghijklmnopqrstuvwxyz".repeat(2);
    let plan = type_text(&text, 5, PlatformKind::MacOS).unwrap();
    let sizes: Vec<usize> = plan.chunks.iter().map(|c| c.len()).collect();
    assert_eq!(sizes, vec![24, 24, 4]);
    assert_eq!(flatten(&plan.chunks), text.encode_utf16().collect::<Vec<u16>>());
    assert_eq!(plan.delay_ms, 5);
    assert_eq!(CHUNK_UNITS, 24);
}

#[test]
fn astral_characters_become_surrogate_pairs() {
    let units = encode_for_injection("a\u{1F600}\u{e9}", LineBreakStyle::CarriageReturn);
    assert_eq!(units, vec![0x61, 0xD83D, 0xDE00, 0xE9]);
}

#[test]
fn chunk_boundary_never_splits_a_surrogate_pair() {
    let text = format!("{}\u{1F600}b", "a".repeat(23));
    let plan = type_text(&text, 0, PlatformKind::Windows).unwrap();
    assert_eq!(plan.chunks.len(), 2);
    assert_eq!(plan.chunks[0].len(), 23);
    assert_eq!(plan.chunks[1], vec![0xD83D, 0xDE00, 0x62]);
    assert_eq!(flatten(&plan.chunks), text.encode_utf16().collect::<Vec<u16>>());
    let emoji = "\u{1F600}".repeat(30);
    let plan = type_text(&emoji, 0, PlatformKind::MacOS).unwrap();
    assert!(plan.chunks.iter().all(|c| c.len() <= 24 && !(0xD800..=0xDBFF).contains(c.last().unwrap())));
    assert_eq!(flatten(&plan.chunks), emoji.encode_utf16().collect::<Vec<u16>>());
}

#[test]
fn chunking_backs_off_before_a_high_surrogate() {
    let units = vec![0x61, 0xD83D, 0xDE00, 0x62];
    let chunks = chunk_units(&units, 2);
    assert_eq!(chunks, vec![vec![0x61], vec![0xD83D, 0xDE00], vec![0x62]]);
}

#[test]
fn multiple_line_breaks_are_all_normalised() {
    let units = encode_for_injection("\n\na\n", LineBreakStyle::CarriageReturnLineFeed);
    assert_eq!(units, vec![13, 10, 13, 10, 0x61, 13, 10]);
    let units = encode_for_injection("\n\na\n", LineBreakStyle::CarriageReturn);
    assert_eq!(units, vec![13, 13, 0x61, 13]);
}

#[test]
fn chunking_an_exact_multiple() {
    let units: Vec<u16> = (0..48).collect();
    let chunks = chunk_units(&units, 24);
    assert_eq!(chunks.len(), 2);
    assert_eq!(chunks[1][0], 24);
    assert!(chunk_units(&Vec::new(), 24).is_empty());
}

#[test]
fn unsupported_platform_cannot_type() {
    let r = type_text("x", 0, PlatformKind::Unsupported);
    assert!(matches!(r, Err(InjectError::Unsupported)));
    assert!(matches!(type_text("", 0, PlatformKind::Unsupported), Err(InjectError::Unsupported)));
    assert!(InjectError::Unsupported.message().contains("not supported"));
}

#[test]
fn blank_transcription_types_nothing() {
    let plan = plan_typing("  \n\t ", 0, PlatformKind::MacOS, false).unwrap();
    assert!(plan.chunks.is_empty());
}

#[test]
fn typing_needs_permission() {
    let r = plan_typing("hi", 0, PlatformKind::MacOS, false);
    assert!(matches!(r, Err(InjectError::PermissionRequired)));
    assert!(InjectError::PermissionRequired.message().contains("Accessibility"));
    let plan = plan_typing(" hi\n", 3, PlatformKind::MacOS, true).unwrap();
    assert_eq!(flatten(&plan.chunks), vec![0x20, 0x68, 0x69, 13]);
    assert_eq!(plan.delay_ms, 3);
    assert!(matches!(
        plan_typing("hi", 0, PlatformKind::Unsupported, true),
        Err(InjectError::Unsupported)
    ));
}

#[test]
fn trimmed_text_decides_blankness() {
    let plan = plan_typing_trimmed(" \n", "", 7, PlatformKind::MacOS, false).unwrap();
    assert!(plan.chunks.is_empty());
    assert_eq!(plan.delay_ms, 7);
    let plan = plan_typing_trimmed("a\n", "a", 0, PlatformKind::Windows, true).unwrap();
    assert_eq!(flatten(&plan.chunks), vec![0x61, 13, 10]);
    assert!(matches!(
        plan_typing_trimmed("a", "a", 0, PlatformKind::Windows, false),
        Err(InjectError::PermissionRequired)
    ));
    assert_eq!(InjectError::Unsupported.message(), "Auto-typing is not supported on this platform");
}

#[test]
fn unicode_blanks_type_nothing() {
    let plan = plan_typing("\u{3000}\u{a0}\r\n", 0, PlatformKind::Windows, false).unwrap();
    assert!(plan.chunks.is_empty());
    let plan = plan_typing("", 0, PlatformKind::MacOS, false).unwrap();
    assert!(plan.chunks.is_empty());
}
