use rusty_vinnie::message::{create_details_message, join, split};

#[test]
fn round_trip_ascii() {
    let body = "The quick brown fox jumps over the lazy dog";
    for max in 1..20 {
        let chunks = split(body, max);
        assert_eq!(join(&chunks), body, "round trip failed for max={}", max);
    }
}

#[test]
fn round_trip_cyrillic() {
    let body = "Тизеры Path of Exile: Поселенцы Калгуура — обновления в реальном времени";
    for max in [1, 2, 3, 7, 50, 1000] {
        let chunks = split(body, max);
        assert_eq!(join(&chunks), body);
    }
}

#[test]
fn emoji_at_segment_boundary() {
    // A 4-byte emoji sits exactly at the cut position: the cut must count
    // characters, not bytes, so the emoji lands intact in the next segment.
    let body = "aaaa😀bb";
    let chunks = split(body, 4);
    assert_eq!(chunks, vec!["aaaa".to_string(), "😀bb".to_string()]);
    assert_eq!(join(&chunks), body);

    // And with the emoji as the last character of a segment.
    let chunks = split(body, 5);
    assert_eq!(chunks, vec!["aaaa😀".to_string(), "bb".to_string()]);
    assert_eq!(join(&chunks), body);
}

#[test]
fn five_thousand_chars_split_at_4095() {
    let body: String = "A".repeat(5000);
    let chunks = split(&body, 4095);
    assert_eq!(chunks.len(), 2);
    assert_eq!(chunks[0].chars().count(), 4095);
    assert_eq!(chunks[1].chars().count(), 905);
    assert_eq!(join(&chunks), body);
}

#[test]
fn empty_body_yields_no_segments() {
    let chunks = split("", 10);
    assert!(chunks.is_empty());
    assert_eq!(join(&chunks), "");
}

#[test]
fn segment_sizes_are_bounded_and_full() {
    let body = "0123456789".repeat(7); // 70 chars
    let max = 16;
    let chunks = split(&body, max);
    assert!(!chunks.is_empty());
    for (i, chunk) in chunks.iter().enumerate() {
        let len = chunk.chars().count();
        assert!(len >= 1 && len <= max);
        if i + 1 < chunks.len() {
            assert_eq!(len, max);
        }
    }
}

#[test]
fn details_messages_cut_at_embed_limit() {
    let body: String = "B".repeat(5000);
    let chunks = create_details_message(&body);
    assert_eq!(chunks.len(), 2);
    assert_eq!(chunks[0].chars().count(), 4096);
    assert_eq!(chunks[1].chars().count(), 904);
}
