use chat_relay::normalize::normalize_chunk;

#[test]
fn inserts_one_space_between_alphanumerics() {
    assert_eq!(normalize_chunk("world", "Hello"), " world");
    assert_eq!(normalize_chunk("2", "route"), " 2");
}

#[test]
fn inserts_no_space_after_punctuation() {
    assert_eq!(normalize_chunk("world", "Hello,"), "world");
    assert_eq!(normalize_chunk("!", "Hello"), "!");
    assert_eq!(normalize_chunk("(aside)", "Hello"), "(aside)");
}

#[test]
fn inserts_no_space_into_empty_buffer() {
    assert_eq!(normalize_chunk("Hello", ""), "Hello");
}

#[test]
fn whitespace_only_fragment_is_rejected() {
    assert_eq!(normalize_chunk("", "Hello"), "");
    assert_eq!(normalize_chunk("   ", "Hello"), "");
    assert_eq!(normalize_chunk(" \t\r\n ", "Hello"), "");
    assert_eq!(normalize_chunk("\u{00A0}", "Hello"), "");
}

#[test]
fn trims_fragment_edges() {
    assert_eq!(normalize_chunk("  hi  ", "Hello"), " hi");
    assert_eq!(normalize_chunk("\nhi\t", ""), "hi");
}

#[test]
fn removes_space_before_each_mark() {
    assert_eq!(normalize_chunk("x ,y", ""), "x,y");
    assert_eq!(normalize_chunk("a . b ! c ? d ; e : f", ""), "a. b! c? d; e: f");
    assert_eq!(normalize_chunk(" ,", "Hello"), ",");
}

#[test]
fn double_space_before_mark_loses_only_one_space() {
    // Only the space standing immediately before the mark is removed; a
    // second space ahead of it survives the local substitution.
    assert_eq!(normalize_chunk("a  ,b", ""), "a ,b");
}

#[test]
fn renormalizing_against_merged_buffer_adds_nothing() {
    let first = normalize_chunk("Hello", "");
    let mut buffer = String::new();
    buffer.push_str(&first);
    let again = normalize_chunk("", &buffer);
    assert_eq!(again, "");
    assert_eq!(buffer, "Hello");
}

#[test]
fn non_ascii_letters_count_as_alphanumeric() {
    // The boundary rule goes through the real Unicode classification: a
    // buffer ending in an accented letter still triggers the space.
    assert_eq!(normalize_chunk("suite", "café"), " suite");
    assert_eq!(normalize_chunk("é", "x"), " é");
}

#[test]
fn cumulative_buffering_sequence() {
    // The fragments of one streamed turn, each normalized against the true
    // cumulative buffer. Trimming drops each fragment's leading space, so
    // after the comma (not alphanumeric) no separating space reappears.
    let fragments = ["Hello", " ,", " world", "!"];
    let mut buffer = String::new();
    let mut sent: Vec<String> = Vec::new();
    for fragment in fragments {
        let normalized = normalize_chunk(fragment, &buffer);
        if !normalized.is_empty() {
            buffer.push_str(&normalized);
            sent.push(normalized);
        }
    }
    assert_eq!(sent, vec!["Hello", ",", "world", "!"]);
    assert_eq!(buffer, "Hello,world!");
}
