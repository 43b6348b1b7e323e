use ji::text_utils::{
    col_to_byte_offset, cut_end, cut_start, next_edge_in, next_grapheme_boundary,
    next_word_boundary, next_word_in, offset_in, peel_first_grapheme_for_cursor, peel_in,
    prev_edge_in, prev_grapheme_boundary, prev_word_boundary, prev_word_in, relative_time_short,
    truncate_end, truncate_start,
};

#[test]
fn grapheme_boundary_emoji() {
    // 🇯🇵 is two regional-indicator codepoints (8 UTF-8 bytes) forming
    // one user-perceived character.
    let s = "a🇯🇵b";
    assert_eq!(s.len(), 1 + 8 + 1);
    assert_eq!(next_grapheme_boundary(s, 0), 1); // past 'a'
    assert_eq!(next_grapheme_boundary(s, 1), 1 + 8); // past the flag
    assert_eq!(prev_grapheme_boundary(s, 1 + 8), 1); // back to before flag
    assert_eq!(prev_grapheme_boundary(s, 1 + 8 + 1), 1 + 8); // back to before 'b'
}

#[test]
fn word_boundary_ascii() {
    let s = "hello world foo";
    // Cursor in the middle of "world" (between 'w' and 'orld'); prev
    // returns the offset of 'w' (start of the word).
    let mid_world = "hello ".len() + 1; // after 'w'
    assert_eq!(prev_word_boundary(s, mid_world), "hello ".len());
    // From end of string, prev returns the offset of "foo" (start of
    // the last word).
    assert_eq!(prev_word_boundary(s, s.len()), "hello world ".len());
    // From start of string, next-word returns offset of "world".
    assert_eq!(next_word_boundary(s, 0), "hello ".len());
    // From middle of "world", next-word skips through the rest of "world"
    // and the space, landing at "foo".
    assert_eq!(next_word_boundary(s, mid_world), "hello world ".len());
    // From end, next is end.
    assert_eq!(next_word_boundary(s, s.len()), s.len());
}

#[test]
fn word_boundary_with_emoji() {
    // 🇯🇵 = 8 UTF-8 bytes, two regional-indicator codepoints, one grapheme.
    let s = "alpha🇯🇵 beta";
    let alpha = "alpha".len(); // 5
    let flag_end = alpha + 8; // 13
    let space = flag_end; // ' ' at byte 13
    let beta_start = space + 1; // 14
    assert_eq!(s.len(), beta_start + "beta".len());

    // From end-of-string, prev returns the start of "beta".
    assert_eq!(prev_word_boundary(s, s.len()), beta_start);
    // From byte_pos == flag_end (just past the flag), prev returns 0
    // (we walk back past the flag and "alpha" — there's no preceding space).
    assert_eq!(prev_word_boundary(s, flag_end), 0);
    // Mid-flag positions are clamped by grapheme walking — they must
    // never return an offset inside the flag (i.e. > alpha and < flag_end).
    // We exercise `flag_end - 4` which would be mid-flag if the impl
    // walked bytes; grapheme walking treats the flag as opaque.
    let mid_flag = alpha + 4;
    let prev = prev_word_boundary(s, mid_flag);
    assert!(
        prev <= alpha || prev >= flag_end,
        "prev_word_boundary returned mid-grapheme offset: {prev}"
    );

    // next-word from inside "alpha" jumps past the space at flag_end.
    let next = next_word_boundary(s, 0);
    assert_eq!(next, beta_start);
}

#[test]
fn word_boundary_with_cjk() {
    // 世界 = two CJK ideographs, each 3 bytes, each its own grapheme.
    let s = "alpha 世界 beta";
    let alpha_end = "alpha".len(); // 5 (just before space)
    let cjk_start = "alpha ".len(); // 6
    let cjk_end = cjk_start + 6; // 12
    let beta_start = cjk_end + 1; // 13
    assert_eq!(s.len(), beta_start + "beta".len());

    // prev from end → start of "beta".
    assert_eq!(prev_word_boundary(s, s.len()), beta_start);
    // prev from end-of-CJK → start of CJK.
    assert_eq!(prev_word_boundary(s, cjk_end), cjk_start);
    // From mid-CJK (between the two ideographs is a grapheme boundary,
    // but inside an ideograph is not). Test mid-first-ideograph.
    let mid_first_cjk = cjk_start + 1;
    let prev = prev_word_boundary(s, mid_first_cjk);
    assert!(
        prev <= alpha_end || prev >= cjk_start,
        "prev_word_boundary returned mid-grapheme offset: {prev}"
    );

    // next from start → past space → CJK start.
    assert_eq!(next_word_boundary(s, 0), cjk_start);
    // next from start of CJK → past space → beta start.
    assert_eq!(next_word_boundary(s, cjk_start), beta_start);
}

#[test]
fn peel_first_grapheme_for_cursor_cases() {
    // Empty: substitutes a space so the cursor cell stays visible.
    assert_eq!(peel_first_grapheme_for_cursor(""), (" ", ""));
    // ASCII: peels one byte.
    assert_eq!(peel_first_grapheme_for_cursor("abc"), ("a", "bc"));
    // Emoji flag: peels the whole 8-byte grapheme, not just the first
    // regional indicator.
    let (g, rest) = peel_first_grapheme_for_cursor("🇯🇵x");
    assert_eq!(g.len(), 8);
    assert_eq!(rest, "x");
    // CJK: peels the 3-byte ideograph.
    let (g, rest) = peel_first_grapheme_for_cursor("世界");
    assert_eq!(g, "世");
    assert_eq!(rest, "界");
}

#[test]
fn col_to_byte_offset_emoji() {
    // Emoji-flag width is 2 columns under most width tables.
    let s = "a🇯🇵b";
    assert_eq!(col_to_byte_offset(s, 0), 0);
    assert_eq!(col_to_byte_offset(s, 1), 1); // 'a' takes 1 col
    // Click past the flag jumps to the byte after the whole grapheme,
    // not into the middle of it.
    let past_flag = col_to_byte_offset(s, 3);
    assert!(past_flag == 1 + 8, "expected past flag, got {past_flag}");
}

// --- truncate_end ---

#[test]
fn truncate_end_ascii_fits() {
    assert_eq!(truncate_end("hello", 10), "hello");
}

#[test]
fn truncate_end_ascii_exact() {
    assert_eq!(truncate_end("hello", 5), "hello");
}

#[test]
fn truncate_end_ascii_over() {
    assert_eq!(truncate_end("hello world", 5), "hell\u{2026}");
}

#[test]
fn truncate_end_empty() {
    assert_eq!(truncate_end("", 5), "");
}

#[test]
fn truncate_end_max_zero() {
    assert_eq!(truncate_end("hello", 0), "");
}

#[test]
fn truncate_end_max_one() {
    assert_eq!(truncate_end("hello", 1), "\u{2026}");
}

#[test]
fn truncate_end_emoji() {
    // Each emoji is 2 display columns in unicode-width 0.2.
    // 3 emoji = 6 cols. max_cols=5 → fit 2 emoji (4 cols) + ellipsis (1 col) = 5.
    assert_eq!(
        truncate_end("\u{1F600}\u{1F601}\u{1F602}", 5),
        "\u{1F600}\u{1F601}\u{2026}"
    );
}

#[test]
fn truncate_end_emoji_tight() {
    // max_cols=3 → fit 1 emoji (2 cols) + ellipsis (1 col) = 3.
    assert_eq!(truncate_end("\u{1F600}\u{1F601}", 3), "\u{1F600}\u{2026}");
}

#[test]
fn truncate_end_cjk() {
    // 世界 = 2 chars, 4 display columns.
    assert_eq!(truncate_end("\u{4e16}\u{754c}", 4), "\u{4e16}\u{754c}");
    // max_cols=3 → fit 1 CJK (2 cols) + ellipsis (1 col) = 3.
    assert_eq!(truncate_end("\u{4e16}\u{754c}", 3), "\u{4e16}\u{2026}");
}

#[test]
fn truncate_end_cjk_boundary() {
    // max_cols=2 → limit = 1 col for content. CJK char is 2 cols, doesn't fit.
    // Result: just the ellipsis.
    assert_eq!(truncate_end("\u{4e16}\u{754c}", 2), "\u{2026}");
}

// --- truncate_start ---

#[test]
fn truncate_start_ascii_fits() {
    assert_eq!(truncate_start("hello", 10), "hello");
}

#[test]
fn truncate_start_ascii_over() {
    assert_eq!(truncate_start("hello world", 5), "\u{2026}orld");
}

#[test]
fn truncate_start_empty() {
    assert_eq!(truncate_start("", 5), "");
}

#[test]
fn truncate_start_max_zero() {
    assert_eq!(truncate_start("hello", 0), "");
}

#[test]
fn truncate_start_max_one() {
    assert_eq!(truncate_start("hello", 1), "\u{2026}");
}

#[test]
fn truncate_start_cjk() {
    // 世界好 = 3 chars, 6 display columns.
    // max_cols=5 → keep 4 cols from end + ellipsis = 5.
    // Skip first char (2 cols), keep 界好 (4 cols).
    assert_eq!(
        truncate_start("\u{4e16}\u{754c}\u{597d}", 5),
        "\u{2026}\u{754c}\u{597d}"
    );
}

// --- col_to_byte_offset ---

#[test]
fn col_to_byte_ascii() {
    assert_eq!(col_to_byte_offset("hello", 2), 2);
}

#[test]
fn col_to_byte_multibyte() {
    // "ab\u{00e9}cd" — \u{00e9} is 2 bytes, 1 display column.
    let s = "ab\u{00e9}cd";
    assert_eq!(col_to_byte_offset(s, 0), 0);
    assert_eq!(col_to_byte_offset(s, 2), 2);
    assert_eq!(col_to_byte_offset(s, 3), 4); // after 2-byte \u{00e9}
}

#[test]
fn col_to_byte_past_end() {
    assert_eq!(col_to_byte_offset("hi", 10), 2);
}

#[test]
fn col_to_byte_emoji() {
    // Emoji is 2 display columns. 'x' starts at column 2.
    let s = "\u{1F600}x";
    assert_eq!(col_to_byte_offset(s, 0), 0);
    assert_eq!(col_to_byte_offset(s, 2), 4);
}

#[test]
fn col_to_byte_cjk() {
    // 世x = CJK (2 cols) + 'x' (1 col). 'x' at column 2, byte 3.
    let s = "\u{4e16}x";
    assert_eq!(col_to_byte_offset(s, 0), 0);
    assert_eq!(col_to_byte_offset(s, 2), 3);
}

#[test]
fn col_to_byte_mixed() {
    // "ab世cd" = a(1) b(1) 世(2) c(1) d(1) = 6 cols.
    let s = "ab\u{4e16}cd";
    assert_eq!(col_to_byte_offset(s, 0), 0); // 'a'
    assert_eq!(col_to_byte_offset(s, 2), 2); // '世' at byte 2
    assert_eq!(col_to_byte_offset(s, 4), 5); // 'c' at byte 5 (after 3-byte 世)
}

// --- relative_time_short ---

#[test]
fn relative_time_short_boundaries() {
    // epoch=0, now=secs_ago → seconds_ago == secs_ago.
    let ago = |secs: i64| relative_time_short(0, secs);
    let day: i64 = 86_400;

    assert_eq!(relative_time_short(10, 0), "future"); // epoch after now
    assert_eq!(ago(0), "now");
    assert_eq!(ago(59), "now");
    assert_eq!(ago(60), "1m");
    assert_eq!(ago(59 * 60), "59m");
    assert_eq!(ago(60 * 60), "1h");
    assert_eq!(ago(17 * 3600), "17h");
    assert_eq!(ago(23 * 3600), "23h");
    assert_eq!(ago(day), "1d");
    assert_eq!(ago(6 * day), "6d");
    assert_eq!(ago(7 * day), "1w");
    assert_eq!(ago(29 * day), "4w"); // 29/30 month floors to 0 → weeks
    assert_eq!(ago(30 * day), "1mo");
    assert_eq!(ago(120 * day), "4mo");
    assert_eq!(ago(360 * day), "12mo"); // 30-day month, 365-day year
    assert_eq!(ago(365 * day), "1y");
}

#[test]
fn relative_time_is_total() {
    assert_eq!(relative_time_short(i64::MIN, i64::MAX), "584942417355y");
    assert_eq!(relative_time_short(i64::MAX, i64::MIN), "future");
}

#[test]
fn boundaries_move_and_stay_between_graphemes() {
    let s = "e\u{301}x \u{4e16}";
    // The accent belongs to the letter before it.
    assert_eq!(next_grapheme_boundary(s, 0), 3);
    assert_eq!(prev_grapheme_boundary(s, 3), 0);
    assert_eq!(next_grapheme_boundary(s, s.len()), s.len());
    assert_eq!(prev_grapheme_boundary(s, 0), 0);
    assert_eq!(prev_word_boundary(s, 0), 0);
    assert_eq!(next_word_boundary(s, 3), 5);
    // A position beyond the text comes back as it is.
    assert_eq!(next_grapheme_boundary("ab", 5), 5);
    // There and back again.
    let mut at = 0;
    while at < s.len() {
        let next = next_grapheme_boundary(s, at);
        assert_eq!(prev_grapheme_boundary(s, next), at);
        at = next;
    }
    while at > 0 {
        let prev = prev_grapheme_boundary(s, at);
        assert_eq!(next_grapheme_boundary(s, prev), at);
        at = prev;
    }
}

#[test]
fn cut_texts_keep_to_their_columns() {
    for max in 0..8 {
        for s in ["hello world", "\u{4e16}\u{754c}\u{597d}", "a\u{1F600}b\u{1F601}"] {
            let columns = |t: &str| -> usize {
                t.chars().map(|c| if (c as u32) > 0x2fff { 2 } else { 1 }).sum()
            };
            assert!(columns(&truncate_end(s, max)) <= max, "{s} {max}");
            assert!(columns(&truncate_start(s, max)) <= max, "{s} {max}");
        }
    }
}

#[test]
fn cuts_go_by_the_columns_they_are_given() {
    let ws = vec![1, 2, 0, 3];
    assert_eq!(cut_end("abcd", 6, &ws, 0), "");
    assert_eq!(cut_end("abcd", 6, &ws, 6), "abcd");
    assert_eq!(cut_end("abcd", 6, &ws, 4), "abc\u{2026}");
    assert_eq!(cut_end("abcd", 6, &ws, 3), "a\u{2026}");
    // The width decides whether to cut, the columns where.
    assert_eq!(cut_end("abcd", 7, &ws, 6), "abc\u{2026}");
    assert_eq!(cut_start("abcd", 6, &ws, 0), "");
    assert_eq!(cut_start("abcd", 6, &ws, 6), "abcd");
    assert_eq!(cut_start("abcd", 6, &ws, 5), "\u{2026}cd");
    assert_eq!(cut_start("abcd", 6, &ws, 2), "\u{2026}");
    assert_eq!(cut_start("abcd", usize::MAX, &ws, 1), "\u{2026}");
}

#[test]
fn positions_go_by_the_clusters_they_are_given() {
    let gs: Vec<String> = ["ab", " ", "c", "de", " ", " ", "f"].map(String::from).to_vec();
    let ws = vec![2, 1, 1, 1, 1, 1, 1];
    assert_eq!(offset_in(&gs, &ws, 0), 0);
    assert_eq!(offset_in(&gs, &ws, 1), 2);
    assert_eq!(offset_in(&gs, &ws, 5), 6);
    assert_eq!(offset_in(&gs, &ws, 99), 9);
    assert_eq!(next_edge_in(&gs, 1), 2);
    assert_eq!(next_edge_in(&gs, 4), 6);
    assert_eq!(next_edge_in(&gs, 9), 9);
    assert_eq!(prev_edge_in(&gs, 0), 0);
    assert_eq!(prev_edge_in(&gs, 5), 4);
    assert_eq!(prev_edge_in(&gs, 99), 8);
    assert_eq!(prev_word_in(&gs, 8), 3);
    assert_eq!(prev_word_in(&gs, 3), 0);
    assert_eq!(next_word_in(&gs, 0), 3);
    assert_eq!(next_word_in(&gs, 3), 8);
    assert_eq!(next_word_in(&gs, 99), 9);
    assert_eq!(next_edge_in(&gs, 12), 12);
    assert_eq!(next_edge_in(&vec![], 5), 5);
    assert_eq!(peel_in("abc", &gs), ("ab", "c"));
    assert_eq!(peel_in("", &vec![]), (" ", ""));
}
