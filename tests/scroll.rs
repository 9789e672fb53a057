use howlto::scroll::ScrollingMessage;
use unicode_width::UnicodeWidthStr;

#[test]
fn scroll_message() {
    const SCROLL_WIDTH: usize = 10;
    let mut sm = ScrollingMessage::new(SCROLL_WIDTH);
    sm.push("你好世界");
    assert_eq!(sm.scroll(0), "");
    assert_eq!(sm.scroll(1), "");
    assert_eq!(sm.scroll(2), "你");
    assert_eq!(sm.scroll(6), "你好世界");
    sm.push("abc");
    assert_eq!("你好世界ab".width_cjk(), SCROLL_WIDTH);
    let s = sm.scroll(2);
    assert_eq!(s.width_cjk(), SCROLL_WIDTH);
    assert_eq!(s, "你好世界ab");
    sm.push("我能正常滚动");
    assert_eq!(sm.scroll(0), "你好世界ab");
    assert_eq!(sm.scroll(usize::MAX), "能正常滚动");
}

#[test]
fn wide_characters_scroll_whole() {
    let mut sm = ScrollingMessage::new(10);
    sm.push("你好世界");
    assert_eq!(sm.scroll(2), "你");
    assert_eq!(sm.scroll(6), "你好世界");
    assert!(!sm.has_new_messages());
}

#[test]
fn scroll_zero_repeats_window() {
    let mut sm = ScrollingMessage::new(4);
    sm.push("abcdef");
    let first = sm.scroll(3);
    assert_eq!(first, "abc");
    assert_eq!(sm.scroll(0), first);
    sm.push("xyz");
    assert_eq!(sm.scroll(0), first);
}

#[test]
fn scroll_zero_moves_past_control_character() {
    let mut sm = ScrollingMessage::new(4);
    sm.push("ab");
    assert_eq!(sm.scroll(2), "ab");
    sm.push("\ncd");
    assert_eq!(sm.scroll(0), "ab\n");
    assert_eq!(sm.scroll(0), "ab\n");
}

#[test]
fn window_never_wider_than_scroll_width() {
    let mut sm = ScrollingMessage::new(5);
    sm.push("a你b好c世d界e");
    for step in [1usize, 3, 2, 7, 0, 100] {
        let w = sm.scroll(step);
        assert!(w.width_cjk() <= 5);
    }
    assert_eq!(sm.scroll(0), "d界e");
}

#[test]
fn character_wider_than_window_gives_empty_window() {
    let mut sm = ScrollingMessage::new(1);
    sm.push("你");
    assert_eq!(sm.scroll(2), "");
    assert!(!sm.has_new_messages());
}

#[test]
fn cursor_only_moves_forward() {
    let mut sm = ScrollingMessage::new(10);
    assert!(!sm.has_new_messages());
    sm.push("hello");
    assert!(sm.has_new_messages());
    assert_eq!(sm.scroll(3), "hel");
    assert!(sm.has_new_messages());
    assert_eq!(sm.scroll(100), "hello");
    assert!(!sm.has_new_messages());
    assert_eq!(sm.scroll(100), "hello");
    assert_eq!(sm.message(), "hello");
}

#[test]
fn windows_at_either_end() {
    assert_eq!(ScrollingMessage::window_at_first("你好ab", 3), "你");
    assert_eq!(ScrollingMessage::window_at_first("你好ab", 4), "你好");
    assert_eq!(ScrollingMessage::window_at_first("", 4), "");
    assert_eq!(ScrollingMessage::window_at_last("ab你好", 5), "b你好");
    assert_eq!(ScrollingMessage::window_at_last("ab你好", 1), "");
}
