use yewchat::text::{avatar_url, is_blank, is_gif, push_decimal};

fn decimal_of(n: usize) -> String {
    let mut s = String::new();
    push_decimal(&mut s, n);
    s
}

#[test]
fn avatar_url_names_the_user() {
    assert_eq!(
        avatar_url("ann"),
        "https://avatars.dicebear.com/api/adventurer-neutral/ann.svg"
    );
    assert_eq!(
        avatar_url(""),
        "https://avatars.dicebear.com/api/adventurer-neutral/.svg"
    );
}

#[test]
fn decimal_matches_display() {
    for n in [0usize, 1, 9, 10, 11, 99, 100, 1234567, usize::MAX] {
        assert_eq!(decimal_of(n), n.to_string());
    }
}

#[test]
fn push_decimal_appends() {
    let mut s = String::from("x=");
    push_decimal(&mut s, 42);
    assert_eq!(s, "x=42");
}

#[test]
fn gif_suffix() {
    assert!(is_gif("cat.gif"));
    assert!(is_gif(".gif"));
    assert!(is_gif("https://media.example/dance.gif"));
    assert!(!is_gif("gif"));
    assert!(!is_gif("cat.GIF"));
    assert!(!is_gif("cat.gif "));
    assert!(!is_gif(""));
    assert!(!is_gif("cat.png"));
}

#[test]
fn blank_input() {
    assert!(is_blank(""));
    assert!(is_blank("   "));
    assert!(is_blank(" \t\r\n"));
    assert!(is_blank("\u{3000}\u{a0}"));
    assert!(!is_blank(" a "));
    assert!(!is_blank("hello"));
    assert!(!is_blank("\u{200b}"));
}

fn listed_white_space(c: char) -> bool {
    matches!(
        c as u32,
        0x9..=0xd | 0x20 | 0x85 | 0xa0 | 0x1680 | 0x2000..=0x200a | 0x2028 | 0x2029 | 0x202f
            | 0x205f | 0x3000
    )
}

#[test]
fn blank_single_characters_follow_the_white_space_list() {
    for c in (0u32..=0x10ffff).filter_map(char::from_u32) {
        assert_eq!(is_blank(&c.to_string()), listed_white_space(c), "{:?}", c);
    }
}
