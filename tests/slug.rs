use lean::slug::{normalize, to_ascii, to_snake_case};

fn is_slug(s: &str) -> bool {
    s.chars().all(|c| c.is_ascii_lowercase() || c.is_ascii_digit() || c == '_' || c == '-')
        && !s.contains("__")
}

#[test]
fn normalize_trims_and_collapses_whitespace() {
    assert_eq!("a b c", normalize("  a \t\n b\r\n\u{a0}c \u{3000}"));
    assert_eq!("", normalize(" \t\n "));
    assert_eq!("", normalize(""));
}

#[test]
fn normalize_is_idempotent() {
    for s in [" x  y ", "\tTitle\n\nwith  runs ", "plain", "", "  "] {
        let once = normalize(s);
        assert_eq!(once, normalize(&once));
    }
}

#[test]
fn normalize_and_slug_of_a_fancy_title() {
    let title = [" Ääß Öö Üü MY fancy ", "new   _TASK ", " - "].join(" ");
    let normalized = normalize(&title);
    assert_eq!("Ääß Öö Üü MY fancy new _TASK -", normalized);
    // Runs of underscores are squeezed to one, so `new _TASK` gives `new_task`.
    assert_eq!("aeaess_oeoe_ueue_my_fancy_new_task_-", to_snake_case(&normalized));
}

#[test]
fn slug_has_only_lowercase_slug_characters() {
    for s in ["Hello World!", "ÄÖÜ äöü ß", "a__b", "[x]^y`z\\", "Straße 12 -- Nord", "  lead"] {
        let slug = to_snake_case(s);
        assert!(is_slug(&slug), "{:?} gave {:?}", s, slug);
    }
    assert_eq!("hello_world", to_snake_case("Hello World!"));
    assert_eq!("x_y", to_snake_case("[x] y"));
    assert_eq!("_lead", to_snake_case("  lead"));
    assert_eq!("", to_snake_case(""));
}

#[test]
fn to_ascii_transliterates_case_sensitively() {
    assert_eq!("AeOeUessaeoeue", to_ascii(&String::from("ÄÖÜßäöü")));
    assert_eq!("a_b-c", to_ascii(&String::from("a___b-c!")));
    assert_eq!("", to_ascii(&String::from("!?")));
}
