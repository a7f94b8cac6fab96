use rust_basics::enums::{value_in_cents, Coin, IpAddr, IpAddrKind, State};
use rust_basics::functions::five;
use rust_basics::guessing::{judge, parse_decimal, Game, Verdict, HIGHEST, LOWEST};
use rust_basics::ownership::{calc_length, first_word};
use rust_basics::rectangles::Rectangle;
use rust_basics::structs::{build_user, AlwaysEqual, Color};

#[test]
fn five_is_five() {
    assert_eq!(five(), 5);
}

#[test]
fn calc_length_counts_bytes() {
    assert_eq!(calc_length(&String::from("hello")), 5);
    assert_eq!(calc_length(&String::new()), 0);
    assert_eq!(calc_length(&String::from("héllo")), 6);
}

#[test]
fn first_word_stops_at_space() {
    assert_eq!(first_word("hello world"), "hello");
    assert_eq!(first_word("one two three"), "one");
}

#[test]
fn first_word_without_space_is_whole() {
    assert_eq!(first_word("hello"), "hello");
    assert_eq!(first_word(""), "");
    assert_eq!(first_word("héllo"), "héllo");
}

#[test]
fn first_word_leading_space_is_empty() {
    assert_eq!(first_word(" hello"), "");
}

#[test]
fn first_word_after_multibyte_text() {
    assert_eq!(first_word("größe mehr"), "größe");
}

#[test]
fn rectangle_area() {
    let r1 = Rectangle { width: 30, height: 50 };
    assert_eq!(r1.area(), 1500);
    assert_eq!(Rectangle { width: 0, height: 7 }.area(), 0);
    assert_eq!(Rectangle { width: 65536, height: 65535 }.area(), 4294901760);
}

#[test]
fn rectangle_can_hold() {
    let r1 = Rectangle { width: 30, height: 50 };
    let r2 = Rectangle { width: 10, height: 40 };
    let r3 = Rectangle { width: 60, height: 45 };
    assert!(r1.can_hold(&r2));
    assert!(!r1.can_hold(&r3));
    assert!(!r1.can_hold(&r1));
}

#[test]
fn rectangle_square() {
    let s1 = Rectangle::square(5);
    assert_eq!(s1.width, 5);
    assert_eq!(s1.height, 5);
    assert_eq!(s1.area(), 25);
}

#[test]
fn build_user_defaults() {
    let u = build_user(String::from("example@e.com"), String::from("breyr"));
    assert!(u.active);
    assert_eq!(u.email, "example@e.com");
    assert_eq!(u.username, "breyr");
    assert_eq!(u.sign_in_count, 1);
}

#[test]
fn tuple_and_unit_structs() {
    let white = Color(255, 255, 255);
    assert_eq!(white.0, 255);
    assert_eq!(AlwaysEqual, AlwaysEqual);
}

#[test]
fn coin_values() {
    assert_eq!(value_in_cents(Coin::Penny), 1);
    assert_eq!(value_in_cents(Coin::Nickel), 5);
    assert_eq!(value_in_cents(Coin::Dime), 10);
    assert_eq!(value_in_cents(Coin::Quarter(State::Pennsylvania)), 25);
}

#[test]
fn ip_addresses() {
    let four = IpAddrKind::V4;
    four.who_am_i();
    assert_ne!(four, IpAddrKind::V6);
    let home = IpAddr::V4(127, 0, 0, 7);
    assert!(matches!(home, IpAddr::V4(127, 0, 0, 7)));
    let loopback = IpAddr::V6(String::from("::1"));
    assert!(matches!(loopback, IpAddr::V6(ref s) if s == "::1"));
}

#[test]
fn parse_decimal_accepts_digits() {
    assert_eq!(parse_decimal("42"), Some(42));
    assert_eq!(parse_decimal("+42"), Some(42));
    assert_eq!(parse_decimal("007"), Some(7));
    assert_eq!(parse_decimal("0"), Some(0));
    assert_eq!(parse_decimal("4294967295"), Some(u32::MAX));
}

#[test]
fn parse_decimal_rejects_other_text() {
    assert_eq!(parse_decimal(""), None);
    assert_eq!(parse_decimal("+"), None);
    assert_eq!(parse_decimal("-1"), None);
    assert_eq!(parse_decimal("4 2"), None);
    assert_eq!(parse_decimal(" 42"), None);
    assert_eq!(parse_decimal("42\n"), None);
    assert_eq!(parse_decimal("abc"), None);
    assert_eq!(parse_decimal("++1"), None);
}

#[test]
fn parse_decimal_rejects_overflow() {
    assert_eq!(parse_decimal("4294967296"), None);
    assert_eq!(parse_decimal("99999999999"), None);
}

#[test]
fn parse_decimal_agrees_with_std() {
    for s in ["", "+", "-0", "12", "+7", "00", "4294967295", "4294967296", "1x", "x1", "٣"] {
        assert_eq!(parse_decimal(s), s.parse::<u32>().ok(), "input {:?}", s);
    }
}

#[test]
fn judge_compares() {
    assert_eq!(judge(10, 50), Verdict::TooSmall);
    assert_eq!(judge(90, 50), Verdict::TooBig);
    assert_eq!(judge(50, 50), Verdict::Win);
}

#[test]
fn game_secret_is_in_range() {
    for _ in 0..200 {
        let g = Game::new();
        assert!(LOWEST <= g.secret() && g.secret() <= HIGHEST);
    }
}

#[test]
fn game_with_secret() {
    let g = Game::with_secret(37);
    assert_eq!(g.secret(), 37);
    assert_eq!(g.answer("37"), Some((37, Verdict::Win)));
    assert_eq!(g.answer("12"), Some((12, Verdict::TooSmall)));
    assert_eq!(g.answer("99"), Some((99, Verdict::TooBig)));
    assert_eq!(g.answer(" 37"), None);
}

#[test]
fn game_respond_trims_the_line() {
    let g = Game::with_secret(37);
    assert_eq!(g.respond("37\n"), Some((37, Verdict::Win)));
    assert_eq!(g.respond("  12 \r\n"), Some((12, Verdict::TooSmall)));
    assert_eq!(g.respond("\t100\n"), Some((100, Verdict::TooBig)));
}

#[test]
fn game_respond_asks_again_on_bad_input() {
    let g = Game::with_secret(37);
    assert_eq!(g.respond("\n"), None);
    assert_eq!(g.respond("thirty\n"), None);
    assert_eq!(g.respond("3 7\n"), None);
    assert_eq!(g.respond("-5\n"), None);
}

#[test]
fn first_word_only_space_ends_a_word() {
    assert_eq!(first_word("hello\tworld"), "hello\tworld");
    assert_eq!(first_word("hello\nworld"), "hello\nworld");
}

#[test]
fn first_word_is_idempotent() {
    for s in ["", "hello", "hello world", " x", "a b c", "größe mehr"] {
        let w = first_word(s);
        assert_eq!(first_word(w), w);
        assert!(s.starts_with(w));
        assert!(!w.as_bytes().contains(&b' '));
    }
}

#[test]
fn game_respond_trims_unicode_whitespace() {
    let g = Game::with_secret(37);
    assert_eq!(g.respond("\u{3000}37\u{a0}"), Some((37, Verdict::Win)));
    assert_eq!(g.respond("\u{2009}5\u{85}"), Some((5, Verdict::TooSmall)));
    assert_eq!(g.respond("\u{200b}37"), None);
}
