use haris_ledger::adblock::{find_bytes, AdBlocker};
use haris_ledger::codec::push_le;
use haris_ledger::desktop::{Color, Theme, WindowHandle, WindowManager};
use haris_ledger::operator::{check_token_balance, check_token_requirement, TokenManager};
use haris_ledger::persona::{KnowledgeLevel, LanguageStyle, Personality, ResponseStyle};
use haris_ledger::MIN_TOKENS;

#[test]
fn test_token_manager() {
    let mut tm = TokenManager::new();
    assert!(tm.check_tokens());
    assert!(tm.use_token(1));
    assert_eq!(tm.current_tokens(), MIN_TOKENS + 49);
}

#[test]
fn locked_account_refuses_debits_until_topped_up() {
    let mut tm = TokenManager::new();
    assert!(tm.use_token(60));
    assert_eq!(tm.current_tokens(), 90);
    assert!(!check_token_balance(&mut tm));
    assert!(tm.is_locked());
    assert!(!tm.use_token(1));
    assert_eq!(tm.current_tokens(), 90);
    assert!(tm.add_tokens(5));
    assert!(tm.is_locked());
    assert!(tm.add_tokens(5));
    assert!(!tm.is_locked());
    assert!(tm.use_token(1));
    assert!(!tm.add_tokens(u32::MAX));
    assert_eq!(tm.current_tokens(), 99);
}

#[test]
fn start_up_gate_charges_one_token() {
    let mut tm = TokenManager::new();
    assert!(check_token_requirement(&mut tm));
    assert_eq!(tm.current_tokens(), 149);
    let mut poor = TokenManager::new();
    poor.use_token(100);
    assert!(!check_token_requirement(&mut poor));
    assert_eq!(poor.current_tokens(), 50);
    assert!(poor.is_locked());
}

#[test]
fn little_endian_bytes() {
    let mut out = vec![9u8];
    push_le(&mut out, 0x0102_0304_0506_0708, 8);
    assert_eq!(out, vec![9, 8, 7, 6, 5, 4, 3, 2, 1]);
    let mut short = Vec::new();
    push_le(&mut short, 0x1234, 4);
    assert_eq!(short, vec![0x34, 0x12, 0, 0]);
}

#[test]
fn window_handles_are_creation_order() {
    let mut wm = WindowManager::new();
    assert_eq!(wm.theme(), Theme::islamic_dark());
    assert_eq!(wm.create_window("browser", 10, 5, 60, 18), WindowHandle(0));
    assert_eq!(wm.create_window("video", 15, 5, 50, 15), WindowHandle(1));
    assert_eq!(wm.active_window(), Some(1));
    assert_eq!(wm.window_count(), 2);
    assert_eq!(Theme::purple_dark().button_bg, Color::from_rgb(100, 0, 150));
}

#[test]
fn personalities() {
    let s = Personality::islamic_scholar();
    assert_eq!(s.knowledge_level, KnowledgeLevel::Expert);
    assert_eq!(s.response_style, ResponseStyle::Detailed);
    assert_eq!(s.traits.len(), 5);
    assert_eq!(s.traits[0], "حكيم");
    let t = Personality::technical_expert();
    assert_eq!(t.language_style, LanguageStyle::ModernTechnical);
    assert_eq!(t.traits[4], "عملي");
}

#[test]
fn ad_blocker_matches_domain_fragments() {
    let mut b = AdBlocker::new();
    assert!(b.should_block("https://ad.doubleclick.net/x"));
    assert!(b.should_block("http://tracking.example.org"));
    assert!(b.should_block("https://facebook.com/ads/123"));
    assert!(!b.should_block("https://quran.com"));
    assert!(!b.should_block("https://facebook.com/groups"));
    assert!(!b.should_block("تتبع.مثال"));
    b.set_enabled(false);
    assert!(!b.should_block("https://ad.doubleclick.net/x"));
}

#[test]
fn byte_search() {
    assert!(find_bytes(b"abcabd", b"abd"));
    assert!(!find_bytes(b"abcabd", b"abe"));
    assert!(find_bytes(b"abc", b""));
    assert!(find_bytes(b"", b""));
    assert!(!find_bytes(b"ab", b"abc"));
    assert!(find_bytes(b"abc", b"abc"));
}
