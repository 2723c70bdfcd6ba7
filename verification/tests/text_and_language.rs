use deve_llama_gui::i18n::{t, text_key, tr, TextKey};
use deve_llama_gui::language::Language;
use deve_llama_gui::text::{
    chars_of, contains_text, decimal, is_whitespace, replace_text, same_text, trim,
};
use deve_llama_gui::theme::{Rgb, Theme};

#[test]
fn language_names_and_order() {
    assert_eq!(Language::English.name(), "language : English");
    assert_eq!(Language::ChineseSimplified.name(), "语言：中文-简体");
    assert_eq!(Language::ChineseTraditional.name(), "語言：中文-繁體");
    assert_eq!(Language::Japanese.name(), "言語：日本語");
    assert_eq!(Language::Korean.name(), "언어: 한국어");
    assert_eq!(Language::English.display_name(), "English");
    assert_eq!(Language::ChineseSimplified.display_name(), "中文-简体");
    assert_eq!(Language::ChineseTraditional.display_name(), "中文-繁體");
    assert_eq!(Language::Japanese.display_name(), "日本語");
    assert_eq!(Language::Korean.display_name(), "한국어");
    assert_eq!(
        Language::all(),
        [
            Language::English,
            Language::ChineseSimplified,
            Language::ChineseTraditional,
            Language::Japanese,
            Language::Korean
        ]
    );
    assert_eq!(Language::default(), Language::English);
}

#[test]
fn every_language_listed_once() {
    for lang in Language::all() {
        assert_eq!(Language::all().iter().filter(|l| **l == lang).count(), 1);
    }
}

#[test]
fn translations_of_known_keys() {
    assert_eq!(t(Language::English, "model"), "Model:");
    assert_eq!(t(Language::ChineseSimplified, "model"), "模型:");
    assert_eq!(t(Language::ChineseTraditional, "server"), "伺服器:");
    assert_eq!(t(Language::Japanese, "browse"), "参照");
    assert_eq!(t(Language::Korean, "start"), "시작");
    assert_eq!(t(Language::English, "server_start_cmd"), "Start command:");
    assert_eq!(t(Language::ChineseTraditional, "close"), "閉");
    assert_eq!(t(Language::Korean, "ctx_per_seq_warn"), "시퀀스당 ctx = 합계 ÷ 병렬");
    assert_eq!(t(Language::Japanese, "confirm_delete"), "削除しますか？");
}

#[test]
fn app_title_is_the_same_in_every_language() {
    for lang in Language::all() {
        assert_eq!(t(lang, "app_title"), "DeveLlamaGUI Pro");
    }
}

#[test]
fn unknown_keys_come_back_unchanged() {
    for lang in Language::all() {
        assert_eq!(t(lang, "no_such_key"), "no_such_key");
        assert_eq!(t(lang, ""), "");
        assert_eq!(t(lang, "Model"), "Model");
        assert_eq!(t(lang, "model "), "model ");
    }
}

#[test]
fn keys_parse_to_phrases() {
    assert_eq!(text_key("app_title"), Some(TextKey::AppTitle));
    assert_eq!(text_key("delete_preset"), Some(TextKey::DeletePreset));
    assert_eq!(text_key("delete"), None);
    assert_eq!(tr(Language::English, TextKey::DeletePreset), "Delete");
    assert_eq!(tr(Language::ChineseSimplified, TextKey::MirostatV2), "Mirostat 2.0");
}

#[test]
fn theme_names_colours_and_visuals() {
    assert_eq!(Theme::default(), Theme::Cyberpunk);
    let names: Vec<&str> = Theme::all().iter().map(|t| t.name()).collect();
    assert_eq!(
        names,
        vec!["Cyberpunk", "Minimal Light", "Sakura Pink", "Ocean Blue", "Midnight", "Forest Green"]
    );
    assert_eq!(Theme::Midnight.accent_color(), Rgb { r: 150, g: 150, b: 170 });
    assert_eq!(Theme::MinimalLight.success_color(), Rgb { r: 34, g: 197, b: 94 });
    for theme in Theme::all() {
        assert_eq!(theme.error_color(), Rgb { r: 255, g: 80, b: 80 });
    }
    let v = Theme::Cyberpunk.visuals();
    assert!(v.dark);
    assert_eq!(v.panel_fill, Rgb { r: 10, g: 10, b: 20 });
    assert_eq!(v.text_color, Some(Rgb { r: 220, g: 220, b: 240 }));
    assert_eq!(v.active_bg, Some(Rgb { r: 70, g: 70, b: 140 }));
    let light = Theme::SakuraPink.visuals();
    assert!(!light.dark);
    assert_eq!(light.extreme_bg, None);
    assert_eq!(light.selection_bg, Rgb { r: 255, g: 105, b: 180 });
    assert_eq!(Theme::MinimalLight.visuals().extreme_bg, Some(Rgb { r: 245, g: 245, b: 248 }));
}

#[test]
fn accent_matches_selection_except_midnight() {
    for theme in Theme::all() {
        if theme != Theme::Midnight {
            assert_eq!(theme.accent_color(), theme.visuals().selection_bg);
        }
    }
}

#[test]
fn decimal_text_of_integers() {
    assert_eq!(decimal(0), "0");
    assert_eq!(decimal(7), "7");
    assert_eq!(decimal(10), "10");
    assert_eq!(decimal(-42), "-42");
    assert_eq!(decimal(8080), "8080");
    assert_eq!(decimal(i64::MIN), i64::MIN.to_string());
    assert_eq!(decimal(i64::MAX), i64::MAX.to_string());
}

#[test]
fn trimming_whitespace() {
    assert_eq!(trim("  /clear \t\n"), "/clear");
    assert_eq!(trim("\u{3000}a b\u{a0}"), "a b");
    assert_eq!(trim("   "), "");
    assert_eq!(trim(""), "");
    assert_eq!(trim("x"), "x");
}

#[test]
fn searching_and_replacing() {
    assert!(contains_text("ggml_assert failed", "assert"));
    assert!(contains_text("abc", ""));
    assert!(!contains_text("ab", "abc"));
    assert!(!contains_text("n_ctx", "N_CTX"));
    assert_eq!(replace_text("a ^\n  b ^\n  c", " ^\n  ", " "), "a b c");
    assert_eq!(replace_text("it's", "'", "''"), "it''s");
    assert_eq!(replace_text("aaa", "aa", "b"), "ba");
    assert_eq!(replace_text("", "x", "y"), "");
    assert!(same_text("语言", "语言"));
    assert!(!same_text("语言", "語言"));
    assert!(!same_text("a", "ab"));
}

#[test]
fn characters_of_a_string() {
    let cs = chars_of("日本語 ok");
    assert_eq!(cs, vec!['日', '本', '語', ' ', 'o', 'k']);
}

#[test]
fn whitespace_agrees_with_std_on_every_char() {
    for c in (0u32..=0x10FFFF).filter_map(char::from_u32) {
        assert_eq!(is_whitespace(c), c.is_whitespace(), "{:?}", c);
    }
    assert_eq!(trim("\u{3000}\u{85}model\u{2009}\t"), "model");
    assert_eq!(trim("\u{200b}x"), "\u{200b}x");
}
