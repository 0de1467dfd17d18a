use iced_core::theme::Base;
use iced_core::Theme;
use katalog_lib::theme::{names_match, ThemeValueEnum, ThemeValueEnumFromStringError};

#[test]
fn theme_is_found_without_regard_to_case() {
    let theme = ThemeValueEnum::from_str("dArK").unwrap();
    assert_eq!(theme.name(), "Dark");
    assert_eq!(theme.index(), 1);
    assert_eq!(Theme::ALL[theme.index()].name(), "Dark");
    let theme = ThemeValueEnum::from_str("solarized light").unwrap();
    assert_eq!(theme.name(), "Solarized Light");
}

#[test]
fn unknown_theme_name_comes_back_in_the_error() {
    assert_eq!(
        ThemeValueEnum::from_str("abc"),
        Err(ThemeValueEnumFromStringError(String::from("abc")))
    );
    assert_eq!(
        ThemeValueEnum::from_str(""),
        Err(ThemeValueEnumFromStringError(String::new()))
    );
}

#[test]
fn lookup_can_mind_the_case() {
    assert_eq!(ThemeValueEnum::lookup("dark", false), None);
    assert_eq!(ThemeValueEnum::lookup("Dark", false).map(|t| t.index()), Some(1));
    assert_eq!(ThemeValueEnum::lookup("dark", true).map(|t| t.index()), Some(1));
    assert_eq!(ThemeValueEnum::lookup("Light", false).map(|t| t.index()), Some(0));
}

#[test]
fn all_builtin_themes_are_listed_in_order() {
    let all = ThemeValueEnum::value_variants();
    assert_eq!(all.len(), Theme::ALL.len());
    for (place, (listed, theme)) in all.iter().zip(Theme::ALL).enumerate() {
        assert_eq!(listed.index(), place);
        assert_eq!(listed.name(), theme.name());
        assert_eq!(ThemeValueEnum::lookup(theme.name(), false), Some(*listed));
    }
}

#[test]
fn themes_are_equal_by_name() {
    let dark = ThemeValueEnum::from_str("Dark").unwrap();
    let again = ThemeValueEnum::from_str("DARK").unwrap();
    let light = ThemeValueEnum::from_str("Light").unwrap();
    assert_eq!(dark, again);
    assert_ne!(dark, light);
}

#[test]
fn names_are_compared_byte_by_byte() {
    assert!(names_match("Nord", "Nord", false));
    assert!(!names_match("Nord", "nord", false));
    assert!(names_match("Nord", "nORD", true));
    assert!(!names_match("Nord", "Nor", true));
    assert!(!names_match("Nord", "Norz", true));
    assert!(names_match("", "", false));
    // only ASCII letters are folded
    assert!(!names_match("é", "É", true));
    assert!(!names_match("[", "{", true));
    assert!(!names_match("@", "`", true));
}

#[test]
fn themes_are_stepped_through_in_the_order_of_the_list() {
    let all = ThemeValueEnum::partial_variants();
    assert_eq!(all.len(), Theme::ALL.len());
    let last = all.len() - 1;
    for (place, theme) in all.iter().enumerate() {
        let after = if place == last { 0 } else { place + 1 };
        let before = if place == 0 { last } else { place - 1 };
        assert_eq!(theme.partial_cycle_next().index(), after);
        assert_eq!(theme.partial_cycle_prev().index(), before);
    }
    let light = ThemeValueEnum::from_str("Light").unwrap();
    assert_eq!(light.partial_cycle_next().name(), "Dark");
    assert_eq!(light.partial_cycle_prev().name(), Theme::ALL[last].name());
}
