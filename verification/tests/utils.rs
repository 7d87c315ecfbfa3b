use pokecli::utils::{is_numeric_id, normalize_pokemon_name, validate_pokemon_input};
use pokecli::PokeCliError;

#[test]
fn normalize_lowers_and_trims() {
    assert_eq!(normalize_pokemon_name("Pikachu"), "pikachu");
    assert_eq!(normalize_pokemon_name("  PIKACHU \n"), "pikachu");
    assert_eq!(normalize_pokemon_name("Mr. Mime"), "mr. mime");
    assert_eq!(normalize_pokemon_name("\tÉVOLI\u{a0}"), "évoli");
    assert_eq!(normalize_pokemon_name(""), "");
    assert_eq!(normalize_pokemon_name("   "), "");
    assert_eq!(normalize_pokemon_name("25"), "25");
}

#[test]
fn numeric_id_is_digits_only() {
    assert!(is_numeric_id("25"));
    assert!(is_numeric_id("0"));
    assert!(is_numeric_id("0123456789"));
    assert!(is_numeric_id(""));
    assert!(!is_numeric_id("2a"));
    assert!(!is_numeric_id("a2"));
    assert!(!is_numeric_id(" 25"));
    assert!(!is_numeric_id("-1"));
    assert!(!is_numeric_id("2.5"));
    assert!(!is_numeric_id("pikachu"));
    assert!(!is_numeric_id("２５"));
    assert!(!is_numeric_id("/"));
    assert!(!is_numeric_id(":"));
}

#[test]
fn validate_accepts_and_normalizes() {
    assert_eq!(validate_pokemon_input("Pikachu").unwrap(), "pikachu");
    assert_eq!(validate_pokemon_input("  Pikachu  ").unwrap(), "pikachu");
    assert_eq!(validate_pokemon_input(" 25 ").unwrap(), "25");
    assert_eq!(validate_pokemon_input("x").unwrap(), "x");
}

#[test]
fn validate_rejects_blank_input_as_typed() {
    match validate_pokemon_input("") {
        Err(PokeCliError::InvalidInput { input }) => assert_eq!(input, ""),
        other => panic!("{other:?}"),
    }
    match validate_pokemon_input(" \t\n ") {
        Err(PokeCliError::InvalidInput { input }) => assert_eq!(input, " \t\n "),
        other => panic!("{other:?}"),
    }
}

fn is_white_space(c: char) -> bool {
    matches!(
        c,
        '\u{9}'..='\u{d}'
            | ' '
            | '\u{85}'
            | '\u{a0}'
            | '\u{1680}'
            | '\u{2000}'..='\u{200a}'
            | '\u{2028}'
            | '\u{2029}'
            | '\u{202f}'
            | '\u{205f}'
            | '\u{3000}'
    )
}

#[test]
fn a_single_character_is_rejected_exactly_when_it_is_white_space() {
    let mut code: u32 = 0;
    while code <= 0x10ffff {
        if let Some(c) = char::from_u32(code) {
            let rejected = validate_pokemon_input(&c.to_string()).is_err();
            assert_eq!(rejected, is_white_space(c), "U+{code:04X}");
        }
        code += if code < 0x1_0000 { 1 } else { 0x101 };
    }
}

#[test]
fn white_space_of_every_kind_is_trimmed_at_both_ends() {
    assert_eq!(normalize_pokemon_name("\u{3000}Pikachu\u{2003}"), "pikachu");
    assert_eq!(normalize_pokemon_name("\u{85}\u{a0}x\u{1680}\u{2028}\u{2029}"), "x");
    assert_eq!(normalize_pokemon_name("\u{202f}\u{205f}a b\u{b}\u{c}\r"), "a b");
    assert_eq!(normalize_pokemon_name("\u{200b}x\u{feff}"), "\u{200b}x\u{feff}");
    assert_eq!(normalize_pokemon_name("\u{180e}x"), "\u{180e}x");
    assert!(validate_pokemon_input(" \t").is_err());
    assert!(validate_pokemon_input("\u{200b}").is_ok());
}
