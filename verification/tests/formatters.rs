use pokecli::api::models::{
    NamedApiResource, Pokemon, PokemonAbility, PokemonSprites, PokemonStat, PokemonType,
};
use pokecli::output::text::join;
use pokecli::output::{JsonFormatter, TableFormatter, YamlFormatter};

fn named(name: &str) -> NamedApiResource {
    NamedApiResource { name: name.to_string(), url: format!("https://pokeapi.co/api/v2/x/{name}") }
}

fn pikachu() -> Pokemon {
    Pokemon {
        id: 25,
        name: "pikachu".to_string(),
        height: 4,
        weight: 60,
        base_experience: Some(112),
        types: vec![PokemonType { slot: 1, type_info: named("electric") }],
        abilities: vec![
            PokemonAbility { is_hidden: false, slot: 1, ability: named("static") },
            PokemonAbility { is_hidden: true, slot: 3, ability: named("lightning-rod") },
        ],
        stats: vec![
            PokemonStat { base_stat: 35, effort: 0, stat: named("hp") },
            PokemonStat { base_stat: 90, effort: 2, stat: named("speed") },
        ],
        sprites: PokemonSprites {
            front_default: None,
            front_shiny: None,
            back_default: None,
            back_shiny: None,
        },
    }
}

const BASIC: &str = "\
╭─────────────────┬───────────────╮
│ attribute       │ value         │
├─────────────────┼───────────────┤
│ Height          │ 4 decimeters  │
│ Weight          │ 60 hectograms │
│ Base Experience │ 112           │
╰─────────────────┴───────────────╯";

const STATS: &str = "\
╭───────┬────────────┬────────╮
│ stat  │ base_value │ effort │
├───────┼────────────┼────────┤
│ hp    │ 35         │ 0      │
│ speed │ 90         │ 2      │
╰───────┴────────────┴────────╯";

const ABILITIES: &str = "\
╭───────────────┬────────┬──────╮
│ ability       │ hidden │ slot │
├───────────────┼────────┼──────┤
│ static        │ No     │ 1    │
│ lightning-rod │ Yes    │ 3    │
╰───────────────┴────────┴──────╯";

#[test]
fn join_puts_the_separator_between() {
    assert_eq!(join(&vec![], "/"), "");
    assert_eq!(join(&vec!["FIRE".to_string()], "/"), "FIRE");
    assert_eq!(join(&vec!["FIRE".to_string(), "FLYING".to_string()], "/"), "FIRE/FLYING");
    assert_eq!(
        join(&vec!["a".to_string(), String::new(), "c".to_string()], ", "),
        "a, , c"
    );
}

#[test]
fn records_of_the_three_tables() {
    let pokemon = pikachu();
    assert_eq!(
        TableFormatter::basic_records(&pokemon),
        vec![
            vec!["attribute".to_string(), "value".to_string()],
            vec!["Height".to_string(), "4 decimeters".to_string()],
            vec!["Weight".to_string(), "60 hectograms".to_string()],
            vec!["Base Experience".to_string(), "112".to_string()],
        ]
    );
    assert_eq!(
        TableFormatter::stat_records(&pokemon),
        vec![
            vec!["stat".to_string(), "base_value".to_string(), "effort".to_string()],
            vec!["hp".to_string(), "35".to_string(), "0".to_string()],
            vec!["speed".to_string(), "90".to_string(), "2".to_string()],
        ]
    );
    assert_eq!(
        TableFormatter::ability_records(&pokemon),
        vec![
            vec!["ability".to_string(), "hidden".to_string(), "slot".to_string()],
            vec!["static".to_string(), "No".to_string(), "1".to_string()],
            vec!["lightning-rod".to_string(), "Yes".to_string(), "3".to_string()],
        ]
    );
}

#[test]
fn unknown_experience_and_large_numbers() {
    let mut pokemon = pikachu();
    pokemon.base_experience = None;
    pokemon.height = 0;
    pokemon.weight = u32::MAX;
    assert_eq!(
        TableFormatter::basic_records(&pokemon),
        vec![
            vec!["attribute".to_string(), "value".to_string()],
            vec!["Height".to_string(), "0 decimeters".to_string()],
            vec!["Weight".to_string(), "4294967295 hectograms".to_string()],
            vec!["Base Experience".to_string(), "Unknown".to_string()],
        ]
    );
    pokemon.abilities[0].slot = u8::MAX;
    assert_eq!(TableFormatter::ability_records(&pokemon)[1][2], "255");
}

#[test]
fn assemble_orders_the_parts() {
    let types = vec!["ELECTRIC".to_string(), "STEEL".to_string()];
    assert_eq!(
        TableFormatter::assemble("NAME", "#7", &types, "<basic>", "<stats>", "<abilities>"),
        "NAME #7 - ELECTRIC/STEEL\n\n<basic>\n\nStats:\n<stats>\n\nAbilities:\n<abilities>"
    );
    assert_eq!(
        TableFormatter::assemble("", "", &vec![], "", "", ""),
        "  - \n\n\n\nStats:\n\n\nAbilities:\n"
    );
}

#[test]
fn plain_report_on_a_creature() {
    let formatter = TableFormatter::new().with_colors(false);
    let report = formatter.format_pokemon(&pikachu()).unwrap();
    let expected =
        format!("PIKACHU #25 - ELECTRIC\n\n{BASIC}\n\nStats:\n{STATS}\n\nAbilities:\n{ABILITIES}");
    assert_eq!(report, expected);
}

#[test]
fn plain_report_without_types_stats_or_abilities() {
    let mut pokemon = pikachu();
    pokemon.types.clear();
    pokemon.stats.clear();
    pokemon.abilities.clear();
    let report = TableFormatter::new().with_colors(false).format_pokemon(&pokemon).unwrap();
    let stats = "\
╭──────┬────────────┬────────╮
│ stat │ base_value │ effort │
├──────┼────────────┼────────┤";
    let abilities = "\
╭─────────┬────────┬──────╮
│ ability │ hidden │ slot │
├─────────┼────────┼──────┤";
    let expected =
        format!("PIKACHU #25 - \n\n{BASIC}\n\nStats:\n{stats}\n\nAbilities:\n{abilities}");
    assert_eq!(report, expected);
}

#[test]
fn colored_report_keeps_the_tables() {
    let report = TableFormatter::new().format_pokemon(&pikachu()).unwrap();
    let tail = format!("\n\n{BASIC}\n\nStats:\n{STATS}\n\nAbilities:\n{ABILITIES}");
    assert!(report.ends_with(&tail));
    let first_line = &report[..report.len() - tail.len()];
    assert!(first_line.contains("PIKACHU"));
    assert!(first_line.contains("#25"));
    assert!(first_line.contains(" - "));
    assert!(first_line.contains("ELECTRIC"));
    assert!(!first_line.contains('\n'));
}

#[test]
fn default_formatter_asks_for_colour() {
    let plain = TableFormatter::default().with_colors(false);
    assert_eq!(plain.format_error("boom"), "Error: boom");
    let colored = TableFormatter::default().format_error("boom");
    assert!(colored.ends_with(": boom"));
    assert!(colored.contains("Error"));
}

#[test]
fn errors_in_each_format() {
    assert_eq!(TableFormatter::new().with_colors(false).format_error(""), "Error: ");
    assert_eq!(TableFormatter::label_error("Warning", "low"), "Warning: low");
    assert_eq!(JsonFormatter::new().format_error("boom"), "{\"error\": \"boom\"}");
    assert_eq!(JsonFormatter::default().format_error("a \"b\""), "{\"error\": \"a \"b\"\"}");
    assert_eq!(YamlFormatter::new().format_error("boom"), "error: boom");
    assert_eq!(YamlFormatter::default().format_error(""), "error: ");
}
