use pokecli::cli::{Cli, Commands, OutputFormat};
use pokecli::config::Settings;
use pokecli::output::themes::{Color, Theme, Themes};

#[test]
fn default_settings() {
    let settings = Settings::default();
    assert_eq!(settings.api.base_url, "https://pokeapi.co/api/v2");
    assert_eq!(settings.api.timeout_seconds, 30);
    assert_eq!(settings.api.rate_limit_per_second, 10);
    assert!(settings.cache.enabled);
    assert_eq!(settings.cache.ttl_hours, 24);
    assert_eq!(settings.cache.max_size_mb, 100);
    assert_eq!(settings.output.default_format, "table");
    assert!(settings.output.colored);
    assert!(!settings.output.show_sprites);
}

#[test]
fn default_output_format_is_table() {
    assert_eq!(OutputFormat::default(), OutputFormat::Table);
}

#[test]
fn invocation_falls_back_to_the_default_format() {
    let mut cli = Cli { command: Commands::ClearCache, output: None, no_cache: false, verbose: false };
    assert_eq!(cli.output_format(), OutputFormat::Table);
    cli.output = Some(OutputFormat::Yaml);
    assert_eq!(cli.output_format(), OutputFormat::Yaml);
    cli.output = Some(OutputFormat::Json);
    assert_eq!(cli.output_format(), OutputFormat::Json);
}

#[test]
fn themes() {
    let standard = Theme::default();
    assert_eq!(standard.primary, Color::Cyan);
    assert_eq!(standard.secondary, Color::Yellow);
    assert_eq!(standard.accent, Color::Green);
    assert_eq!(standard.error, Color::Red);
    assert_eq!(standard.success, Color::Green);

    let own = Themes::pokemon_theme();
    assert_eq!(own.primary, Color::Cyan);
    assert_eq!(own.secondary, Color::Yellow);
    assert_eq!(own.accent, Color::Green);
    assert_eq!(own.error, Color::Red);
    assert_eq!(own.success, Color::Green);

    let classic = Themes::classic();
    assert_eq!(classic.primary, Color::Blue);
    assert_eq!(classic.secondary, Color::White);
    assert_eq!(classic.accent, Color::Yellow);
    assert_eq!(classic.error, Color::Red);
    assert_eq!(classic.success, Color::Green);
}
