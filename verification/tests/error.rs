use pokecli::PokeCliError;

#[test]
fn each_error_has_its_line() {
    assert_eq!(
        PokeCliError::Http("timed out".to_string()).message(),
        "HTTP request failed: timed out"
    );
    assert_eq!(
        PokeCliError::PokemonNotFound { name: "missingno".to_string() }.message(),
        "Pokemon 'missingno' not found"
    );
    assert_eq!(
        PokeCliError::InvalidInput { input: "  ".to_string() }.message(),
        "Invalid Pokemon name or ID:   "
    );
    assert_eq!(
        PokeCliError::Cache("Failed to acquire read lock".to_string()).message(),
        "Cache error: Failed to acquire read lock"
    );
    assert_eq!(
        PokeCliError::Config("no such file".to_string()).message(),
        "Configuration error: no such file"
    );
    assert_eq!(PokeCliError::Io("broken pipe".to_string()).message(), "IO error: broken pipe");
    assert_eq!(
        PokeCliError::Serialization("expected value at line 1 column 1".to_string()).message(),
        "Serialization error: expected value at line 1 column 1"
    );
}

#[test]
fn an_empty_cause_leaves_the_prefix() {
    assert_eq!(PokeCliError::Cache(String::new()).message(), "Cache error: ");
    assert_eq!(
        PokeCliError::PokemonNotFound { name: String::new() }.message(),
        "Pokemon '' not found"
    );
}
