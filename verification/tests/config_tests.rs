use watchdog::{
    config_from_source, config_from_toml, default_config, default_interval, default_processes,
    effective_config, Config, ParseOutcome,
};

fn assert_is_default(c: &Config) {
    assert_eq!(c.blacklisted_processes, vec!["software_reporter_tool".to_string()]);
    assert_eq!(c.refresh_interval, 8);
}

#[test]
fn default_values() {
    assert_eq!(default_interval(), 8);
    assert_eq!(default_processes(), vec!["software_reporter_tool".to_string()]);
    assert_is_default(&default_config());
}

#[test]
fn missing_source_gives_defaults() {
    let c = config_from_source(None);
    assert_is_default(&c);
}

#[test]
fn empty_text_gives_defaults() {
    let c = config_from_toml("");
    assert_is_default(&c);
}

#[test]
fn unparseable_text_gives_defaults() {
    let c = config_from_toml("this is ((( not a toml document");
    assert_is_default(&c);
}

#[test]
fn both_fields_respected() {
    let text = "blacklisted_processes = [\"evil.exe\"]\nrefresh_interval = 1\n";
    let c = config_from_source(Some(text));
    assert_eq!(c.blacklisted_processes, vec!["evil.exe".to_string()]);
    assert_eq!(c.refresh_interval, 1);
}

#[test]
fn several_names_keep_order_and_duplicates() {
    let text = "blacklisted_processes = [\"b\", \"a\", \"b\"]\nrefresh_interval = 30\n";
    let c = config_from_toml(text);
    assert_eq!(
        c.blacklisted_processes,
        vec!["b".to_string(), "a".to_string(), "b".to_string()]
    );
    assert_eq!(c.refresh_interval, 30);
}

#[test]
fn missing_interval_falls_back() {
    let c = config_from_toml("blacklisted_processes = [\"evil.exe\"]\n");
    assert_eq!(c.blacklisted_processes, vec!["evil.exe".to_string()]);
    assert_eq!(c.refresh_interval, 8);
}

#[test]
fn missing_processes_fall_back() {
    let c = config_from_toml("refresh_interval = 5\n");
    assert_eq!(c.blacklisted_processes, vec!["software_reporter_tool".to_string()]);
    assert_eq!(c.refresh_interval, 5);
}

#[test]
fn zero_interval_falls_back_to_default_interval() {
    let c = config_from_toml("blacklisted_processes = [\"evil.exe\"]\nrefresh_interval = 0\n");
    assert_eq!(c.blacklisted_processes, vec!["evil.exe".to_string()]);
    assert_eq!(c.refresh_interval, 8);
}

#[test]
fn negative_interval_makes_document_malformed() {
    let c = config_from_toml("blacklisted_processes = [\"evil.exe\"]\nrefresh_interval = -4\n");
    assert_is_default(&c);
}

#[test]
fn non_array_processes_make_document_malformed() {
    let c = config_from_toml("blacklisted_processes = \"evil.exe\"\nrefresh_interval = 5\n");
    assert_is_default(&c);
}

#[test]
fn non_string_process_entry_makes_document_malformed() {
    let c = config_from_toml("blacklisted_processes = [1, 2]\nrefresh_interval = 5\n");
    assert_is_default(&c);
}

#[test]
fn non_integer_interval_makes_document_malformed() {
    let c = config_from_toml("refresh_interval = \"soon\"\n");
    assert_is_default(&c);
}

#[test]
fn unrecognized_fields_are_ignored() {
    let c = config_from_toml("something_else = 3\n");
    assert_is_default(&c);
}

#[test]
fn effective_config_applies_the_fallback_policy() {
    let full = effective_config(ParseOutcome::Fields {
        processes: Some(vec!["x".to_string()]),
        interval: Some(2),
    });
    assert_eq!(full.blacklisted_processes, vec!["x".to_string()]);
    assert_eq!(full.refresh_interval, 2);

    let zero = effective_config(ParseOutcome::Fields {
        processes: Some(vec!["x".to_string()]),
        interval: Some(0),
    });
    assert_eq!(zero.blacklisted_processes, vec!["x".to_string()]);
    assert_eq!(zero.refresh_interval, 8);

    assert_is_default(&effective_config(ParseOutcome::Malformed));
    assert_is_default(&effective_config(ParseOutcome::Fields { processes: None, interval: None }));
}
