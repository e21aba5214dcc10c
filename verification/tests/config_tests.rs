use cirro::config::{
    authentication_plan, ApiService, Config, ConfigError, ConfiguredServices, TomlConfig,
};

#[test]
fn round_trip_both_sections() {
    let text = "[github]\nhost = \"github.example.com\"\nusername = \"alice\"\n\n[jira]\nhost = \"jira.example.com\"\nemail = \"alice@example.com\"\n";
    let services = ConfiguredServices::from_file(text).unwrap();
    assert_eq!(services.github, Some("alice".to_string()));
    assert_eq!(services.jira, Some("alice@example.com".to_string()));
}

#[test]
fn round_trip_toml_fields() {
    let text = "[github]\nhost = \"github.example.com\"\nusername = \"alice\"\n[jira]\nhost = \"jira.example.com\"\nemail = \"alice@example.com\"\n";
    let toml = TomlConfig::from_file(text).unwrap();
    let gh = toml.github.unwrap();
    assert_eq!(gh.host, "github.example.com");
    assert_eq!(gh.username, "alice");
    let jr = toml.jira.unwrap();
    assert_eq!(jr.host, "jira.example.com");
    assert_eq!(jr.email, "alice@example.com");
}

#[test]
fn neither_section_yields_unset() {
    let services = ConfiguredServices::from_file("").unwrap();
    assert!(services.github.is_none());
    assert!(services.jira.is_none());

    let services = ConfiguredServices::from_file("# just a comment\n\n").unwrap();
    assert!(services.github.is_none());
    assert!(services.jira.is_none());
}

#[test]
fn comments_blank_lines_and_padding_are_accepted() {
    let text = "# config\n\n  [github]  \n  host   =   \"h\"  \n\tusername = \"u\"\t\n";
    let toml = TomlConfig::from_file(text).unwrap();
    let gh = toml.github.unwrap();
    assert_eq!(gh.host, "h");
    assert_eq!(gh.username, "u");
    assert!(toml.jira.is_none());
}

#[test]
fn crlf_lines_are_accepted() {
    let text = "[github]\r\nhost = \"h\"\r\nusername = \"u\"\r\n";
    let toml = TomlConfig::from_file(text).unwrap();
    assert_eq!(toml.github.unwrap().host, "h");
}

#[test]
fn repeated_key_last_value_wins() {
    let text = "[github]\nhost = \"first\"\nhost = \"second\"\nusername = \"u\"\n";
    let toml = TomlConfig::from_file(text).unwrap();
    assert_eq!(toml.github.unwrap().host, "second");
}

#[test]
fn malformed_line_reports_its_index() {
    // Line 1 (counting from 0) is not a header, pair, comment or blank.
    let err = TomlConfig::from_file("[github]\nnonsense\n").unwrap_err();
    assert_eq!(err, ConfigError::Malformed { line: 1 });
}

#[test]
fn unknown_section_is_malformed() {
    let err = TomlConfig::from_file("[gitlab]\n").unwrap_err();
    assert_eq!(err, ConfigError::Malformed { line: 0 });
}

#[test]
fn pair_outside_any_section_is_malformed() {
    let err = TomlConfig::from_file("host = \"h\"\n[github]\n").unwrap_err();
    assert_eq!(err, ConfigError::Malformed { line: 0 });
}

#[test]
fn unknown_key_is_malformed() {
    let err = TomlConfig::from_file("[github]\nhost = \"h\"\nport = \"80\"\n").unwrap_err();
    assert_eq!(err, ConfigError::Malformed { line: 2 });
}

#[test]
fn unquoted_value_is_malformed() {
    let err = TomlConfig::from_file("[github]\nhost = example.com\n").unwrap_err();
    assert_eq!(err, ConfigError::Malformed { line: 1 });
}

#[test]
fn missing_required_key_is_reported() {
    let err = TomlConfig::from_file("[github]\nhost = \"h\"\n").unwrap_err();
    assert_eq!(err, ConfigError::MissingField(ApiService::GitHub));

    let err = TomlConfig::from_file("[jira]\nemail = \"e\"\n").unwrap_err();
    assert_eq!(err, ConfigError::MissingField(ApiService::Jira));
}

#[test]
fn values_keep_inner_spaces_and_equals_signs() {
    let toml = TomlConfig::from_file("[github]\nhost=\"a = b\"\nusername=\"u v\"\n").unwrap();
    let gh = toml.github.unwrap();
    assert_eq!(gh.host, "a = b");
    assert_eq!(gh.username, "u v");
}

#[test]
fn empty_quoted_value_is_accepted() {
    let toml = TomlConfig::from_file("[jira]\nhost = \"\"\nemail = \"e\"\n").unwrap();
    assert_eq!(toml.jira.unwrap().host, "");
}

#[test]
fn quote_or_backslash_inside_value_is_malformed() {
    let err = TomlConfig::from_file("[github]\nhost = \"a\\b\"\n").unwrap_err();
    assert_eq!(err, ConfigError::Malformed { line: 1 });
}

#[test]
fn whitespace_only_lines_are_skipped() {
    let toml = TomlConfig::from_file("   \t\n[github]\nhost = \"h\"\nusername = \"u\"\n  \n").unwrap();
    assert!(toml.github.is_some());
}

#[test]
fn load_pairs_each_service_with_its_token() {
    let toml = TomlConfig::from_file(
        "[github]\nhost = \"gh\"\nusername = \"u\"\n[jira]\nhost = \"jh\"\nemail = \"e\"\n",
    )
    .unwrap();
    let config = Config::load(toml, Some("tok-gh".to_string()), Some("tok-jr".to_string()));
    let gh = config.github.unwrap();
    assert_eq!(gh.host, "gh");
    assert_eq!(gh.username, "u");
    assert_eq!(gh.api_token, "tok-gh");
    let jr = config.jira.unwrap();
    assert_eq!(jr.host, "jh");
    assert_eq!(jr.email, "e");
    assert_eq!(jr.api_token, "tok-jr");
}

#[test]
fn load_keeps_absent_services_absent() {
    let toml = TomlConfig::from_file("").unwrap();
    let config = Config::load(toml, None, None);
    assert!(config.github.is_none());
    assert!(config.jira.is_none());
}

#[test]
fn keryring_names_are_fixed_per_service() {
    assert_eq!(ApiService::GitHub.keryring_name(), "cirro-github");
    assert_eq!(ApiService::Jira.keryring_name(), "cirro-jira");
}

#[test]
fn no_configured_services_plans_no_writes() {
    let services = ConfiguredServices { github: None, jira: None };
    assert_eq!(authentication_plan(&services).len(), 0);
}

#[test]
fn plan_lists_each_configured_service_once() {
    let services = ConfiguredServices {
        github: Some("alice".to_string()),
        jira: Some("alice@example.com".to_string()),
    };
    let plan = authentication_plan(&services);
    assert_eq!(plan.len(), 2);
    assert_eq!(plan[0].0, ApiService::GitHub);
    assert_eq!(plan[0].1, "alice");
    assert_eq!(plan[1].0, ApiService::Jira);
    assert_eq!(plan[1].1, "alice@example.com");

    let only_jira = ConfiguredServices { github: None, jira: Some("bob".to_string()) };
    let plan = authentication_plan(&only_jira);
    assert_eq!(plan.len(), 1);
    assert_eq!(plan[0].0, ApiService::Jira);
    assert_eq!(plan[0].1, "bob");
}
