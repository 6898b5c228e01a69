use loggy::profiles::{get_sso_start_url, list_aws_profiles, profile_uses_sso};

const CONFIG: &str = "[default]\nregion = us-east-1\n\n[profile dev]\nsso_start_url = https://example.awsapps.com/start\nregion = us-west-2\n\n[profile prod]\nregion = eu-west-1\n";

#[test]
fn profiles_are_listed_with_default_always_present() {
    let names = list_aws_profiles(CONFIG);
    assert!(names.contains(&"default".to_string()));
    assert!(names.contains(&"dev".to_string()));
    assert!(names.contains(&"prod".to_string()));
    assert_eq!(names.len(), 3);
}

#[test]
fn default_is_listed_even_for_empty_contents() {
    let names = list_aws_profiles("");
    assert_eq!(names, vec!["default".to_string()]);
}

#[test]
fn profiles_are_sorted_ascending() {
    let names = list_aws_profiles("[profile b]\nx = 1\n[profile a]\n[default]\n[profile b]\n");
    assert_eq!(
        names,
        vec!["a".to_string(), "b".to_string(), "default".to_string()]
    );
    let names2 = list_aws_profiles("[profile zz]\n[profile Zebra]\n");
    // byte-wise string order: upper-case letters sort before lower-case ones
    assert_eq!(
        names2,
        vec!["Zebra".to_string(), "default".to_string(), "zz".to_string()]
    );
}

#[test]
fn duplicate_sections_are_listed_once() {
    let names = list_aws_profiles("[profile dev]\nx = 1\n[profile dev]\ny = 2\n[default]\n");
    assert_eq!(names.len(), 2);
    assert!(names.contains(&"dev".to_string()));
}

#[test]
fn non_section_lines_never_name_profiles() {
    let names = list_aws_profiles("profile ghost\n[not closed\nclosed not]\n");
    assert_eq!(names, vec!["default".to_string()]);
}

#[test]
fn sso_url_is_found_for_the_named_profile() {
    assert_eq!(
        get_sso_start_url(CONFIG, Some("dev"), None),
        Some("https://example.awsapps.com/start".to_string())
    );
}

#[test]
fn sso_url_is_absent_for_profiles_without_one() {
    assert_eq!(get_sso_start_url(CONFIG, Some("prod"), None), None);
    assert_eq!(get_sso_start_url(CONFIG, None, None), None);
    assert_eq!(get_sso_start_url(CONFIG, Some("missing"), None), None);
}

#[test]
fn environment_profile_is_used_without_an_explicit_one() {
    assert_eq!(
        get_sso_start_url(CONFIG, None, Some("dev")),
        Some("https://example.awsapps.com/start".to_string())
    );
    // an explicit profile beats the environment's choice
    assert_eq!(get_sso_start_url(CONFIG, Some("prod"), Some("dev")), None);
}

#[test]
fn sso_url_key_without_spaces_is_accepted() {
    let cfg = "[profile ops]\nsso_start_url=https://ops.example.com/start\n";
    assert_eq!(
        get_sso_start_url(cfg, Some("ops"), None),
        Some("https://ops.example.com/start".to_string())
    );
}

#[test]
fn sso_url_with_empty_value_is_ignored() {
    let cfg = "[profile ops]\nsso_start_url =\nsso_start_url = https://late.example.com\n";
    assert_eq!(
        get_sso_start_url(cfg, Some("ops"), None),
        Some("https://late.example.com".to_string())
    );
}

#[test]
fn url_outside_the_target_section_is_not_taken() {
    let cfg = "sso_start_url = https://stray.example.com\n[profile a]\nsso_start_url = https://a.example.com\n[profile b]\nregion = x\n";
    assert_eq!(get_sso_start_url(cfg, Some("b"), None), None);
    assert_eq!(get_sso_start_url(cfg, Some("a"), None), Some("https://a.example.com".to_string()));
}

#[test]
fn default_section_carries_its_own_url() {
    let cfg = "[default]\nsso_start_url = https://d.example.com\n";
    assert_eq!(get_sso_start_url(cfg, None, None), Some("https://d.example.com".to_string()));
    assert_eq!(get_sso_start_url(cfg, Some("default"), None), Some("https://d.example.com".to_string()));
}

#[test]
fn uses_sso_reflects_url_presence() {
    assert!(profile_uses_sso(CONFIG, Some("dev"), None));
    assert!(!profile_uses_sso(CONFIG, Some("prod"), None));
    assert!(!profile_uses_sso(CONFIG, None, None));
    assert!(profile_uses_sso(CONFIG, None, Some("dev")));
}

#[test]
fn indented_and_crlf_lines_are_trimmed() {
    let cfg = "  [profile win]  \r\n\tsso_start_url = https://w.example.com\r\n";
    assert_eq!(get_sso_start_url(cfg, Some("win"), None), Some("https://w.example.com".to_string()));
    let names = list_aws_profiles(cfg);
    assert!(names.contains(&"win".to_string()));
}
