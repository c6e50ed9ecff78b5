use etcd_session::config::{AppConfig, ColorTheme, Endpoint, Profile};

fn profile(name: &str, locked: Option<bool>) -> Profile {
    Profile {
        name: name.to_string(),
        endpoints: vec![Endpoint { host: "localhost".to_string(), port: 2379 }],
        user: None,
        timeout_ms: None,
        connect_timeout_ms: None,
        locked,
    }
}

fn config(current: Option<&str>, profiles: Vec<Profile>) -> AppConfig {
    AppConfig {
        profiles,
        current_profile: current.map(|s| s.to_string()),
        color_theme: ColorTheme::Dark,
    }
}

#[test]
fn default_config_is_empty() {
    let c = AppConfig::default();
    assert!(c.profiles.is_empty());
    assert!(c.current_profile.is_none());
    assert_eq!(c.color_theme, ColorTheme::System);
}

#[test]
fn current_profile_is_found_by_name() {
    let c = config(Some("b"), vec![profile("a", None), profile("b", Some(true))]);
    let p = c.get_current_profile().unwrap();
    assert_eq!(p.name, "b");
    assert_eq!(p.locked, Some(true));
}

#[test]
fn current_profile_first_of_duplicates() {
    let c = config(Some("a"), vec![profile("a", Some(false)), profile("a", Some(true))]);
    assert_eq!(c.get_current_profile().unwrap().locked, Some(false));
}

#[test]
fn current_profile_absent_or_dangling() {
    let c = config(None, vec![profile("a", None)]);
    assert!(c.get_current_profile().is_none());
    let c = config(Some("zzz"), vec![profile("a", None)]);
    assert!(c.get_current_profile().is_none());
    let c = config(Some("a"), vec![]);
    assert!(c.get_current_profile().is_none());
}

#[test]
fn unlocked_check_errors() {
    let c = config(None, vec![profile("a", None)]);
    assert_eq!(c.ensure_current_profile_unlocked(), Err("No current profile set".to_string()));
    let c = config(Some("missing"), vec![profile("a", None)]);
    assert_eq!(c.ensure_current_profile_unlocked(), Err("No current profile set".to_string()));
    let c = config(Some("a"), vec![profile("a", Some(true))]);
    assert_eq!(c.ensure_current_profile_unlocked(), Err("Current profile is locked".to_string()));
}

#[test]
fn unlocked_check_passes() {
    let c = config(Some("a"), vec![profile("a", None)]);
    assert_eq!(c.ensure_current_profile_unlocked(), Ok(()));
    let c = config(Some("a"), vec![profile("a", Some(false))]);
    assert_eq!(c.ensure_current_profile_unlocked(), Ok(()));
}
