use ettac::config::Config;

#[test]
fn script_defaults_to_deploy_lua() {
    let config = Config::new(vec!["prod".to_string()], None);
    assert_eq!(config.script, "deploy.lua");
    assert_eq!(config.hosts, vec!["prod".to_string()]);
}

#[test]
fn named_script_is_kept() {
    let config = Config::new(vec![], Some("other.lua".to_string()));
    assert_eq!(config.script, "other.lua");
}
