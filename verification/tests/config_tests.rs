use demoji::config::{
    global_config_choice, project_search_step, Config, GlobalConfigFile, SearchStep,
};
use demoji::engine::replacer::ReplacementMode;

#[test]
fn test_default_config() {
    let config = Config::default();
    assert_eq!(config.mode, ReplacementMode::Smart);
    assert_eq!(config.placeholder, "[EMOJI]");
    assert!(config.extensions.is_empty());
    assert!(!config.ignore_patterns.is_empty());
    assert!(!config.backup);
    assert!(!config.dry_run);
}

#[test]
fn test_new_config() {
    let config = Config::new();
    assert_eq!(config.mode, ReplacementMode::Smart);
}

#[test]
fn test_merge_configs() {
    let config1 = Config {
        mode: ReplacementMode::Remove,
        placeholder: "[EMOJI]".to_string(),
        extensions: vec!["rs".to_string()],
        ignore_patterns: vec!["*.bak".to_string()],
        backup: false,
        dry_run: false,
    };

    let config2 = Config {
        mode: ReplacementMode::Replace,
        placeholder: "[CUSTOM]".to_string(),
        extensions: vec!["py".to_string()],
        ignore_patterns: vec!["*.tmp".to_string()],
        backup: true,
        dry_run: true,
    };

    let merged = config1.merge(config2);
    assert_eq!(merged.mode, ReplacementMode::Replace);
    assert_eq!(merged.placeholder, "[CUSTOM]".to_string());
    assert_eq!(merged.extensions, vec!["py"]);
    assert!(merged.backup);
    assert!(merged.dry_run);
}

#[test]
fn test_generate_template() {
    let template = Config::generate_template();
    assert!(template.contains("mode = \"smart\""));
    assert!(template.contains("placeholder = \"[EMOJI]\""));
    assert!(template.contains("extensions = []"));
    assert!(template.contains("ignore_patterns = []"));
}

#[test]
fn template_contains_comments() {
    let content = Config::generate_template();
    assert!(content.contains("# demoji configuration file"));
    assert!(content.contains("# Replacement mode"));
    assert!(content.contains("# Custom placeholder"));
    assert!(content.contains("# File extensions"));
    assert!(content.contains("# Additional patterns"));
}

#[test]
fn template_has_all_options() {
    let content = Config::generate_template();
    assert!(content.contains("mode = \"smart\""));
    assert!(content.contains("placeholder = \"[EMOJI]\""));
    assert!(content.contains("extensions = []"));
    assert!(content.contains("ignore_patterns = []"));
    assert!(content.contains("backup = false"));
    assert!(content.contains("dry_run = false"));
}

#[test]
fn layers_apply_global_then_project() {
    let global = Config {
        mode: ReplacementMode::Remove,
        placeholder: "[G]".to_string(),
        extensions: vec!["rs".to_string()],
        ignore_patterns: vec!["global".to_string()],
        backup: true,
        dry_run: false,
    };
    let project = Config {
        mode: ReplacementMode::Placeholder,
        placeholder: "[EMOJI]".to_string(),
        extensions: vec![],
        ignore_patterns: vec!["project".to_string()],
        backup: false,
        dry_run: true,
    };
    let config = Config::from_layers(Some(global), Some(project));
    assert_eq!(config.mode, ReplacementMode::Placeholder);
    // the project keeps the default placeholder, so the global one stays
    assert_eq!(config.placeholder, "[G]");
    assert_eq!(config.extensions, vec!["rs".to_string()]);
    let n = config.ignore_patterns.len();
    assert_eq!(config.ignore_patterns[n - 2], "global");
    assert_eq!(config.ignore_patterns[n - 1], "project");
    assert!(!config.backup);
    assert!(config.dry_run);
    let none = Config::from_layers(None, None);
    assert_eq!(none.mode, ReplacementMode::Smart);
}

#[test]
fn global_config_prefers_xdg_location() {
    assert_eq!(global_config_choice(true, true), Some(GlobalConfigFile::Xdg));
    assert_eq!(global_config_choice(false, true), Some(GlobalConfigFile::Legacy));
    assert_eq!(global_config_choice(false, false), None);
}

#[test]
fn project_search_goes_up_until_found() {
    assert_eq!(project_search_step(true, true), SearchStep::Load);
    assert_eq!(project_search_step(false, true), SearchStep::Ascend);
    assert_eq!(project_search_step(false, false), SearchStep::Stop);
}
