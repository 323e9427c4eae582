use typey_pipe::client::{ClientInfo, OnForceClose};
use typey_pipe::layout::{FloatingPaneLayout, PaneGeom, RunPluginOrAlias, TiledPaneLayout};
use typey_pipe::plugins::{PluginAliases, PluginTag, PluginsConfigError};
use typey_pipe::session_serialization::{
    extract_command_and_args, extract_edit_and_line_number, extract_plugin_and_config,
    serialize_session_layout,
};
use std::collections::BTreeMap;

#[test]
fn test_serialize_empty_session() {
    let result = serialize_session_layout(None, None, vec![], vec![], vec![], 0);
    assert!(result.is_ok());
}

#[test]
fn test_client_info_session_name() {
    let client_info = ClientInfo::New("test_session".to_string());
    assert_eq!(client_info.get_session_name(), "test_session");
}

#[test]
fn serialization_helpers_give_fixed_answers() {
    let (cmd, args) = extract_command_and_args("vim foo");
    assert_eq!(cmd, "sh");
    assert!(args.is_empty());
    assert!(extract_edit_and_line_number("x").is_none());
    assert!(extract_plugin_and_config("x").is_none());
}

#[test]
fn plugin_from_url_keeps_location() {
    match RunPluginOrAlias::from_url("file:/tmp/p.wasm", None, None) {
        Ok(RunPluginOrAlias::RunPlugin(p)) => {
            assert_eq!(p.location_string(), "file:/tmp/p.wasm");
            assert!(p.configuration.is_empty());
        }
        _ => panic!("expected a plugin"),
    }
}

#[test]
fn tiled_layout_answers() {
    let t = TiledPaneLayout::new();
    assert_eq!(t.pane_count(), 1);
    assert!(t.extract_run_instructions().is_empty());
    let geom = PaneGeom { x: 0, y: 0, rows: 10, cols: 10 };
    assert!(t.position_panes_in_space(&geom, None, false, false).unwrap().is_empty());
    let f = FloatingPaneLayout::new();
    assert!(f.run.is_none() && !f.already_running);
}

#[test]
fn plugin_alias_merge_prefers_other() {
    let mut a = BTreeMap::new();
    a.insert("x".to_string(), typey_pipe::layout::RunPlugin { location: "a".to_string(), configuration: BTreeMap::new() });
    let mut b = BTreeMap::new();
    b.insert("x".to_string(), typey_pipe::layout::RunPlugin { location: "b".to_string(), configuration: BTreeMap::new() });
    b.insert("y".to_string(), typey_pipe::layout::RunPlugin { location: "c".to_string(), configuration: BTreeMap::new() });
    let mut aliases = PluginAliases::from_data(a);
    aliases.merge(PluginAliases::from_data(b));
    assert_eq!(aliases.aliases.len(), 2);
    assert_eq!(aliases.aliases["x"].location, "b");
}

#[test]
fn plugin_texts() {
    assert_eq!(PluginTag::new("tab-bar").name(), "tab-bar");
    assert_eq!(PluginsConfigError::InvalidUrl("u".to_string()).message(), "Invalid URL: u");
    assert_eq!(PluginsConfigError::InvalidUrlScheme("s".to_string()).message(), "Invalid URL scheme: s");
    assert_eq!(PluginsConfigError::Generic("g".to_string()).message(), "g");
}

#[test]
fn force_close_names() {
    assert_eq!(OnForceClose::from_name("quit"), Ok(OnForceClose::Quit));
    assert_eq!(OnForceClose::from_name("detach"), Ok(OnForceClose::Detach));
    assert_eq!(OnForceClose::from_name("exit"), Err("exit".to_string()));
    assert_eq!(OnForceClose::default_choice(), OnForceClose::Detach);
}
