use terminal_plugin::plugin::{
    editor_id, toggle_terminal, ButtonAction, PluginError, StatusbarPosition,
    TerminalWindowPlugin,
};
use terminal_plugin::text::same_text;
use terminal_plugin::{TerminalEditorWrapper, TerminalPlugin};

#[test]
fn metadata_names_the_plugin() {
    let m = TerminalPlugin::new().metadata();
    assert_eq!(m.id, "com.pulsar.terminal");
    assert_eq!(m.name, "Terminal");
    assert_eq!(m.version, "0.1.0");
    assert_eq!(m.author, "Pulsar");
    assert_eq!(m.description, "Integrated terminal emulator");
    assert_eq!(TerminalWindowPlugin {}.metadata(), m);
}

#[test]
fn statusbar_button_opens_the_editor() {
    let buttons = TerminalPlugin::new().statusbar_buttons();
    assert_eq!(buttons.len(), 1);
    assert_eq!(buttons[0].id, "terminal.open");
    assert_eq!(buttons[0].tooltip, "Open Terminal");
    assert_eq!(buttons[0].position, StatusbarPosition::Left);
    assert_eq!(buttons[0].priority, 50);
    assert_eq!(buttons[0].action, ButtonAction::OpenEditor("terminal-editor"));
}

#[test]
fn editors_lists_the_terminal_editor() {
    let p = TerminalPlugin::default();
    let editors = p.editors();
    assert_eq!(editors.len(), 1);
    assert_eq!(editors[0].id, "terminal-editor");
    assert_eq!(editors[0].display_name, "Terminal");
    assert!(editors[0].supported_file_types.is_empty());
    assert!(p.file_types().is_empty());
    assert_eq!(editor_id(), "terminal-editor");
}

#[test]
fn create_editor_numbers_the_instances() {
    let mut p = TerminalPlugin::new();
    assert_eq!(p.create_editor("terminal-editor", true), Ok(0));
    assert_eq!(p.create_editor("terminal-editor", true), Ok(1));
    assert_eq!(p.create_editor("terminal-editor", true), Ok(2));
    assert_eq!(p.instance_count(), 3);
}

#[test]
fn create_editor_refuses_other_names() {
    let mut p = TerminalPlugin::new();
    assert_eq!(p.create_editor("text-editor", true), Err(PluginError::EditorNotFound));
    assert_eq!(p.create_editor("", true), Err(PluginError::EditorNotFound));
    assert_eq!(p.create_editor("terminal-editor ", true), Err(PluginError::EditorNotFound));
    assert_eq!(p.create_editor("terminal-editoR", true), Err(PluginError::EditorNotFound));
    assert_eq!(p.instance_count(), 0);
    assert_eq!(p.create_editor("terminal-editor", true), Ok(0));
}

#[test]
fn unload_forgets_the_instances_but_not_the_numbers() {
    let mut p = TerminalPlugin::new();
    p.on_load();
    p.create_editor("terminal-editor", true).unwrap();
    p.create_editor("terminal-editor", true).unwrap();
    assert_eq!(p.on_unload(), 2);
    assert_eq!(p.instance_count(), 0);
    assert_eq!(p.on_unload(), 0);
    assert_eq!(p.create_editor("terminal-editor", true), Ok(2));
}

#[test]
fn same_text_compares_characters() {
    assert!(same_text("", ""));
    assert!(same_text("añb", "añb"));
    assert!(!same_text("ab", "abc"));
    assert!(!same_text("abc", "abd"));
    assert!(!same_text("é", "e"));
}

#[test]
fn window_plugin_toggles_a_window() {
    let p = TerminalWindowPlugin {};
    let buttons = p.statusbar_buttons();
    assert_eq!(buttons.len(), 1);
    assert_eq!(buttons[0].id, "terminal.toggle");
    assert_eq!(buttons[0].tooltip, "Toggle Terminal");
    assert_eq!(buttons[0].position, StatusbarPosition::Left);
    assert_eq!(buttons[0].priority, 50);
    assert_eq!(buttons[0].action, ButtonAction::Custom);
    assert_eq!(p.editors().len(), 0);
    assert_eq!(p.create_editor("terminal-editor"), Err(PluginError::EditorsUnsupported));
    let w = toggle_terminal();
    assert_eq!((w.x, w.y, w.width, w.height), (150, 150, 1000, 700));
    assert_eq!((w.min_width, w.min_height), (600, 400));
    assert!(w.resizable && w.transparent_titlebar && w.client_decorations);
}

#[test]
fn editor_wrapper_has_no_file_and_is_never_dirty() {
    let mut p = TerminalPlugin::new();
    let id = p.create_editor("terminal-editor", true).unwrap();
    let mut w = TerminalEditorWrapper::new(id);
    assert_eq!(w.instance(), 0);
    assert_eq!(w.file_path(), "");
    assert!(!w.is_dirty());
    assert_eq!(w.save(), Ok(()));
    assert_eq!(w.reload(), Ok(()));
    assert!(!w.is_dirty());
    assert_eq!(w, TerminalEditorWrapper::new(0));
}

#[test]
fn create_editor_stops_when_the_numbers_run_out() {
    let mut p = TerminalPlugin::resuming(usize::MAX - 1);
    assert_eq!(p.create_editor("terminal-editor", true), Ok(usize::MAX - 1));
    assert_eq!(p.create_editor("terminal-editor", true), Err(PluginError::InstancesExhausted));
    assert_eq!(p.create_editor("other", false), Err(PluginError::EditorNotFound));
    assert_eq!(p.instance_count(), 1);
    assert_eq!(p.on_unload(), 1);
    assert_eq!(p.create_editor("terminal-editor", true), Err(PluginError::InstancesExhausted));
}

#[test]
fn a_terminal_that_did_not_start_leaves_no_trace() {
    let mut p = TerminalPlugin::new();
    assert_eq!(p.create_editor("terminal-editor", false), Err(PluginError::StartFailed));
    assert_eq!(p.instance_count(), 0);
    assert_eq!(p.editor(0), None);
    assert_eq!(p.create_editor("terminal-editor", true), Ok(0));
    assert_eq!(p.create_editor("terminal-editor", false), Err(PluginError::StartFailed));
    assert_eq!(p.create_editor("terminal-editor", true), Ok(1));
    assert_eq!(p.instance_count(), 2);
    assert_eq!(p.create_editor("vim", false), Err(PluginError::EditorNotFound));
}

#[test]
fn check_editor_says_what_create_editor_would() {
    let p = TerminalPlugin::new();
    assert_eq!(p.check_editor("terminal-editor"), Ok(()));
    assert_eq!(p.check_editor("vim"), Err(PluginError::EditorNotFound));
    let full = TerminalPlugin::resuming(usize::MAX);
    assert_eq!(full.check_editor("terminal-editor"), Err(PluginError::InstancesExhausted));
    assert_eq!(full.check_editor("vim"), Err(PluginError::EditorNotFound));
    let mut full = full;
    assert_eq!(
        full.create_editor("terminal-editor", false),
        Err(PluginError::InstancesExhausted)
    );
}

#[test]
fn register_holds_the_wrapper_of_each_instance() {
    let mut p = TerminalPlugin::new();
    let a = p.create_editor("terminal-editor", true).unwrap();
    let b = p.create_editor("terminal-editor", true).unwrap();
    assert_eq!(p.editor(a), Some(TerminalEditorWrapper::new(0)));
    assert_eq!(p.editor(b).unwrap().instance(), 1);
    assert_eq!(p.editor(2), None);
    p.on_unload();
    assert_eq!(p.editor(a), None);
}
