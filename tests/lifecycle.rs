use trait_editor::document::TraitDocument;
use trait_editor::error::{DocumentFailure, PluginError};
use trait_editor::instance::TraitEditorWrapper;
use trait_editor::plugin::{FileStructure, TraitEditorPlugin};
use trait_editor::registry::InstanceRegistry;
use trait_editor::resolver::resolve;

fn panel_for(path: String) -> String {
    path
}

fn open_trait(plugin: &mut TraitEditorPlugin<String>, path: &str, is_dir: bool) -> (u64, TraitEditorWrapper) {
    plugin
        .create_editor("trait-editor", path.to_string(), is_dir, panel_for)
        .expect("the trait editor is provided")
}

#[test]
fn resolve_directory_appends_marker_file() {
    assert_eq!(resolve(&"project/Shape.trait".to_string(), true), "project/Shape.trait/trait.json");
    assert_eq!(resolve(&"project/Shape.trait/".to_string(), true), "project/Shape.trait/trait.json");
    assert_eq!(resolve(&"".to_string(), true), "trait.json");
}

#[test]
fn resolve_file_path_is_unchanged() {
    assert_eq!(resolve(&"project/Shape.trait/trait.json".to_string(), false), "project/Shape.trait/trait.json");
    assert_eq!(resolve(&"notes.txt".to_string(), false), "notes.txt");
}

#[test]
fn ids_increase_across_close_and_unload() {
    let mut plugin: TraitEditorPlugin<String> = TraitEditorPlugin::new();
    plugin.on_load();
    let (a, _) = open_trait(&mut plugin, "a.trait", true);
    let (b, _) = open_trait(&mut plugin, "b.trait", true);
    assert!(plugin.close_editor(a).is_some());
    assert!(plugin.close_editor(a).is_none());
    let (c, _) = open_trait(&mut plugin, "c.trait", true);
    assert_eq!(plugin.on_unload(), 2);
    plugin.on_load();
    assert_eq!(plugin.upcoming_id(), 3);
    let (d, _) = open_trait(&mut plugin, "d.trait", true);
    assert_eq!((a, b, c, d), (0, 1, 2, 3));
}

#[test]
fn unload_destroys_every_live_editor() {
    let mut plugin: TraitEditorPlugin<String> = TraitEditorPlugin::default();
    plugin.on_load();
    assert_eq!(plugin.on_unload(), 0);
    plugin.on_load();
    for name in ["x.trait", "y.trait", "z.trait"] {
        open_trait(&mut plugin, name, true);
    }
    assert_eq!(plugin.live_count(), 3);
    assert_eq!(plugin.on_unload(), 3);
    assert_eq!(plugin.live_count(), 0);
}

#[test]
fn unknown_editor_is_refused_without_change() {
    let mut plugin: TraitEditorPlugin<String> = TraitEditorPlugin::new();
    open_trait(&mut plugin, "a.trait", true);
    let r = plugin.create_editor("blueprint-editor", "a.trait".to_string(), true, panel_for);
    match r {
        Err(PluginError::EditorNotFound { editor_id }) => assert_eq!(editor_id, "blueprint-editor"),
        _ => panic!("expected EditorNotFound"),
    }
    assert_eq!(plugin.live_count(), 1);
    let (next, _) = open_trait(&mut plugin, "b.trait", true);
    assert_eq!(next, 1);
}

#[test]
fn created_editor_records_paths_and_panel() {
    let mut plugin: TraitEditorPlugin<String> = TraitEditorPlugin::new();
    let (id, w) = open_trait(&mut plugin, "lib/Drawable.trait", true);
    assert_eq!(w.file_path(), "lib/Drawable.trait");
    assert_eq!(w.canonical_path(), "lib/Drawable.trait/trait.json");
    assert_eq!(plugin.panel(id).map(|p| p.as_str()), Some("lib/Drawable.trait/trait.json"));
    assert!(plugin.panel(id + 1).is_none());
    let record = plugin.close_editor(id).expect("live");
    assert_eq!(record.file_path, "lib/Drawable.trait");
    assert_eq!(record.canonical_path, "lib/Drawable.trait/trait.json");
    assert!(plugin.panel(id).is_none());
}

#[test]
fn default_document_survives_save_and_reload() {
    let mut w = TraitEditorWrapper::open("Shape.trait".to_string(), true);
    let written = w.document().duplicate();
    assert!(w.save(Ok(())).is_ok());
    assert!(w.reload(Ok(written)).is_ok());
    assert_eq!(w.document().name, "NewTrait");
    assert!(w.document().methods.is_empty());
    assert!(w.document().same_content(&TraitDocument::new_default()));
    assert!(!w.is_dirty());
}

#[test]
fn two_editors_on_one_path_are_independent() {
    let mut plugin: TraitEditorPlugin<String> = TraitEditorPlugin::new();
    let (id1, mut w1) = open_trait(&mut plugin, "Shape.trait", true);
    let (id2, mut w2) = open_trait(&mut plugin, "Shape.trait", true);
    assert_ne!(id1, id2);
    w1.set_name("Area".to_string());
    w1.add_method("fn area(&self) -> f64".to_string());
    assert_eq!(w2.document().name, "NewTrait");
    assert!(w2.document().methods.is_empty());
    let written = w1.document().duplicate();
    assert!(w1.save(Ok(())).is_ok());
    assert!(w2.reload(Ok(written)).is_ok());
    assert_eq!(w2.document().name, "Area");
    assert_eq!(w2.document().methods, vec!["fn area(&self) -> f64".to_string()]);
}

#[test]
fn dirty_state_follows_edits_and_saves() {
    let mut w = TraitEditorWrapper::open("Shape.trait/trait.json".to_string(), false);
    assert!(w.is_dirty());
    assert!(w.save(Ok(())).is_ok());
    assert!(!w.is_dirty());
    w.add_method("fn name(&self) -> String".to_string());
    assert!(w.is_dirty());
    assert!(w.remove_method(0));
    assert!(!w.is_dirty());
    assert!(!w.remove_method(0));
    w.set_name("Named".to_string());
    assert!(w.is_dirty());
}

#[test]
fn failed_save_reports_io_error_with_path() {
    let mut w = TraitEditorWrapper::open("Shape.trait".to_string(), true);
    match w.save(Err(DocumentFailure::Io)) {
        Err(PluginError::Io { path }) => assert_eq!(path, "Shape.trait/trait.json"),
        _ => panic!("expected Io"),
    }
    assert!(w.is_dirty());
}

#[test]
fn malformed_reload_keeps_edits() {
    let mut w = TraitEditorWrapper::open("Shape.trait".to_string(), true);
    w.set_name("Edited".to_string());
    match w.reload(Err(DocumentFailure::Malformed)) {
        Err(PluginError::Malformed { path }) => assert_eq!(path, "Shape.trait/trait.json"),
        _ => panic!("expected Malformed"),
    }
    assert_eq!(w.document().name, "Edited");
    match w.reload(Err(DocumentFailure::Io)) {
        Err(PluginError::Io { path }) => assert_eq!(path, "Shape.trait/trait.json"),
        _ => panic!("expected Io"),
    }
}

#[test]
fn declarations_describe_trait_file_type_and_editor() {
    let plugin: TraitEditorPlugin<String> = TraitEditorPlugin::new();
    let meta = plugin.metadata();
    assert_eq!(meta.id, "com.pulsar.trait-editor");
    assert_eq!(meta.version, "0.1.0");
    let types = plugin.file_types();
    assert_eq!(types.len(), 1);
    assert_eq!(types[0].id, "trait");
    assert_eq!(types[0].extension, "trait");
    assert_eq!(types[0].categories, vec!["Types".to_string()]);
    let FileStructure::FolderBased { marker_file, template_structure } = &types[0].structure;
    assert_eq!(marker_file, "trait.json");
    assert!(template_structure.is_empty());
    assert_eq!(types[0].default_content.name, "NewTrait");
    let editors = plugin.editors();
    assert_eq!(editors.len(), 1);
    assert_eq!(editors[0].id, "trait-editor");
    assert_eq!(editors[0].supported_file_types, vec!["trait".to_string()]);
}

#[test]
fn registry_remove_unknown_id_is_a_no_op() {
    let mut reg: InstanceRegistry<&str> = InstanceRegistry::new();
    let a = reg.create(|| "first");
    let b = reg.create(|| "second");
    assert_eq!((a, b), (0, 1));
    assert_eq!(reg.remove(7), None);
    assert_eq!(reg.remove(a), Some("first"));
    assert_eq!(reg.get(b), Some(&"second"));
    assert_eq!(reg.len(), 1);
    assert_eq!(reg.clear(), 1);
    assert_eq!(reg.create(|| "third"), 2);
}
