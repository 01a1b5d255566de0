//! Tests for the scripting-host binding types.

use fusabi_tui::bindings::specs::TableSpec;
use fusabi_tui::bindings::FusabiTuiModule;

#[test]
fn bindings_test_test_table_spec_default() {
    let spec = TableSpec::default();

    assert_eq!(spec.title, None);
    assert_eq!(spec.columns.len(), 0);
    assert_eq!(spec.rows.len(), 0);
    assert!(spec.borders);
    assert!(spec.highlight);
    assert_eq!(spec.highlight_symbol, Some(">> ".to_string()));
}

#[test]
fn test_module_handle() {
    // The module handle is a plain value: construction, cloning and the
    // default all yield the same handle
    let module = FusabiTuiModule::new();
    let copy = module.clone();
    assert_eq!(module, copy);
    assert_eq!(FusabiTuiModule::default(), module);
}
