//! Integration tests: crate-level constants and module structure.

use fusabi_tui::layouts::{Constraint, Direction, Layout};
use fusabi_tui::{format_number, VERSION};

#[test]
fn integration_test_test_version_constant() {
    assert_eq!(VERSION, "0.1.0");
}

#[test]
fn lib_test_version_constant() {
    assert!(!VERSION.is_empty());
}

#[test]
fn test_module_structure() {
    // Test that core modules are accessible through their own paths
    let formatted = fusabi_tui::formatting::format_number(1500);
    assert_eq!(formatted, "1.50K");
    // And through the crate-root re-exports
    assert_eq!(format_number(1500), "1.50K");
}

#[test]
fn test_layout_builders() {
    let layout = Layout::vertical()
        .constraints(vec![Constraint::Percentage(50), Constraint::Min(10)])
        .margin(2);
    assert!(matches!(layout.direction, Direction::Vertical));
    assert_eq!(layout.constraints.len(), 2);
    assert_eq!(layout.margin, 2);

    let layout = Layout::horizontal();
    assert!(matches!(layout.direction, Direction::Horizontal));
    assert_eq!(layout.constraints.len(), 0);
    assert_eq!(layout.margin, 0);
}
