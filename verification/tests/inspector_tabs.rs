use framecomp::inspector::{InspectorTab, InspectorTabs, SpreadsheetViews};

#[test]
fn fresh_inspector_opens_properties_over_vertices() {
    let tabs = InspectorTabs::new();
    assert_eq!(tabs.current_view, InspectorTab::Properties);
    assert_eq!(tabs.spreadsheet.current_view, SpreadsheetViews::Vertices);
    let by_default = InspectorTabs::default();
    assert_eq!(by_default.current_view, InspectorTab::Properties);
}

#[test]
fn switching_tabs_and_tables() {
    let mut tabs = InspectorTabs::new();
    tabs.set_view(InspectorTab::Spreadsheet);
    assert_eq!(tabs.current_view, InspectorTab::Spreadsheet);
    tabs.spreadsheet.set_view(SpreadsheetViews::Faces);
    assert_eq!(tabs.spreadsheet.current_view, SpreadsheetViews::Faces);
    tabs.spreadsheet.set_view(SpreadsheetViews::Halfedges);
    assert_eq!(tabs.spreadsheet.current_view, SpreadsheetViews::Halfedges);
    tabs.set_view(InspectorTab::Properties);
    assert_eq!(tabs.current_view, InspectorTab::Properties);
    // the spreadsheet keeps its table across tab switches
    assert_eq!(tabs.spreadsheet.current_view, SpreadsheetViews::Halfedges);
}
