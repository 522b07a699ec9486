//! State of the inspector panel's tabs.
//!
//! The inspector shows either a properties view of the selected node or a
//! spreadsheet view over the active mesh's vertices, half-edges or faces.
//! Which view is open is plain state; drawing the widgets is boundary
//! work around the library.

use vstd::prelude::*;

verus! {

/// The two tabs of the inspector panel.
#[derive(Clone, Copy, PartialEq, Eq, Structural, Debug)]
pub enum InspectorTab {
    Properties,
    Spreadsheet,
}

/// The three tables the spreadsheet tab can show.
#[derive(Clone, Copy, PartialEq, Eq, Structural, Debug)]
pub enum SpreadsheetViews {
    Vertices,
    Halfedges,
    Faces,
}

/// State of the properties tab. It holds nothing: the selection it shows
/// lives with the node graph.
#[derive(Clone, Copy, PartialEq, Eq, Structural, Debug)]
pub struct PropertiesTab {}

/// State of the spreadsheet tab: which table is shown.
#[derive(Clone, Copy, PartialEq, Eq, Structural, Debug)]
pub struct SpreadsheetTab {
    pub current_view: SpreadsheetViews,
}

impl SpreadsheetTab {
    /// Shows the given table.
    pub fn set_view(&mut self, view: SpreadsheetViews)
        ensures
            final(self).current_view == view,
    {
        self.current_view = view;
    }
}

/// State of the inspector panel: the open tab and each tab's own state.
#[derive(Clone, Copy, PartialEq, Eq, Structural, Debug)]
pub struct InspectorTabs {
    pub current_view: InspectorTab,
    pub properties: PropertiesTab,
    pub spreadsheet: SpreadsheetTab,
}

impl InspectorTabs {
    /// A fresh inspector: the properties tab open, the spreadsheet on
    /// vertices.
    pub fn new() -> (r: InspectorTabs)
        ensures
            r.current_view == InspectorTab::Properties,
            r.spreadsheet.current_view == SpreadsheetViews::Vertices,
    {
        InspectorTabs {
            current_view: InspectorTab::Properties,
            properties: PropertiesTab {  },
            spreadsheet: SpreadsheetTab { current_view: SpreadsheetViews::Vertices },
        }
    }

    /// Opens the given tab.
    pub fn set_view(&mut self, view: InspectorTab)
        ensures
            final(self).current_view == view,
            final(self).spreadsheet == old(self).spreadsheet,
    {
        self.current_view = view;
    }
}

impl Default for InspectorTabs {
    fn default() -> (r: InspectorTabs)
        ensures
            r.current_view == InspectorTab::Properties,
            r.spreadsheet.current_view == SpreadsheetViews::Vertices,
    {
        InspectorTabs::new()
    }
}

} // verus!
