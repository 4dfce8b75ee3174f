use vstd::prelude::*;

verus! {

/// Whether opening a window disables the main window while it is open.
#[derive(Clone, Copy, Debug, PartialEq, Eq, Structural)]
pub enum WindowKind {
    /// A routed window that coexists with an interactive main window.
    Plain,
    /// A child window that disables the main window while it is open.
    Dialog,
}

} // verus!

verus! {

/// Everything needed to build one window: its identity, what it shows and
/// its size in logical units.
pub struct WindowInfo {
    /// Unique among the windows that are open at the same time.
    pub label: String,
    pub title: String,
    /// The view that the rendering layer shows in the window.
    pub route: String,
    pub width: u32,
    pub height: u32,
}

/// A window to open, and whether it is opened as a dialog.
pub struct WindowRequest {
    pub info: WindowInfo,
    pub kind: WindowKind,
}

impl WindowRequest {
    /// The request has exactly these fields.
    pub open spec fn is(
        &self,
        label: Seq<char>,
        title: Seq<char>,
        route: Seq<char>,
        width: u32,
        height: u32,
        kind: WindowKind,
    ) -> bool {
        &&& self.info.label@ == label
        &&& self.info.title@ == title
        &&& self.info.route@ == route
        &&& self.info.width == width
        &&& self.info.height == height
        &&& self.kind == kind
    }
}

fn request(
    label: &str,
    title: &str,
    route: &str,
    width: u32,
    height: u32,
    kind: WindowKind,
) -> (r: WindowRequest)
    ensures
        r.is(label@, title@, route@, width, height, kind),
{
    WindowRequest {
        info: WindowInfo {
            label: label.to_owned(),
            title: title.to_owned(),
            route: route.to_owned(),
            width,
            height,
        },
        kind,
    }
}

/// The dialog in which a column is added.
pub fn add_column() -> (r: WindowRequest)
    ensures
        r.is("addColumn"@, "Add Column"@, "addColumn"@, 400, 400, WindowKind::Dialog),
{
    request("addColumn", "Add Column", "addColumn", 400, 400, WindowKind::Dialog)
}

/// The dialog in which a column is edited.
pub fn edit_column() -> (r: WindowRequest)
    ensures
        r.is("editColumn"@, "Edit Column"@, "editColumn"@, 400, 400, WindowKind::Dialog),
{
    request("editColumn", "Edit Column", "editColumn", 400, 400, WindowKind::Dialog)
}

/// The dialog in which a column is deleted.
pub fn delete_column() -> (r: WindowRequest)
    ensures
        r.is("deleteColumn"@, "Delete Column"@, "deleteColumn"@, 300, 220, WindowKind::Dialog),
{
    request("deleteColumn", "Delete Column", "deleteColumn", 300, 220, WindowKind::Dialog)
}

/// The dialog in which a chart is added.
pub fn add_chart() -> (r: WindowRequest)
    ensures
        r.is("addChart"@, "Add Chart"@, "addChart"@, 400, 400, WindowKind::Dialog),
{
    request("addChart", "Add Chart", "addChart", 400, 400, WindowKind::Dialog)
}

/// The label of the window that shows the chart with this key.
pub open spec fn view_chart_label(key: Seq<char>) -> Seq<char> {
    "viewChart"@ + key
}

/// The title of the window that shows the chart with this display name.
pub open spec fn view_chart_title(name: Seq<char>) -> Seq<char> {
    "View Chart "@ + name
}

/// The route of the chart view, with the key and the name as query parameters.
pub open spec fn view_chart_route(key: Seq<char>, name: Seq<char>) -> Seq<char> {
    "viewChart?key="@ + key + "&name="@ + name
}

/// A plain window that shows one chart. Each key gives a window of its own,
/// so several charts can be viewed at once.
pub fn view_chart(key: &str, name: &str) -> (r: WindowRequest)
    ensures
        r.is(view_chart_label(key@), view_chart_title(name@), view_chart_route(key@, name@), 400,
            300, WindowKind::Plain),
{
    let mut label = "viewChart".to_owned();
    label.append(key);
    let mut title = "View Chart ".to_owned();
    title.append(name);
    let mut route = "viewChart?key=".to_owned();
    route.append(key);
    route.append("&name=");
    route.append(name);
    WindowRequest {
        info: WindowInfo { label, title, route, width: 400, height: 300 },
        kind: WindowKind::Plain,
    }
}

/// Distinct chart keys give distinct window labels, so two chart windows
/// never stand for the same window.
pub proof fn lemma_view_chart_labels_distinct(key1: Seq<char>, key2: Seq<char>)
    requires
        key1 != key2,
    ensures
        view_chart_label(key1) != view_chart_label(key2),
{
    reveal_strlit("viewChart");
    if view_chart_label(key1) == view_chart_label(key2) {
        assert(key1 =~= view_chart_label(key1).subrange(9, view_chart_label(key1).len() as int));
        assert(key2 =~= view_chart_label(key2).subrange(9, view_chart_label(key2).len() as int));
    }
}

} // verus!
