use vstd::prelude::*;

use crate::descriptor::{view_chart_label, lemma_view_chart_labels_distinct, WindowInfo, WindowKind};
use crate::error::{names_title, WindowError};

verus! {

/// The two states of the main window.
#[derive(Clone, Copy, Debug, PartialEq, Eq, Structural)]
pub enum MainState {
    Enabled,
    Disabled,
}

/// What the windowing runtime reported for one attempt to build a window.
pub enum CreationOutcome {
    /// The window was built, and for a dialog the main window was disabled.
    Built,
    /// The runtime refused to build the window.
    Refused(String),
    /// The window was built, but disabling the main window failed; closing
    /// that window later has no effect on the main window.
    ContinuationFailed(String),
    /// The worker that builds the window ended abnormally.
    Aborted(String),
}

/// What the caller must do to the main window after a window was closed.
#[derive(Clone, Copy, Debug, PartialEq, Eq, Structural)]
pub enum CloseEffect {
    EnableMainWindow,
    NoEffect,
}

/// A child window that is open, as the coordinator knows it.
pub struct OpenWindow {
    pub label: String,
    /// `Dialog` when closing it re-enables the main window.
    pub kind: WindowKind,
}

/// Keeps the state of the main window and the child windows that were
/// opened through it, and decides how each creation and each close changes
/// them.
///
/// Dialogs are not counted: several may be open at once, and closing any of
/// them re-enables the main window, as the runtime's enable and disable
/// calls do.
pub struct WindowCoordinator {
    main: MainState,
    windows: Vec<OpenWindow>,
}

/// The coordinator's state: the main window and, in order of opening, the
/// label and kind of each open child window.
pub struct CoordinatorView {
    pub main: MainState,
    pub windows: Seq<(Seq<char>, WindowKind)>,
}

impl View for WindowCoordinator {
    type V = CoordinatorView;

    closed spec fn view(&self) -> CoordinatorView {
        CoordinatorView {
            main: self.main,
            windows: self.windows@.map_values(|w: OpenWindow| (w.label@, w.kind)),
        }
    }
}

fn label_in_use(label: &str) -> (r: String)
    ensures
        r@ == label_in_use_message(label@),
{
    let mut r = "a window labelled ".to_owned();
    r.append(label);
    r.append(" is already open");
    r
}

/// Closing the window labelled "main" ends the application; closing any
/// other window does not.
pub fn exits_on_close(label: &str) -> (r: bool)
    ensures
        r == (label@ == "main"@),
{
    label.to_owned() == "main".to_owned()
}

/// Some open window carries `label`.
pub open spec fn is_open(ws: Seq<(Seq<char>, WindowKind)>, label: Seq<char>) -> bool {
    exists|i: int| 0 <= i < ws.len() && #[trigger] ws[i].0 == label
}

/// `i` is the first open window that carries `label`.
pub open spec fn first_with_label(ws: Seq<(Seq<char>, WindowKind)>, label: Seq<char>, i: int) -> bool {
    &&& 0 <= i < ws.len()
    &&& ws[i].0 == label
    &&& forall|j: int| 0 <= j < i ==> #[trigger] ws[j].0 != label
}

/// The runtime reported a window built under a label that is already open.
/// Labels are unique among open windows, so such an open is refused.
pub open spec fn clashes(s: CoordinatorView, label: Seq<char>, outcome: CreationOutcome) -> bool {
    &&& is_open(s.windows, label)
    &&& (outcome is Built || outcome is ContinuationFailed)
}

/// The cause given when a window is opened under a label that is in use.
pub open spec fn label_in_use_message(label: Seq<char>) -> Seq<char> {
    "a window labelled "@ + label + " is already open"@
}

/// The state after the runtime reported `outcome` for a window of `kind`.
pub open spec fn after_open(
    s: CoordinatorView,
    label: Seq<char>,
    kind: WindowKind,
    outcome: CreationOutcome,
) -> CoordinatorView {
    if clashes(s, label, outcome) {
        s
    } else {
        match outcome {
            CreationOutcome::Built => CoordinatorView {
                main: if kind == WindowKind::Dialog {
                    MainState::Disabled
                } else {
                    s.main
                },
                windows: s.windows.push((label, kind)),
            },
            CreationOutcome::ContinuationFailed(_) => CoordinatorView {
                main: s.main,
                windows: s.windows.push((label, WindowKind::Plain)),
            },
            _ => s,
        }
    }
}

/// `r` is the error `CreationFailed` for `title`, with cause `c`.
pub open spec fn is_creation_failed(r: Result<(), WindowError>, title: Seq<char>, c: Seq<char>) -> bool {
    match r {
        Err(WindowError::CreationFailed { title: t, cause }) => t@ == title && cause@ == c,
        _ => false,
    }
}

/// The result reported to the caller, from state `s`, for `outcome` on a
/// window labelled `label` and titled `title`.
pub open spec fn open_result(
    r: Result<(), WindowError>,
    s: CoordinatorView,
    label: Seq<char>,
    title: Seq<char>,
    outcome: CreationOutcome,
) -> bool {
    if clashes(s, label, outcome) {
        is_creation_failed(r, title, label_in_use_message(label))
    } else {
        match outcome {
            CreationOutcome::Built => r is Ok,
            CreationOutcome::Refused(c) => is_creation_failed(r, title, c@),
            CreationOutcome::ContinuationFailed(c) => is_creation_failed(r, title, c@),
            CreationOutcome::Aborted(c) => match r {
                Err(WindowError::ExecutionAborted { title: t, cause }) => t@ == title && cause@
                    == c@,
                _ => false,
            },
        }
    }
}

/// The state after the window carrying `label` was closed. Only the first
/// window with that label is removed; closing a dialog re-enables the main
/// window. Closing a label that is not open changes nothing.
pub open spec fn after_close(s: CoordinatorView, label: Seq<char>) -> CoordinatorView {
    if exists|i: int| first_with_label(s.windows, label, i) {
        let i = choose|i: int| first_with_label(s.windows, label, i);
        CoordinatorView {
            main: if s.windows[i].1 == WindowKind::Dialog {
                MainState::Enabled
            } else {
                s.main
            },
            windows: s.windows.remove(i),
        }
    } else {
        s
    }
}

/// What the caller must do to the main window when `label` is closed.
pub open spec fn close_effect(s: CoordinatorView, label: Seq<char>) -> CloseEffect {
    if exists|i: int| first_with_label(s.windows, label, i) {
        let i = choose|i: int| first_with_label(s.windows, label, i);
        if s.windows[i].1 == WindowKind::Dialog {
            CloseEffect::EnableMainWindow
        } else {
            CloseEffect::NoEffect
        }
    } else {
        CloseEffect::NoEffect
    }
}

/// At most one index is the first with a given label.
pub proof fn lemma_first_with_label_unique(
    ws: Seq<(Seq<char>, WindowKind)>,
    label: Seq<char>,
    i: int,
    j: int,
)
    requires
        first_with_label(ws, label, i),
        first_with_label(ws, label, j),
    ensures
        i == j,
{
    if i < j {
        assert(ws[i].0 != label);
    } else if j < i {
        assert(ws[j].0 != label);
    }
}

impl WindowCoordinator {
    /// A coordinator with the main window enabled and no child window open.
    pub fn new() -> (r: Self)
        ensures
            r@.main == MainState::Enabled,
            r@.windows == Seq::<(Seq<char>, WindowKind)>::empty(),
    {
        let r = WindowCoordinator { main: MainState::Enabled, windows: Vec::new() };
        assert(r@.windows =~= Seq::<(Seq<char>, WindowKind)>::empty());
        r
    }

    pub fn main_state(&self) -> (r: MainState)
        ensures
            r == self@.main,
    {
        self.main
    }

    fn record_open(&mut self, info: &WindowInfo, kind: WindowKind, outcome: CreationOutcome) -> (r:
        Result<(), WindowError>)
        ensures
            final(self)@ == after_open(old(self)@, info.label@, kind, outcome),
            open_result(r, old(self)@, info.label@, info.title@, outcome),
    {
        let ghost s = self@;
        let clash = match &outcome {
            CreationOutcome::Built => self.is_open(info.label.as_str()),
            CreationOutcome::ContinuationFailed(_) => self.is_open(info.label.as_str()),
            _ => false,
        };
        if clash {
            return Err(
                WindowError::CreationFailed { title: info.title.clone(), cause: label_in_use(&info.label) },
            );
        }
        match outcome {
            CreationOutcome::Built => {
                self.windows.push(OpenWindow { label: info.label.clone(), kind });
                if kind == WindowKind::Dialog {
                    self.main = MainState::Disabled;
                }
                assert(self@.windows =~= s.windows.push((info.label@, kind)));
                Ok(())
            },
            CreationOutcome::Refused(cause) => {
                Err(WindowError::CreationFailed { title: info.title.clone(), cause })
            },
            CreationOutcome::ContinuationFailed(cause) => {
                self.windows.push(OpenWindow { label: info.label.clone(), kind: WindowKind::Plain });
                assert(self@.windows =~= s.windows.push((info.label@, WindowKind::Plain)));
                Err(WindowError::CreationFailed { title: info.title.clone(), cause })
            },
            CreationOutcome::Aborted(cause) => {
                Err(WindowError::ExecutionAborted { title: info.title.clone(), cause })
            },
        }
    }

    /// Takes in what the runtime reported for building a plain window.
    /// A window built under a label that is already open is refused. The
    /// main window is never touched.
    pub fn open_window(&mut self, info: &WindowInfo, outcome: CreationOutcome) -> (r: Result<
        (),
        WindowError,
    >)
        ensures
            final(self)@ == after_open(old(self)@, info.label@, WindowKind::Plain, outcome),
            final(self)@.main == old(self)@.main,
            open_result(r, old(self)@, info.label@, info.title@, outcome),
    {
        self.record_open(info, WindowKind::Plain, outcome)
    }

    /// Takes in what the runtime reported for building a dialog window.
    /// A window built under a label that is already open is refused.
    /// Only a dialog that was built, with the main window disabled after it,
    /// leaves the main window disabled; on any failure it stays as it was.
    pub fn open_dialog_window(&mut self, info: &WindowInfo, outcome: CreationOutcome) -> (r:
        Result<(), WindowError>)
        ensures
            final(self)@ == after_open(old(self)@, info.label@, WindowKind::Dialog, outcome),
            r is Ok ==> final(self)@.main == MainState::Disabled,
            r is Err ==> final(self)@.main == old(self)@.main,
            open_result(r, old(self)@, info.label@, info.title@, outcome),
    {
        self.record_open(info, WindowKind::Dialog, outcome)
    }
    /// Whether a child window with this label is open.
    pub fn is_open(&self, label: &str) -> (r: bool)
        ensures
            r == is_open(self@.windows, label@),
    {
        let wanted = label.to_owned();
        let mut i: usize = 0;
        while i < self.windows.len()
            invariant
                wanted@ == label@,
                i <= self.windows.len(),
                forall|j: int| 0 <= j < i ==> #[trigger] self@.windows[j].0 != label@,
            decreases self.windows.len() - i,
        {
            if self.windows[i].label == wanted {
                assert(self@.windows[i as int].0 == label@);
                return true;
            }
            i += 1;
        }
        false
    }

    /// Takes in that the window carrying `label` was closed, and says what
    /// must happen to the main window: it is re-enabled when a dialog closes.
    pub fn close_window(&mut self, label: &str) -> (r: CloseEffect)
        ensures
            final(self)@ == after_close(old(self)@, label@),
            r == close_effect(old(self)@, label@),
    {
        let ghost s = self@;
        let wanted = label.to_owned();
        let mut i: usize = 0;
        while i < self.windows.len()
            invariant
                self@ == s,
                s == old(self)@,
                wanted@ == label@,
                i <= self.windows.len(),
                forall|j: int| 0 <= j < i ==> #[trigger] s.windows[j].0 != label@,
            decreases self.windows.len() - i,
        {
            if self.windows[i].label == wanted {
                proof {
                    assert(first_with_label(s.windows, label@, i as int));
                    let k = choose|k: int| first_with_label(s.windows, label@, k);
                    lemma_first_with_label_unique(s.windows, label@, i as int, k);
                }
                let closed = self.windows.remove(i);
                assert(self@.windows =~= s.windows.remove(i as int));
                assert(closed.kind == s.windows[i as int].1);
                if closed.kind == WindowKind::Dialog {
                    self.main = MainState::Enabled;
                    return CloseEffect::EnableMainWindow;
                }
                return CloseEffect::NoEffect;
            }
            i += 1;
        }
        CloseEffect::NoEffect
    }
}

} // verus!

verus! {

/// Closing a window that is not open changes nothing and asks for nothing.
pub proof fn lemma_close_absent(s: CoordinatorView, label: Seq<char>)
    requires
        !is_open(s.windows, label),
    ensures
        after_close(s, label) == s,
        close_effect(s, label) == CloseEffect::NoEffect,
{
    if exists|i: int| first_with_label(s.windows, label, i) {
        let i = choose|i: int| first_with_label(s.windows, label, i);
        assert(s.windows[i].0 == label);
    }
}

/// Closing the window that was opened last, under a label that no other
/// open window carries, removes just that window; the main window is
/// re-enabled when it was a dialog.
pub proof fn lemma_close_pushed(s: CoordinatorView, label: Seq<char>, kind: WindowKind)
    requires
        !is_open(s.windows, label),
    ensures
        ({
            let t = CoordinatorView { main: s.main, windows: s.windows.push((label, kind)) };
            &&& after_close(t, label) == CoordinatorView {
                main: if kind == WindowKind::Dialog {
                    MainState::Enabled
                } else {
                    s.main
                },
                windows: s.windows,
            }
            &&& close_effect(t, label) == if kind == WindowKind::Dialog {
                CloseEffect::EnableMainWindow
            } else {
                CloseEffect::NoEffect
            }
        }),
{
    let ws = s.windows.push((label, kind));
    let n = s.windows.len() as int;
    assert forall|j: int| 0 <= j < n implies #[trigger] ws[j].0 != label by {
        assert(ws[j] == s.windows[j]);
    }
    assert(first_with_label(ws, label, n));
    let k = choose|k: int| first_with_label(ws, label, k);
    lemma_first_with_label_unique(ws, label, n, k);
    assert(ws.remove(n) =~= s.windows);
}

/// Opening a plain window never changes the main window, and closing the
/// window that was opened, whatever the runtime reported, gives back the
/// state from before: a plain window never touches the main window. A
/// successful open always records a window.
pub proof fn lemma_plain_window_keeps_main_state(
    s: CoordinatorView,
    label: Seq<char>,
    title: Seq<char>,
    outcome: CreationOutcome,
    r: Result<(), WindowError>,
)
    requires
        open_result(r, s, label, title, outcome),
    ensures
        ({
            let opened = after_open(s, label, WindowKind::Plain, outcome);
            &&& opened.main == s.main
            &&& r is Ok ==> opened.windows.len() == s.windows.len() + 1
            &&& opened.windows.len() != s.windows.len() ==> after_close(opened, label) == s
            &&& opened.windows.len() != s.windows.len() ==> close_effect(opened, label)
                == CloseEffect::NoEffect
        }),
{
    if !clashes(s, label, outcome) {
        match outcome {
            CreationOutcome::Built => lemma_close_pushed(s, label, WindowKind::Plain),
            CreationOutcome::ContinuationFailed(_) => lemma_close_pushed(
                s,
                label,
                WindowKind::Plain,
            ),
            _ => {},
        }
    }
}

/// From an enabled main window, opening a dialog disables it exactly when
/// the open succeeds; on every failure the main window stays as it was.
pub proof fn lemma_dialog_disables_iff_built(
    s: CoordinatorView,
    label: Seq<char>,
    title: Seq<char>,
    outcome: CreationOutcome,
    r: Result<(), WindowError>,
)
    requires
        open_result(r, s, label, title, outcome),
    ensures
        s.main == MainState::Enabled ==> ((after_open(s, label, WindowKind::Dialog, outcome).main
            == MainState::Disabled) <==> r is Ok),
        r is Err ==> after_open(s, label, WindowKind::Dialog, outcome).main == s.main,
{
}

/// Closing a dialog that was opened successfully re-enables the main window,
/// and does so once: closing the same label again has no further effect.
pub proof fn lemma_dialog_close_enables_once(
    s: CoordinatorView,
    label: Seq<char>,
    title: Seq<char>,
    outcome: CreationOutcome,
    r: Result<(), WindowError>,
)
    requires
        open_result(r, s, label, title, outcome),
        r is Ok,
    ensures
        ({
            let opened = after_open(s, label, WindowKind::Dialog, outcome);
            let closed = after_close(opened, label);
            &&& opened.main == MainState::Disabled
            &&& close_effect(opened, label) == CloseEffect::EnableMainWindow
            &&& closed.main == MainState::Enabled
            &&& closed.windows == s.windows
            &&& close_effect(closed, label) == CloseEffect::NoEffect
            &&& after_close(closed, label) == closed
        }),
{
    assert(outcome == CreationOutcome::Built);
    lemma_close_pushed(s, label, WindowKind::Dialog);
    let closed = after_close(after_open(s, label, WindowKind::Dialog, outcome), label);
    lemma_close_absent(closed, label);
}

/// Two chart windows with distinct keys that were both opened successfully
/// each close on their own, in either order, without touching the other or
/// the main window.
pub proof fn lemma_chart_windows_close_independently(
    s: CoordinatorView,
    key1: Seq<char>,
    key2: Seq<char>,
    title1: Seq<char>,
    title2: Seq<char>,
    outcome1: CreationOutcome,
    outcome2: CreationOutcome,
    r1: Result<(), WindowError>,
    r2: Result<(), WindowError>,
)
    requires
        key1 != key2,
        open_result(r1, s, view_chart_label(key1), title1, outcome1),
        r1 is Ok,
        open_result(
            r2,
            after_open(s, view_chart_label(key1), WindowKind::Plain, outcome1),
            view_chart_label(key2),
            title2,
            outcome2,
        ),
        r2 is Ok,
    ensures
        ({
            let l1 = view_chart_label(key1);
            let l2 = view_chart_label(key2);
            let both = after_open(
                after_open(s, l1, WindowKind::Plain, outcome1),
                l2,
                WindowKind::Plain,
                outcome2,
            );
            &&& is_open(both.windows, l1) && is_open(both.windows, l2)
            &&& both.main == s.main
            &&& close_effect(both, l1) == CloseEffect::NoEffect
            &&& close_effect(both, l2) == CloseEffect::NoEffect
            &&& is_open(after_close(both, l1).windows, l2)
            &&& !is_open(after_close(both, l1).windows, l1)
            &&& after_close(both, l1).main == s.main
            &&& is_open(after_close(both, l2).windows, l1)
            &&& !is_open(after_close(both, l2).windows, l2)
            &&& after_close(both, l2).main == s.main
            &&& after_close(after_close(both, l1), l2) == s
            &&& after_close(after_close(both, l2), l1) == s
        }),
{
    let l1 = view_chart_label(key1);
    let l2 = view_chart_label(key2);
    lemma_view_chart_labels_distinct(key1, key2);
    assert(outcome1 == CreationOutcome::Built);
    let one = after_open(s, l1, WindowKind::Plain, outcome1);
    assert(outcome2 == CreationOutcome::Built);
    let both = after_open(one, l2, WindowKind::Plain, outcome2);
    let n = s.windows.len() as int;
    assert(!is_open(s.windows, l1));
    assert(one.windows == s.windows.push((l1, WindowKind::Plain)));
    assert(!is_open(one.windows, l2));
    assert(both.windows == one.windows.push((l2, WindowKind::Plain)));
    assert(!is_open(s.windows, l2)) by {
        if is_open(s.windows, l2) {
            let i = choose|i: int| 0 <= i < s.windows.len() && #[trigger] s.windows[i].0 == l2;
            assert(one.windows[i] == s.windows[i]);
        }
    }
    assert(both.windows[n].0 == l1);
    assert(both.windows[n + 1].0 == l2);
    assert(one.windows[n].0 == l1);
    // Closing the second chart first.
    lemma_close_pushed(one, l2, WindowKind::Plain);
    lemma_close_pushed(s, l1, WindowKind::Plain);
    // Closing the first chart first.
    let rest = CoordinatorView { main: s.main, windows: s.windows.push((l2, WindowKind::Plain)) };
    assert forall|j: int| 0 <= j < n implies #[trigger] both.windows[j].0 != l1 by {
        assert(both.windows[j] == s.windows[j]);
    }
    assert(first_with_label(both.windows, l1, n));
    let k = choose|k: int| first_with_label(both.windows, l1, k);
    lemma_first_with_label_unique(both.windows, l1, n, k);
    assert(both.windows.remove(n) =~= rest.windows);
    assert(after_close(both, l1) == rest);
    lemma_close_pushed(s, l2, WindowKind::Plain);
    assert(rest.windows[n].0 == l2);
    assert(!is_open(rest.windows.remove(n), l2)) by {
        assert(rest.windows.remove(n) =~= s.windows);
    }
    assert(!is_open(one.windows.remove(n), l1)) by {
        assert(one.windows.remove(n) =~= s.windows);
    }
}

} // verus!

verus! {

/// When the worker that builds a window ends abnormally, the caller gets
/// `ExecutionAborted` for that window's title, the coordinator's state is
/// unchanged, and the line logged for the error names the title.
pub proof fn lemma_abort_is_reported(
    s: CoordinatorView,
    r: Result<(), WindowError>,
    label: Seq<char>,
    title: Seq<char>,
    kind: WindowKind,
    cause: String,
)
    requires
        open_result(r, s, label, title, CreationOutcome::Aborted(cause)),
    ensures
        r matches Err(WindowError::ExecutionAborted { .. }),
        r->Err_0.spec_title() == title,
        names_title(r->Err_0.spec_message(), title),
        after_open(s, label, kind, CreationOutcome::Aborted(cause)) == s,
{
    reveal_strlit("Failed to open a ");
    let m = r->Err_0.spec_message();
    assert(m.subrange(17, 17 + title.len() as int) =~= title);
}

} // verus!
