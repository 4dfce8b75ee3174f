use vstd::prelude::*;

verus! {

/// The diagnostic logged when a window, plain or dialog, could not be opened.
pub open spec fn open_window_message(title: Seq<char>, cause: Seq<char>) -> Seq<char> {
    "Failed to open a "@ + title + " window: "@ + cause
}

/// Both diagnostics start with a fixed prefix of this many characters,
/// followed by the window's title.
pub open spec fn title_offset() -> int {
    17
}

/// `title` stands in `msg` right after the fixed prefix.
pub open spec fn names_title(msg: Seq<char>, title: Seq<char>) -> bool {
    msg.len() >= title_offset() + title.len()
        && msg.subrange(title_offset(), title_offset() + title.len()) == title
}

/// Builds the message "Failed to open a {title} window: {cause}".
pub fn build_open_window_error(title: &str, cause: &str) -> (r: String)
    ensures
        r@ == open_window_message(title@, cause@),
        names_title(r@, title@),
{
    let mut r = "Failed to open a ".to_owned();
    r.append(title);
    r.append(" window: ");
    r.append(cause);
    proof {
        reveal_strlit("Failed to open a ");
        reveal_strlit(" window: ");
        assert(r@.subrange(17, 17 + title@.len() as int) =~= title@);
    }
    r
}

/// Builds the message logged when a dialog window could not be opened; it
/// has the same form as for a plain window.
pub fn build_open_dialog_window_error(title: &str, cause: &str) -> (r: String)
    ensures
        r@ == open_window_message(title@, cause@),
        names_title(r@, title@),
{
    build_open_window_error(title, cause)
}

/// Why a window could not be opened. Both variants carry the title of the
/// window that was asked for.
pub enum WindowError {
    /// The windowing runtime refused to build the window, or a step that
    /// follows a successful build (disabling the main window) failed.
    CreationFailed { title: String, cause: String },
    /// The worker that builds the window ended abnormally.
    ExecutionAborted { title: String, cause: String },
}

impl WindowError {
    pub open spec fn spec_title(&self) -> Seq<char> {
        match self {
            WindowError::CreationFailed { title, .. } => title@,
            WindowError::ExecutionAborted { title, .. } => title@,
        }
    }

    pub open spec fn spec_cause(&self) -> Seq<char> {
        match self {
            WindowError::CreationFailed { cause, .. } => cause@,
            WindowError::ExecutionAborted { cause, .. } => cause@,
        }
    }

    /// The diagnostic for this error.
    pub open spec fn spec_message(&self) -> Seq<char> {
        open_window_message(self.spec_title(), self.spec_cause())
    }

    pub fn title(&self) -> (r: &str)
        ensures
            r@ == self.spec_title(),
    {
        match self {
            WindowError::CreationFailed { title, .. } => title.as_str(),
            WindowError::ExecutionAborted { title, .. } => title.as_str(),
        }
    }

    pub fn cause(&self) -> (r: &str)
        ensures
            r@ == self.spec_cause(),
    {
        match self {
            WindowError::CreationFailed { cause, .. } => cause.as_str(),
            WindowError::ExecutionAborted { cause, .. } => cause.as_str(),
        }
    }

    /// The line to log for this error; it always names the window's title.
    pub fn message(&self) -> (r: String)
        ensures
            r@ == self.spec_message(),
            names_title(r@, self.spec_title()),
    {
        build_open_window_error(self.title(), self.cause())
    }
}

} // verus!
