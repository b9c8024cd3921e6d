//! The full-screen inspect view: a title, a body and a scroll offset, either
//! static or attached to one entry of the tool-call history.

use vstd::prelude::*;

verus! {

/// What an inspect view shows and how far it is scrolled.
#[derive(Clone, Debug)]
pub struct InspectState {
    pub title: String,
    pub content: String,
    pub scroll_offset: u16,
    pub mode: InspectMode,
}

/// Whether the view is plain text or bound to a tool call.
#[derive(Clone, Copy, Debug, PartialEq, Eq, Structural)]
pub enum InspectMode {
    Static,
    ToolCalls { index: usize, view: ToolInspectView, kind: ToolInspectKind },
}

/// The two faces of a tool call: its result or its request.
#[derive(Clone, Copy, Debug, PartialEq, Eq, Structural)]
pub enum ToolInspectView {
    Result,
    Request,
}

/// Whether the inspected tool call has finished or awaits permission.
#[derive(Clone, Copy, Debug, PartialEq, Eq, Structural)]
pub enum ToolInspectKind {
    Result,
    Pending,
}

impl InspectState {
    /// A static view at the top of its content.
    pub fn new(title: String, content: String) -> (r: Self)
        ensures
            r.title@ == title@,
            r.content@ == content@,
            r.scroll_offset == 0,
            r.mode == InspectMode::Static,
    {
        InspectState { title, content, scroll_offset: 0, mode: InspectMode::Static }
    }

    /// A view in the given mode at the top of its content.
    pub fn with_mode(title: String, content: String, mode: InspectMode) -> (r: Self)
        ensures
            r.title@ == title@,
            r.content@ == content@,
            r.scroll_offset == 0,
            r.mode == mode,
    {
        InspectState { title, content, scroll_offset: 0, mode }
    }
}

impl ToolInspectView {
    pub open spec fn toggled(self) -> ToolInspectView {
        match self {
            ToolInspectView::Result => ToolInspectView::Request,
            ToolInspectView::Request => ToolInspectView::Result,
        }
    }

    /// The other face of the tool call.
    pub fn toggle(self) -> (r: Self)
        ensures
            r == self.toggled(),
            r != self,
    {
        match self {
            ToolInspectView::Result => ToolInspectView::Request,
            ToolInspectView::Request => ToolInspectView::Result,
        }
    }
}

/// Toggling the tool view twice gives back the view one started from.
pub proof fn lemma_toggle_involutive(v: ToolInspectView)
    ensures
        v.toggled().toggled() == v,
{
}

/// How far one scroll request moves the view: the magnitude of `lines`
/// (capped at `i32::MAX`) taken modulo 2^16, as a cast to `u16` does.
pub open spec fn scroll_magnitude(lines: i32) -> u16 {
    let a: int = if lines == i32::MIN {
        i32::MAX as int
    } else if lines < 0 {
        -lines
    } else {
        lines as int
    };
    (a % 65536) as u16
}

/// `offset` moved by `lines`, saturating at both ends of the `u16` range.
pub open spec fn scrolled(offset: u16, lines: i32) -> u16 {
    let m = scroll_magnitude(lines);
    if lines < 0 {
        if offset >= m {
            (offset - m) as u16
        } else {
            0
        }
    } else if offset + m <= u16::MAX {
        (offset + m) as u16
    } else {
        u16::MAX
    }
}

/// Owns the inspect view that is open, if any.
#[derive(Clone, Debug)]
pub struct InspectController {
    state: Option<InspectState>,
}

impl View for InspectController {
    type V = Option<InspectState>;

    closed spec fn view(&self) -> Option<InspectState> {
        self.state
    }
}

/// `s` with its scroll offset replaced.
pub open spec fn with_offset(s: InspectState, offset: u16) -> InspectState {
    InspectState { scroll_offset: offset, ..s }
}

impl InspectController {
    /// No view open.
    pub fn new() -> (r: Self)
        ensures
            r@ is None,
    {
        InspectController { state: None }
    }

    /// The open view.
    pub fn state(&self) -> (r: Option<&InspectState>)
        ensures
            r is Some == self@ is Some,
            r matches Some(s) ==> *s == self@->0,
    {
        self.state.as_ref()
    }

    /// The open view, for editing in place.
    pub fn state_mut(&mut self) -> (r: Option<&mut InspectState>)
        ensures
            r is Some == old(self)@ is Some,
            r matches Some(s) ==> *s == old(self)@->0 && final(self)@ == Some(*final(s)),
            r is None ==> final(self)@ is None,
    {
        self.state.as_mut()
    }

    /// Opens a static view, replacing whatever was open.
    pub fn open(&mut self, title: String, content: String)
        ensures
            final(self)@ matches Some(s) && s.title@ == title@ && s.content@ == content@
                && s.scroll_offset == 0 && s.mode == InspectMode::Static,
    {
        self.state = Some(InspectState::new(title, content));
    }

    /// Opens a view bound to tool call `index`.
    pub fn open_tool_calls(
        &mut self,
        title: String,
        content: String,
        index: usize,
        view: ToolInspectView,
        kind: ToolInspectKind,
    )
        ensures
            final(self)@ matches Some(s) && s.title@ == title@ && s.content@ == content@
                && s.scroll_offset == 0 && s.mode == (InspectMode::ToolCalls {
                index,
                view,
                kind,
            }),
    {
        self.state = Some(
            InspectState::with_mode(title, content, InspectMode::ToolCalls { index, view, kind }),
        );
    }

    /// Closes the view.
    pub fn close(&mut self)
        ensures
            final(self)@ is None,
    {
        self.state = None;
    }

    /// Scrolls the open view by `lines` (negative scrolls up), saturating.
    pub fn scroll(&mut self, lines: i32)
        ensures
            old(self)@ matches Some(s) ==> final(self)@ == Some(
                with_offset(s, scrolled(s.scroll_offset, lines)),
            ),
            old(self)@ is None ==> final(self)@ is None,
    {
        let magnitude = scroll_magnitude_exec(lines);
        if let Some(state) = self.state.as_mut() {
            if lines < 0 {
                state.scroll_offset = state.scroll_offset.saturating_sub(magnitude);
            } else {
                state.scroll_offset = state.scroll_offset.saturating_add(magnitude);
            }
        }
    }

    /// Scrolls the open view to its first line.
    pub fn scroll_to_start(&mut self)
        ensures
            old(self)@ matches Some(s) ==> final(self)@ == Some(with_offset(s, 0)),
            old(self)@ is None ==> final(self)@ is None,
    {
        if let Some(state) = self.state.as_mut() {
            state.scroll_offset = 0;
        }
    }

    /// Scrolls the open view as far down as the offset goes.
    pub fn scroll_to_end(&mut self)
        ensures
            old(self)@ matches Some(s) ==> final(self)@ == Some(with_offset(s, u16::MAX)),
            old(self)@ is None ==> final(self)@ is None,
    {
        if let Some(state) = self.state.as_mut() {
            state.scroll_offset = u16::MAX;
        }
    }
}

fn scroll_magnitude_exec(lines: i32) -> (r: u16)
    ensures
        r == scroll_magnitude(lines),
{
    let a: u32 = if lines == i32::MIN {
        i32::MAX as u32
    } else if lines < 0 {
        (-lines) as u32
    } else {
        lines as u32
    };
    (a % 65536) as u16
}

/// Scrolling by `n` lines and then by `-n` lines returns to the start offset
/// when neither move hits an end of the offset range.
pub proof fn lemma_scroll_round_trip(offset: u16, n: i32)
    requires
        0 < n,
        n < 65536,
        offset + n <= u16::MAX,
    ensures
        scrolled(scrolled(offset, n), -n as i32) == offset,
{
}

} // verus!
