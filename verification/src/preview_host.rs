//! The Markdown preview's modes, its split layout and divider, which parse of a document it shows,
//! what a pause in typing does with the edits, and the scrolling it shares with the editor.

use crate::document::{DocumentId, Language};
use crate::geometry::{contains, Rect};
use crate::panel::scale;
use crate::text::join2;
use vstd::prelude::*;

verus! {

pub const DIVIDER_WIDTH_AT_96_DPI: i32 = 4;

pub const NOT_MARKDOWN_NOTICE: &'static str =
    "Markdown preview is available for Markdown documents. Choose View > Markdown to treat this tab as Markdown.";

pub const SIDE_HINT: &'static str =
    "Open Preview to the Side (Ctrl+Shift+V cycles preview modes)";

pub const FULL_HINT: &'static str = "Open Preview (Ctrl+Shift+V cycles preview modes)";

#[derive(Clone, Copy, Debug, PartialEq, Eq, Structural)]
pub enum PreviewMode {
    Off,
    Split,
    Full,
}

/// Who scrolled last.
#[derive(Clone, Copy, Debug, PartialEq, Eq, Structural)]
pub enum ScrollOrigin {
    Unset,
    Preview,
}

#[derive(Clone, Copy, Debug, PartialEq, Eq, Structural)]
pub enum PreviewCommand {
    Cycle,
    Side,
    Full,
    Close,
}

/// The title strip's buttons.
#[derive(Clone, Copy, Debug, PartialEq, Eq, Structural)]
pub enum PreviewButton {
    Side,
    Full,
}

/// Where the editor, the divider and the preview are.
#[derive(Clone, Copy, Debug, PartialEq, Eq, Structural)]
pub struct ContentRects {
    pub editor: Option<Rect>,
    pub divider: Option<Rect>,
    pub preview: Option<Rect>,
}

/// The mode a command leads to.
pub open spec fn mode_after(command: PreviewCommand, mode: PreviewMode) -> PreviewMode {
    match command {
        PreviewCommand::Cycle => match mode {
            PreviewMode::Off => PreviewMode::Split,
            PreviewMode::Split => PreviewMode::Full,
            PreviewMode::Full => PreviewMode::Off,
        },
        PreviewCommand::Side => PreviewMode::Split,
        PreviewCommand::Full => PreviewMode::Full,
        PreviewCommand::Close => PreviewMode::Off,
    }
}

pub fn run_command(command: PreviewCommand, mode: PreviewMode) -> (next: PreviewMode)
    ensures
        next == mode_after(command, mode),
{
    match command {
        PreviewCommand::Cycle => match mode {
            PreviewMode::Off => PreviewMode::Split,
            PreviewMode::Split => PreviewMode::Full,
            PreviewMode::Full => PreviewMode::Off,
        },
        PreviewCommand::Side => PreviewMode::Split,
        PreviewCommand::Full => PreviewMode::Full,
        PreviewCommand::Close => PreviewMode::Off,
    }
}

/// Cycling three times comes back to the same mode, over every mode.
pub proof fn cycling_visits_every_mode(mode: PreviewMode)
    ensures
        ({
            let once = mode_after(PreviewCommand::Cycle, mode);
            let twice = mode_after(PreviewCommand::Cycle, once);
            &&& once != mode
            &&& twice != mode
            &&& twice != once
            &&& mode_after(PreviewCommand::Cycle, twice) == mode
        }),
{
}

/// The mode a button stands for.
pub open spec fn mode_of(button: PreviewButton) -> PreviewMode {
    match button {
        PreviewButton::Side => PreviewMode::Split,
        PreviewButton::Full => PreviewMode::Full,
    }
}

/// The mode that a click on a button leads to.
pub open spec fn mode_after_click(button: PreviewButton, mode: PreviewMode) -> PreviewMode {
    if mode == mode_of(button) {
        PreviewMode::Off
    } else {
        mode_of(button)
    }
}

/// Title-strip buttons toggle: the pressed button turns the preview off.
pub fn click_button(button: PreviewButton, mode: PreviewMode) -> (next: PreviewMode)
    ensures
        next == mode_after_click(button, mode),
{
    let pressed = match button {
        PreviewButton::Side => PreviewMode::Split,
        PreviewButton::Full => PreviewMode::Full,
    };
    if mode == pressed {
        PreviewMode::Off
    } else {
        pressed
    }
}

/// The mode that Escape leads to, where it does anything.
pub open spec fn mode_after_escape(mode: PreviewMode) -> Option<PreviewMode> {
    if mode == PreviewMode::Full {
        Some(PreviewMode::Split)
    } else {
        None
    }
}

/// Escape leaves the full-width preview for the split one.
pub fn escape(mode: PreviewMode) -> (next: Option<PreviewMode>)
    ensures
        next == mode_after_escape(mode),
{
    if mode == PreviewMode::Full {
        Some(PreviewMode::Split)
    } else {
        None
    }
}

/// A document of this language can be previewed.
pub open spec fn has_preview(active: Option<Language>) -> bool {
    active == Some(Language::Markdown)
}

/// Only Markdown documents have a preview.
pub fn buttons_visible(active: Option<Language>) -> (visible: bool)
    ensures
        visible == has_preview(active),
{
    match active {
        Some(language) => language == Language::Markdown,
        None => false,
    }
}

/// The room the editor and the preview share beside the divider.
pub open spec fn usable(area: Rect, dpi: int) -> int {
    vstd::math::max(
        area.right - area.left - crate::panel::scaled(DIVIDER_WIDTH_AT_96_DPI as int, dpi),
        0,
    )
}

pub fn split_room(area: Rect, dpi: u32) -> (room: i32)
    requires
        area.in_range(),
        dpi <= crate::panel::MAX_DPI,
    ensures
        room == usable(area, dpi as int),
{
    proof {
        crate::panel::scaled_is_bounded(DIVIDER_WIDTH_AT_96_DPI as int, dpi as int);
    }
    (area.right - area.left - scale(DIVIDER_WIDTH_AT_96_DPI, dpi)).max(0)
}

/// Where everything is, the editor of a split `editor_width` wide.
pub open spec fn placed(
    area: Rect,
    mode: PreviewMode,
    shown: bool,
    editor_width: int,
    dpi: int,
) -> ContentRects {
    let divider = crate::panel::scaled(DIVIDER_WIDTH_AT_96_DPI as int, dpi);
    let right = area.left + editor_width;
    if mode == PreviewMode::Full && shown {
        ContentRects { editor: None, divider: None, preview: Some(area) }
    } else if mode == PreviewMode::Split && shown {
        ContentRects {
            editor: Some(Rect { right: right as i32, ..area }),
            divider: Some(
                Rect { left: right as i32, right: (right + divider) as i32, ..area },
            ),
            preview: Some(Rect { left: (right + divider) as i32, ..area }),
        }
    } else {
        ContentRects { editor: Some(area), divider: None, preview: None }
    }
}

/// Where the editor, the divider and the preview are in `area`. The editor of a split is
/// `editor_width` wide, its share of the room that the divider leaves.
pub fn content_rects(area: Rect, mode: PreviewMode, shown: bool, editor_width: i32, dpi: u32) -> (rects:
    ContentRects)
    requires
        area.in_range(),
        dpi <= crate::panel::MAX_DPI,
        0 <= editor_width <= usable(area, dpi as int),
    ensures
        rects == placed(area, mode, shown, editor_width as int, dpi as int),
{
    proof {
        crate::panel::scaled_is_bounded(DIVIDER_WIDTH_AT_96_DPI as int, dpi as int);
    }
    match (mode, shown) {
        (PreviewMode::Full, true) => ContentRects {
            editor: None,
            divider: None,
            preview: Some(area),
        },
        (PreviewMode::Split, true) => {
            let divider: i32 = scale(DIVIDER_WIDTH_AT_96_DPI, dpi);
            let right: i32 = area.left + editor_width;
            ContentRects {
                editor: Some(
                    Rect { left: area.left, top: area.top, right, bottom: area.bottom },
                ),
                divider: Some(
                    Rect {
                        left: right,
                        top: area.top,
                        right: right + divider,
                        bottom: area.bottom,
                    },
                ),
                preview: Some(
                    Rect {
                        left: right + divider,
                        top: area.top,
                        right: area.right,
                        bottom: area.bottom,
                    },
                ),
            }
        },
        _ => ContentRects { editor: Some(area), divider: None, preview: None },
    }
}

/// A rectangle, where there is one, holds the pixel.
pub open spec fn covers(rect: Option<Rect>, x: int, y: int) -> bool {
    rect matches Some(rect) && rect.has(x, y)
}

/// Every pixel of the area belongs to exactly one of the editor, the divider and the preview.
pub proof fn content_fills_the_area(
    area: Rect,
    mode: PreviewMode,
    shown: bool,
    editor_width: int,
    dpi: int,
    x: int,
    y: int,
)
    requires
        area.in_range(),
        0 <= dpi <= crate::panel::MAX_DPI,
        0 <= editor_width <= usable(area, dpi),
        area.right - area.left >= crate::panel::scaled(DIVIDER_WIDTH_AT_96_DPI as int, dpi),
    ensures
        ({
            let rects = placed(area, mode, shown, editor_width, dpi);
            let (e, d, p) = (
                covers(rects.editor, x, y),
                covers(rects.divider, x, y),
                covers(rects.preview, x, y),
            );
            &&& area.has(x, y) == (e || d || p)
            &&& !(e && d)
            &&& !(e && p)
            &&& !(d && p)
        }),
{
    crate::panel::scaled_is_bounded(DIVIDER_WIDTH_AT_96_DPI as int, dpi);
}

/// A change of the text: what went, what came, and by how many lines it grew.
#[derive(Clone, Copy, Debug, PartialEq, Eq, Structural)]
pub struct Edit {
    pub position: usize,
    pub removed: usize,
    pub inserted: usize,
    pub lines_delta: isize,
}

/// A negative number counts as none.
pub open spec fn at_least_zero(value: isize) -> usize {
    if value > 0 {
        value as usize
    } else {
        0
    }
}

fn clamped(value: isize) -> (count: usize)
    ensures
        count == at_least_zero(value),
{
    if value > 0 {
        value as usize
    } else {
        0
    }
}

/// The edit that an editor's notification tells of: text came or it went.
pub open spec fn told_edit(
    position: isize,
    length: isize,
    inserted: bool,
    lines_added: isize,
) -> Edit {
    Edit {
        position: at_least_zero(position),
        removed: if inserted {
            0
        } else {
            at_least_zero(length)
        },
        inserted: if inserted {
            at_least_zero(length)
        } else {
            0
        },
        lines_delta: lines_added,
    }
}

/// The edit that an editor's notification tells of.
pub fn edit_of(position: isize, length: isize, inserted: bool, lines_added: isize) -> (edit: Edit)
    ensures
        edit == told_edit(position, length, inserted, lines_added),
{
    let length: usize = clamped(length);
    Edit {
        position: clamped(position),
        removed: if inserted {
            0
        } else {
            length
        },
        inserted: if inserted {
            length
        } else {
            0
        },
        lines_delta: lines_added,
    }
}

/// The edits that wait for a pause in typing.
#[derive(Debug, PartialEq, Eq)]
pub enum Pending {
    Nothing,
    /// Everything must be parsed again.
    Full,
    Edits(Vec<Edit>),
}

/// What a debounced flush does with the pending edits.
#[derive(Debug, PartialEq, Eq)]
pub enum FlushPlan {
    Nothing,
    /// A worker parse is still outstanding: keep these edits for when it lands. Spawning another
    /// would copy the whole text again on every typing pause.
    Defer(Pending),
    /// The document is over the live-update limit: show the refresh bar and drop the edits.
    Pause,
    /// Reparse everything on the UI thread.
    Reparse,
    /// Reparse everything on a worker.
    WorkerParse,
    /// Reparse around the edits; `allow_full_parse` lets that fall back to a full parse inline.
    Incremental { edits: Vec<Edit>, allow_full_parse: bool },
}

/// Text lengths, in bytes: past `live_update` the preview waits to be refreshed by hand, and past
/// `worker_parse` a whole parse runs on a worker.
#[derive(Clone, Copy, Debug, PartialEq, Eq, Structural)]
pub struct Limits {
    pub live_update: usize,
    pub worker_parse: usize,
}

/// What a flush does. A paused preview needs the whole document parsed again. While a worker parse
/// is outstanding the block model is stale, so edits wait for it instead of being applied on top.
pub open spec fn planned(
    pending: Pending,
    length: usize,
    paused: bool,
    full_parse_pending: bool,
    limits: Limits,
) -> FlushPlan {
    let large = length > limits.worker_parse;
    if length > limits.live_update {
        FlushPlan::Pause
    } else if full_parse_pending {
        if pending is Nothing {
            FlushPlan::Nothing
        } else {
            FlushPlan::Defer(pending)
        }
    } else if paused || pending is Full {
        if large {
            FlushPlan::WorkerParse
        } else {
            FlushPlan::Reparse
        }
    } else {
        match pending {
            Pending::Edits(edits) => FlushPlan::Incremental { edits, allow_full_parse: !large },
            _ => FlushPlan::Nothing,
        }
    }
}

pub fn plan_flush(
    pending: Pending,
    length: usize,
    paused: bool,
    full_parse_pending: bool,
    limits: Limits,
) -> (plan: FlushPlan)
    ensures
        plan == planned(pending, length, paused, full_parse_pending, limits),
{
    if length > limits.live_update {
        return FlushPlan::Pause;
    }
    let large: bool = length > limits.worker_parse;
    let whole: FlushPlan = if large {
        FlushPlan::WorkerParse
    } else {
        FlushPlan::Reparse
    };
    match pending {
        Pending::Nothing => if full_parse_pending || !paused {
            FlushPlan::Nothing
        } else {
            whole
        },
        Pending::Full => if full_parse_pending {
            FlushPlan::Defer(Pending::Full)
        } else {
            whole
        },
        Pending::Edits(edits) => if full_parse_pending {
            FlushPlan::Defer(Pending::Edits(edits))
        } else if paused {
            whole
        } else {
            FlushPlan::Incremental { edits, allow_full_parse: !large }
        },
    }
}

/// Edits are never applied on top of a stale model, and below the live-update limit none is lost:
/// it is applied, kept, or covered by a whole parse.
pub proof fn edits_wait_for_a_worker_and_are_never_lost(
    pending: Pending,
    length: usize,
    paused: bool,
    full_parse_pending: bool,
    limits: Limits,
)
    requires
        pending is Edits,
        length <= limits.live_update,
    ensures
        ({
            let plan = planned(pending, length, paused, full_parse_pending, limits);
            &&& full_parse_pending ==> plan == FlushPlan::Defer(pending)
            &&& !full_parse_pending && paused ==> plan is Reparse || plan is WorkerParse
            &&& !full_parse_pending && !paused ==> (plan matches FlushPlan::Incremental {
                edits,
                ..
            } && edits == pending->Edits_0)
        }),
{
}

/// Where the preview goes when a parse lands.
#[derive(Clone, Copy, Debug, PartialEq, Eq, Structural)]
pub enum LineFrom {
    Given(usize),
    /// It keeps its own top line.
    Preview,
    /// It follows the editor's top line.
    Editor,
}

/// How a document is loaded into the preview.
#[derive(Clone, Copy, Debug, PartialEq, Eq, Structural)]
pub enum Load {
    /// Too large: empty, with the refresh bar.
    Paused,
    /// Empty until a worker's parse lands; with the refresh bar where set.
    Worker { paused: bool },
    /// Parsed at once.
    Inline,
}

/// What a flush starts with.
#[derive(Clone, Copy, Debug, PartialEq, Eq, Structural)]
pub enum FlushStart {
    /// Input is waiting: try again after another delay.
    Wait,
    /// Nothing to flush.
    Nothing,
    /// Take the edits and plan.
    Plan,
}

/// What takes the keyboard focus after a mode change.
#[derive(Clone, Copy, Debug, PartialEq, Eq, Structural)]
pub enum ModeFocus {
    Preview,
    Editor,
    Keep,
}

/// What shows and hides the preview and the editor.
#[derive(Clone, Copy, Debug, PartialEq, Eq, Structural)]
pub struct Visibility {
    pub shown: bool,
    /// The hidden preview gives its document back, and its timer stops.
    pub release: bool,
    /// Load the active document.
    pub load: bool,
    /// The focus moves from the editor, which hides, to the preview.
    pub focus_preview: bool,
    /// Show or hide the editor; `None` leaves it as it is.
    pub show_editor: Option<bool>,
}

/// A press on the divider.
#[derive(Clone, Copy, Debug, PartialEq, Eq, Structural)]
pub enum DividerPress {
    /// Not on the divider.
    Miss,
    /// A double click: the split is even again.
    Reset,
    /// The divider is dragged: take the mouse.
    Drag,
}

/// The preview's state. The preview window, the text and the split's share are the program's.
#[derive(Debug)]
pub struct PreviewHost {
    pub mode: PreviewMode,
    /// The preview window exists.
    pub open: bool,
    /// The document the preview shows; `None` forces a reload when next shown.
    pub document: Option<DocumentId>,
    pub parse_generation: u64,
    /// A worker parse for `parse_generation` is outstanding: the block model is stale until it
    /// lands.
    pub full_parse_pending: bool,
    pub dragging: bool,
    pub last_divider_click: Option<u32>,
    pub area: Option<Rect>,
    pub divider: Option<Rect>,
    pub scroll_origin: ScrollOrigin,
    pub sync_count: u64,
    pub hover_text: Option<String>,
    pub button_hint: Option<PreviewButton>,
}

impl Default for PreviewHost {
    fn default() -> (host: Self)
        ensures
            host == (PreviewHost {
                mode: PreviewMode::Off,
                open: false,
                document: None,
                parse_generation: 0,
                full_parse_pending: false,
                dragging: false,
                last_divider_click: None,
                area: None,
                divider: None,
                scroll_origin: ScrollOrigin::Unset,
                sync_count: 0,
                hover_text: None,
                button_hint: None,
            }),
    {
        PreviewHost {
            mode: PreviewMode::Off,
            open: false,
            document: None,
            parse_generation: 0,
            full_parse_pending: false,
            dragging: false,
            last_divider_click: None,
            area: None,
            divider: None,
            scroll_origin: ScrollOrigin::Unset,
            sync_count: 0,
            hover_text: None,
            button_hint: None,
        }
    }
}

/// The hint of a hovered button.
pub open spec fn hint_of(button: PreviewButton) -> Seq<char> {
    match button {
        PreviewButton::Side => SIDE_HINT@,
        PreviewButton::Full => FULL_HINT@,
    }
}

impl PreviewHost {
    /// What is hinted at: a button before a link.
    pub open spec fn hinted(self) -> Option<Seq<char>> {
        match self.button_hint {
            Some(button) => Some(hint_of(button)),
            None => crate::text::maybe(self.hover_text),
        }
    }

    /// What the status bar shows: the hovered button's hint, or the link under the pointer.
    pub fn status_hint(&self) -> (hint: Option<String>)
        ensures
            crate::text::maybe(hint) == self.hinted(),
    {
        match self.button_hint {
            Some(PreviewButton::Side) => Some(SIDE_HINT.to_owned()),
            Some(PreviewButton::Full) => Some(FULL_HINT.to_owned()),
            None => self.hover_text.clone(),
        }
    }

    /// The preview shows the active document.
    pub open spec fn shows(self, markdown: bool) -> bool {
        self.mode != PreviewMode::Off && markdown && self.open
    }

    pub fn preview_shown(&self, markdown: bool) -> (shown: bool)
        ensures
            shown == self.shows(markdown),
    {
        self.mode != PreviewMode::Off && markdown && self.open
    }

    /// What a change of mode comes to: what takes the focus, `None` where nothing changes, and the
    /// state after it.
    pub open spec fn mode_set(self, next: PreviewMode, markdown: bool) -> (
        Option<ModeFocus>,
        PreviewHost,
    ) {
        if next != PreviewMode::Off && !markdown {
            (None, self)
        } else {
            (
                Some(
                    if next == PreviewMode::Full {
                        ModeFocus::Preview
                    } else if self.mode == PreviewMode::Full {
                        ModeFocus::Editor
                    } else {
                        ModeFocus::Keep
                    },
                ),
                if next == PreviewMode::Off {
                    self.closed()
                } else {
                    PreviewHost { mode: next, ..self }
                },
            )
        }
    }

    /// Changes the mode. A preview needs a Markdown document: without one nothing changes, and
    /// `None` is returned. Turning it off closes the preview.
    pub fn set_mode(&mut self, next: PreviewMode, markdown: bool) -> (focus: Option<ModeFocus>)
        ensures
            (focus, *final(self)) == old(self).mode_set(next, markdown),
    {
        if next != PreviewMode::Off && !markdown {
            return None;
        }
        let previous = self.mode;
        self.mode = next;
        if next == PreviewMode::Off {
            self.close_view();
        }
        Some(
            if next == PreviewMode::Full {
                ModeFocus::Preview
            } else if previous == PreviewMode::Full {
                ModeFocus::Editor
            } else {
                ModeFocus::Keep
            },
        )
    }

    /// The preview turned off and its window gone.
    pub open spec fn closed(self) -> PreviewHost {
        PreviewHost {
            mode: PreviewMode::Off,
            open: false,
            document: None,
            full_parse_pending: false,
            divider: None,
            hover_text: None,
            ..self
        }
    }

    fn close_view(&mut self)
        ensures
            *final(self) == (PreviewHost { mode: old(self).mode, ..old(self).closed() }),
    {
        self.document = None;
        self.full_parse_pending = false;
        self.divider = None;
        self.hover_text = None;
        self.open = false;
    }

    /// The preview wants a window and has none.
    pub open spec fn lacks_view(self, markdown: bool) -> bool {
        self.mode != PreviewMode::Off && markdown && !self.open
    }

    /// The preview wants a window that does not exist yet.
    pub fn needs_view(&self, markdown: bool) -> (needs: bool)
        ensures
            needs == self.lacks_view(markdown),
    {
        self.mode != PreviewMode::Off && markdown && !self.open
    }

    /// The state after a preview window was made, or could not be.
    pub open spec fn with_view(self, made: bool) -> PreviewHost {
        if made {
            PreviewHost { open: true, document: None, ..self }
        } else {
            PreviewHost { mode: PreviewMode::Off, ..self }
        }
    }

    /// The preview window was made, or could not be: then the preview is off.
    pub fn view_made(&mut self, made: bool)
        ensures
            *final(self) == old(self).with_view(made),
    {
        if made {
            self.open = true;
            self.document = None;
        } else {
            self.mode = PreviewMode::Off;
        }
    }

    /// What shows and what hides for the wanted mode, and the state after it.
    pub open spec fn arranged(
        self,
        wanted: PreviewMode,
        markdown: bool,
        active: Option<DocumentId>,
        editor_focused: bool,
        tabs: nat,
    ) -> (Visibility, PreviewHost) {
        let shown = wanted != PreviewMode::Off && markdown && self.open;
        let hide_editor = shown && wanted == PreviewMode::Full;
        (
            Visibility {
                shown,
                release: self.open && !shown,
                load: shown && self.document != active,
                focus_preview: hide_editor && editor_focused,
                show_editor: if tabs > 0 {
                    Some(!hide_editor)
                } else {
                    None
                },
            },
            if self.open && !shown {
                PreviewHost {
                    document: None,
                    full_parse_pending: false,
                    hover_text: None,
                    ..self
                }
            } else {
                self
            },
        )
    }

    /// Shows or hides the preview and the editor for the wanted mode and the active tab.
    pub fn sync_visibility(
        &mut self,
        wanted: PreviewMode,
        markdown: bool,
        active: Option<DocumentId>,
        editor_focused: bool,
        tabs: usize,
    ) -> (visibility: Visibility)
        ensures
            (visibility, *final(self)) == old(self).arranged(
                wanted,
                markdown,
                active,
                editor_focused,
                tabs as nat,
            ),
    {
        let shown: bool = wanted != PreviewMode::Off && markdown && self.open;
        let release: bool = self.open && !shown;
        let load: bool = shown && self.document != active;
        if release {
            self.document = None;
            self.full_parse_pending = false;
            self.hover_text = None;
        }
        let hide_editor: bool = shown && wanted == PreviewMode::Full;
        Visibility {
            shown,
            release,
            load,
            focus_preview: hide_editor && editor_focused,
            show_editor: if tabs > 0 {
                Some(!hide_editor)
            } else {
                None
            },
        }
    }

    /// How a document of `length` bytes loads.
    pub open spec fn load_of(length: usize, force: bool, limits: Limits) -> Load {
        if length > limits.live_update && !force {
            Load::Paused
        } else if length > limits.worker_parse {
            Load::Worker { paused: length > limits.live_update }
        } else {
            Load::Inline
        }
    }

    /// Where the preview goes when a document is loaded.
    pub open spec fn line_for(self, id: DocumentId) -> LineFrom {
        if self.mode == PreviewMode::Full && self.document == Some(id) {
            LineFrom::Preview
        } else {
            LineFrom::Editor
        }
    }

    /// The state after a document is loaded.
    pub open spec fn with_document(self, id: DocumentId) -> PreviewHost {
        PreviewHost { document: Some(id), ..self.with_parse(false) }
    }

    /// The state after a new parse: a worker's, which is awaited, or one made at once.
    pub open spec fn with_parse(self, worker: bool) -> PreviewHost {
        PreviewHost {
            parse_generation: (self.parse_generation + 1) as u64,
            full_parse_pending: worker,
            ..self
        }
    }

    /// Loads the active document; any worker parse still running describes older text. Reloading
    /// the document that a full-width preview already shows keeps the preview's own position: the
    /// hidden editor's top line is stale.
    pub fn load_active_document(&mut self, id: DocumentId, length: usize, force: bool, limits: Limits) -> (loaded:
        (Load, LineFrom))
        requires
            old(self).parse_generation < u64::MAX,
        ensures
            loaded.0 == Self::load_of(length, force, limits),
            loaded.1 == old(self).line_for(id),
            *final(self) == old(self).with_document(id),
    {
        let same: bool = self.document == Some(id);
        self.document = Some(id);
        self.parse_generation = self.parse_generation + 1;
        self.full_parse_pending = false;
        let line = if self.mode == PreviewMode::Full && same {
            LineFrom::Preview
        } else {
            LineFrom::Editor
        };
        let load = if length > limits.live_update && !force {
            Load::Paused
        } else if length > limits.worker_parse {
            Load::Worker { paused: length > limits.live_update }
        } else {
            Load::Inline
        };
        (load, line)
    }

    /// A worker parse starts; a new generation retires any still running. Returns it.
    pub fn spawn_parse(&mut self) -> (generation: u64)
        requires
            old(self).parse_generation < u64::MAX,
        ensures
            generation == old(self).parse_generation + 1,
            *final(self) == old(self).with_parse(true),
    {
        self.parse_generation = self.parse_generation + 1;
        self.full_parse_pending = true;
        self.parse_generation
    }

    /// The document was parsed again inline, which retires any worker parse still running.
    pub fn reparsed(&mut self)
        requires
            old(self).parse_generation < u64::MAX,
        ensures
            *final(self) == old(self).with_parse(false),
    {
        self.parse_generation = self.parse_generation + 1;
        self.full_parse_pending = false;
    }

    /// A parse of this generation of this document is the one awaited.
    pub open spec fn awaits(self, document: DocumentId, generation: u64) -> bool {
        self.open && self.document == Some(document) && self.parse_generation == generation
    }

    /// What a worker's parse leads to when it lands, and the state after it.
    pub open spec fn landed(
        self,
        document: DocumentId,
        generation: u64,
        full_mode_line: Option<usize>,
    ) -> (Option<LineFrom>, PreviewHost) {
        if !self.awaits(document, generation) {
            (None, self)
        } else {
            (
                Some(
                    if self.mode == PreviewMode::Full {
                        match full_mode_line {
                            Some(line) => LineFrom::Given(line),
                            None => LineFrom::Preview,
                        }
                    } else {
                        LineFrom::Editor
                    },
                ),
                PreviewHost { full_parse_pending: false, ..self },
            )
        }
    }

    /// A worker parse landed. `None` if newer text superseded it, else the line to go to: a split
    /// follows the editor; a full-width preview goes where it was told, or stays where it is.
    pub fn parsed(&mut self, document: DocumentId, generation: u64, full_mode_line: Option<usize>) -> (line:
        Option<LineFrom>)
        ensures
            (line, *final(self)) == old(self).landed(document, generation, full_mode_line),
    {
        if !(self.open && self.document == Some(document) && self.parse_generation == generation) {
            return None;
        }
        self.full_parse_pending = false;
        Some(
            if self.mode == PreviewMode::Full {
                match full_mode_line {
                    Some(line) => LineFrom::Given(line),
                    None => LineFrom::Preview,
                }
            } else {
                LineFrom::Editor
            },
        )
    }

    /// An edit now is one that the preview has to take in.
    pub open spec fn recording(self) -> bool {
        self.open && self.document is Some
    }

    /// Whether an edit is recorded: only while the preview shows a document.
    pub fn records_edits(&self) -> (records: bool)
        ensures
            records == self.recording(),
    {
        self.open && self.document.is_some()
    }

    /// The first step at the end of a pause in typing.
    pub open spec fn flush_start(self, input_pending: bool, active: Option<DocumentId>) -> FlushStart {
        if input_pending {
            FlushStart::Wait
        } else if self.open && active is Some && self.document == active {
            FlushStart::Plan
        } else {
            FlushStart::Nothing
        }
    }

    /// What the end of a pause in typing starts with.
    pub fn flush(&self, input_pending: bool, active: Option<DocumentId>) -> (start: FlushStart)
        ensures
            start == self.flush_start(input_pending, active),
    {
        if input_pending {
            FlushStart::Wait
        } else if self.open && active.is_some() && self.document == active {
            FlushStart::Plan
        } else {
            FlushStart::Nothing
        }
    }

    /// The state after the text under the preview was replaced.
    pub open spec fn outdated(self) -> PreviewHost {
        PreviewHost { document: None, ..self }
    }

    /// A file finished loading into the active tab: its text replaced whatever the preview showed.
    pub fn document_reloaded(&mut self)
        ensures
            *final(self) == old(self).outdated(),
    {
        self.document = None;
    }

    /// The link under the pointer changed.
    pub fn hover_link(&mut self, link: Option<String>)
        ensures
            *final(self) == (PreviewHost { hover_text: link, ..*old(self) }),
    {
        self.hover_text = link;
    }

    /// Whether the preview follows a scroll of the editor, and the state after it.
    pub open spec fn on_editor_scroll(self, markdown: bool) -> (bool, PreviewHost) {
        (
            self.scroll_origin == ScrollOrigin::Unset && self.mode == PreviewMode::Split
                && self.shows(markdown),
            PreviewHost { scroll_origin: ScrollOrigin::Unset, ..self },
        )
    }

    /// The editor scrolled. Reports whether the preview follows: not where the scroll is the echo
    /// of one the preview made, which is taken whatever the mode.
    pub fn editor_scrolled(&mut self, markdown: bool) -> (follow: bool)
        ensures
            (follow, *final(self)) == old(self).on_editor_scroll(markdown),
    {
        let echo: bool = self.scroll_origin == ScrollOrigin::Preview;
        self.scroll_origin = ScrollOrigin::Unset;
        !echo && self.mode == PreviewMode::Split && self.preview_shown(markdown)
    }

    /// One window followed the other.
    pub fn synced(&mut self)
        requires
            old(self).sync_count < u64::MAX,
        ensures
            *final(self) == (PreviewHost {
                sync_count: (old(self).sync_count + 1) as u64,
                ..*old(self)
            }),
    {
        self.sync_count = self.sync_count + 1;
    }

    /// Whether the editor follows a scroll of the preview, and the state after it.
    pub open spec fn on_preview_scroll(
        self,
        markdown: bool,
        before: Option<usize>,
        target: usize,
    ) -> (bool, PreviewHost) {
        if self.mode == PreviewMode::Split && self.shows(markdown) && before != Some(target) {
            (true, PreviewHost { scroll_origin: ScrollOrigin::Preview, ..self })
        } else {
            (false, self)
        }
    }

    /// The user scrolled the preview, and the editor's top line should be `target`. Reports whether
    /// the editor moves; then its own scroll is the echo to ignore.
    pub fn preview_scrolled(&mut self, markdown: bool, before: Option<usize>, target: usize) -> (moves:
        bool)
        ensures
            (moves, *final(self)) == old(self).on_preview_scroll(markdown, before, target),
    {
        if self.mode != PreviewMode::Split || !self.preview_shown(markdown) || before == Some(
            target,
        ) {
            return false;
        }
        self.scroll_origin = ScrollOrigin::Preview;
        true
    }

    /// The state after the editor was told to move.
    pub open spec fn on_editor_move(self, scrolled: bool) -> PreviewHost {
        if scrolled {
            PreviewHost { sync_count: (self.sync_count + 1) as u64, ..self }
        } else {
            PreviewHost { scroll_origin: ScrollOrigin::Unset, ..self }
        }
    }

    /// The editor was told to move. With no scroll there is no echo to clear the guard, and it
    /// would swallow the next real scroll of the editor.
    pub fn editor_moved(&mut self, scrolled: bool)
        requires
            old(self).sync_count < u64::MAX,
        ensures
            *final(self) == old(self).on_editor_move(scrolled),
    {
        if scrolled {
            self.sync_count = self.sync_count + 1;
        } else {
            self.scroll_origin = ScrollOrigin::Unset;
        }
    }

    /// Places the editor, the divider and the preview in `area`.
    pub fn layout(&mut self, area: Rect, markdown: bool, editor_width: i32, dpi: u32) -> (rects:
        ContentRects)
        requires
            area.in_range(),
            dpi <= crate::panel::MAX_DPI,
            0 <= editor_width <= usable(area, dpi as int),
        ensures
            rects == placed(
                area,
                old(self).mode,
                old(self).shows(markdown),
                editor_width as int,
                dpi as int,
            ),
            *final(self) == (PreviewHost {
                area: Some(area),
                divider: rects.divider,
                ..*old(self)
            }),
    {
        let rects = content_rects(area, self.mode, self.preview_shown(markdown), editor_width, dpi);
        self.area = Some(area);
        self.divider = rects.divider;
        rects
    }

    /// The divider is at a point.
    pub open spec fn on_divider(self, x: int, y: int) -> bool {
        self.divider matches Some(rect) && rect.has(x, y)
    }

    pub fn over_divider(&self, x: i32, y: i32) -> (over: bool)
        ensures
            over == self.on_divider(x as int, y as int),
    {
        match self.divider {
            Some(rect) => contains(rect, x, y),
            None => false,
        }
    }

    /// The divider's cursor shows over it and while it is dragged.
    pub fn cursor_over_divider(&self, x: i32, y: i32) -> (over: bool)
        ensures
            over == (self.dragging || self.on_divider(x as int, y as int)),
    {
        self.dragging || self.over_divider(x, y)
    }

    /// A click comes soon enough after the last to be the second of a double click; the clock may
    /// have started over in between.
    pub open spec fn is_double(self, now: u32, double_click_time: u32) -> bool {
        self.last_divider_click matches Some(last) && (if now >= last {
            now - last
        } else {
            now - last + 0x1_0000_0000
        }) <= double_click_time
    }

    /// What a press comes to, and the state after it.
    pub open spec fn pressed(
        self,
        x: int,
        y: int,
        menu_open: bool,
        now: u32,
        double_click_time: u32,
    ) -> (DividerPress, PreviewHost) {
        if menu_open || !self.on_divider(x, y) {
            (DividerPress::Miss, self)
        } else if self.is_double(now, double_click_time) {
            (DividerPress::Reset, PreviewHost { last_divider_click: None, ..self })
        } else {
            (
                DividerPress::Drag,
                PreviewHost { last_divider_click: Some(now), dragging: true, ..self },
            )
        }
    }

    /// A press: on the divider it starts a drag, or, the second of a double click, resets the
    /// split.
    pub fn begin_divider_drag(
        &mut self,
        x: i32,
        y: i32,
        menu_open: bool,
        now: u32,
        double_click_time: u32,
    ) -> (press: DividerPress)
        ensures
            (press, *final(self)) == old(self).pressed(
                x as int,
                y as int,
                menu_open,
                now,
                double_click_time,
            ),
    {
        if menu_open || !self.over_divider(x, y) {
            return DividerPress::Miss;
        }
        let double: bool = match self.last_divider_click {
            Some(last) => now.wrapping_sub(last) <= double_click_time,
            None => false,
        };
        if double {
            self.last_divider_click = None;
            DividerPress::Reset
        } else {
            self.last_divider_click = Some(now);
            self.dragging = true;
            DividerPress::Drag
        }
    }

    /// The area that a drag now on divides.
    pub open spec fn divided(self) -> Option<Rect> {
        if self.dragging {
            self.area
        } else {
            None
        }
    }

    /// The area a drag divides, while one is on.
    pub fn drag_divider(&self) -> (area: Option<Rect>)
        ensures
            area == self.divided(),
    {
        if self.dragging {
            self.area
        } else {
            None
        }
    }

    /// The state after a drag ends.
    pub open spec fn released(self) -> PreviewHost {
        PreviewHost { dragging: false, ..self }
    }

    /// Ends a drag, on a release or when the mouse is taken away; reports whether one was on.
    pub fn end_divider_drag(&mut self) -> (was_dragging: bool)
        ensures
            was_dragging == old(self).dragging,
            *final(self) == old(self).released(),
    {
        let dragging: bool = self.dragging;
        self.dragging = false;
        dragging
    }

    /// Whether the hint changes where the pointer is over `target`, and the state after it.
    pub open spec fn pointing_at(self, target: Option<PreviewButton>) -> (bool, PreviewHost) {
        (self.button_hint != target, PreviewHost { button_hint: target, ..self })
    }

    /// The pointer is over a title-strip button, or none; reports whether the hint changed.
    pub fn button_hover(&mut self, target: Option<PreviewButton>) -> (changed: bool)
        ensures
            (changed, *final(self)) == old(self).pointing_at(target),
    {
        let changed: bool = self.button_hint != target;
        self.button_hint = target;
        changed
    }
}

/// Loading a document, or parsing it again, leaves every parse that was started before unawaited.
pub proof fn a_retired_parse_never_lands(host: PreviewHost, document: DocumentId, generation: u64)
    requires
        generation <= host.parse_generation < u64::MAX,
    ensures
        !(PreviewHost {
            parse_generation: (host.parse_generation + 1) as u64,
            ..host
        }).awaits(document, generation),
{
}

/// The second click of a double click starts no third.
pub proof fn a_third_click_starts_over(host: PreviewHost, now: u32, double_click_time: u32)
    ensures
        !(PreviewHost { last_divider_click: None, ..host }).is_double(now, double_click_time),
{
}

/// What the preview window measured.
#[derive(Clone, Copy, Debug, PartialEq, Eq, Structural)]
pub struct Stats {
    pub block_count: isize,
    pub revision: isize,
    pub first_frame_micros: isize,
    pub last_update_micros: isize,
    pub top_line: isize,
}

/// What each diagnostic question is answered.
pub open spec fn answered(
    host: PreviewHost,
    selector: usize,
    stats: Stats,
    markdown: bool,
) -> isize {
    if selector == 0 {
        match host.mode {
            PreviewMode::Off => 0isize,
            PreviewMode::Split => 1isize,
            PreviewMode::Full => 2isize,
        }
    } else if selector == 1 {
        stats.block_count
    } else if selector == 2 {
        stats.revision
    } else if selector == 3 {
        stats.first_frame_micros
    } else if selector == 4 {
        stats.last_update_micros
    } else if selector == 5 {
        stats.top_line
    } else if selector == 6 {
        host.sync_count as isize
    } else if selector == 7 {
        if host.shows(markdown) {
            1isize
        } else {
            0isize
        }
    } else {
        -1isize
    }
}

/// The answer to a diagnostic question, by its number.
pub fn diagnostic(host: &PreviewHost, selector: usize, stats: Stats, markdown: bool) -> (answer: isize)
    requires
        host.sync_count <= isize::MAX,
    ensures
        answer == answered(*host, selector, stats, markdown),
{
    match selector {
        0 => match host.mode {
            PreviewMode::Off => 0,
            PreviewMode::Split => 1,
            PreviewMode::Full => 2,
        },
        1 => stats.block_count,
        2 => stats.revision,
        3 => stats.first_frame_micros,
        4 => stats.last_update_micros,
        5 => stats.top_line,
        6 => host.sync_count as isize,
        7 => if host.preview_shown(markdown) {
            1
        } else {
            0
        },
        _ => -1,
    }
}

/// What following a link comes to, where it fails.
pub enum LinkFailure {
    External,
    Anchor,
    Ignored,
}

/// What is told of a link that could not be followed.
pub open spec fn notice_of(failure: LinkFailure, link: Seq<char>) -> Seq<char> {
    match failure {
        LinkFailure::External => "FastPad could not open "@ + link + "."@,
        LinkFailure::Anchor => "No heading in this document matches #"@ + link + "."@,
        LinkFailure::Ignored => "FastPad does not open this kind of link: "@ + link,
    }
}

/// What a link that could not be followed is told as.
pub fn link_notice(failure: LinkFailure, link: &str) -> (notice: String)
    ensures
        notice@ == notice_of(failure, link@),
{
    match failure {
        LinkFailure::External => crate::text::join3("FastPad could not open ", link, "."),
        LinkFailure::Anchor => crate::text::join3(
            "No heading in this document matches #",
            link,
            ".",
        ),
        LinkFailure::Ignored => join2("FastPad does not open this kind of link: ", link),
    }
}

} // verus!
