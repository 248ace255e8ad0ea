//! What commands, buttons and the Escape key do to the preview from every mode, which parse it
//! shows, and how it and the editor scroll together.

use crate::document::{DocumentId, Language};
use crate::geometry::Rect;
use crate::preview_host::{
    DividerPress, FlushPlan, FlushStart, Limits, LineFrom, LinkFailure, Load, ModeFocus, Pending, PreviewButton,
    PreviewCommand, PreviewHost, PreviewMode, ScrollOrigin, Stats,
};
use vstd::prelude::*;

verus! {

/// A command that names a mode leads to that mode from every other, and given twice it stays there:
/// Full to the full width, Side to the split, Close to no preview. Each is the mode that the title
/// strip's button of that name stands for.
pub proof fn a_command_leads_to_the_mode_it_names(mode: PreviewMode)
    ensures
        crate::preview_host::mode_after(PreviewCommand::Full, mode) == PreviewMode::Full,
        crate::preview_host::mode_after(PreviewCommand::Side, mode) == PreviewMode::Split,
        crate::preview_host::mode_after(PreviewCommand::Close, mode) == PreviewMode::Off,
        crate::preview_host::mode_after(PreviewCommand::Full, mode) == crate::preview_host::mode_of(
            PreviewButton::Full,
        ),
        crate::preview_host::mode_after(PreviewCommand::Side, mode) == crate::preview_host::mode_of(
            PreviewButton::Side,
        ),
{
}

/// Cycling goes from no preview to the split, then to the full width, then back.
pub proof fn cycling_widens_the_preview_then_closes_it(mode: PreviewMode)
    ensures
        ({
            let next = crate::preview_host::mode_after(PreviewCommand::Cycle, mode);
            &&& mode == crate::preview_host::mode_after(PreviewCommand::Close, mode) ==> next
                == crate::preview_host::mode_after(PreviewCommand::Side, mode)
            &&& mode == crate::preview_host::mode_after(PreviewCommand::Side, mode) ==> next
                == crate::preview_host::mode_after(PreviewCommand::Full, mode)
            &&& mode == crate::preview_host::mode_after(PreviewCommand::Full, mode) ==> next
                == crate::preview_host::mode_after(PreviewCommand::Close, mode)
        }),
{
}

/// A button leads to its own mode where that is not the mode already, and turns the preview off
/// where it is: two clicks on the same button from its own mode, or from none, lead back.
pub proof fn a_button_toggles_its_mode(button: PreviewButton, mode: PreviewMode)
    ensures
        ({
            let once = crate::preview_host::mode_after_click(button, mode);
            let twice = crate::preview_host::mode_after_click(button, once);
            let own = match button {
                PreviewButton::Side => PreviewMode::Split,
                PreviewButton::Full => PreviewMode::Full,
            };
            &&& mode == own ==> once == PreviewMode::Off && twice == own
            &&& mode != own ==> once == own && twice == PreviewMode::Off
            &&& mode != own ==> once == crate::preview_host::mode_after(
                match button {
                    PreviewButton::Side => PreviewCommand::Side,
                    PreviewButton::Full => PreviewCommand::Full,
                },
                mode,
            )
        }),
{
}

/// Escape does something in the full-width preview alone, and what it does there is what the
/// command for the split does; pressed again it does nothing more.
pub proof fn escape_leaves_the_full_width(mode: PreviewMode)
    ensures
        crate::preview_host::mode_after_escape(mode) is Some <==> mode == PreviewMode::Full,
        crate::preview_host::mode_after_escape(mode) matches Some(next) ==> next
            == crate::preview_host::mode_after(PreviewCommand::Side, mode)
            && crate::preview_host::mode_after_escape(next) is None,
{
}

/// A notification tells of text that came or of text that went, never of both, and a negative
/// length or place counts as none.
pub proof fn an_edit_inserts_or_removes(
    position: isize,
    length: isize,
    inserted: bool,
    lines: isize,
)
    ensures
        ({
            let edit = crate::preview_host::told_edit(position, length, inserted, lines);
            &&& edit.removed == 0 || edit.inserted == 0
            &&& length >= 0 ==> edit.removed + edit.inserted == length
            &&& length < 0 ==> edit.removed == 0 && edit.inserted == 0
            &&& inserted ==> edit.removed == 0
            &&& !inserted ==> edit.inserted == 0
            &&& position >= 0 ==> edit.position == position
            &&& position < 0 ==> edit.position == 0
            &&& edit.lines_delta == lines
        }),
{
}

/// Without a Markdown document no preview opens and nothing changes, but one may always be turned
/// off; else the mode asked for is the mode after, and only turning it off closes the window.
pub proof fn a_preview_needs_markdown(host: PreviewHost, next: PreviewMode, markdown: bool)
    ensures
        ({
            let (focus, after) = host.mode_set(next, markdown);
            &&& focus is None <==> next != PreviewMode::Off && !markdown
            &&& focus is None ==> after == host
            &&& focus is Some ==> after.mode == next
            &&& focus is Some && next != PreviewMode::Off ==> after == (PreviewHost {
                mode: next,
                ..host
            })
            &&& next == PreviewMode::Off ==> !after.open && after.document is None
                && !after.full_parse_pending && after.divider is None && after.hover_text is None
            &&& after.parse_generation == host.parse_generation
            &&& after.dragging == host.dragging
            &&& after.area == host.area
            &&& after.scroll_origin == host.scroll_origin
            &&& after.sync_count == host.sync_count
            &&& after.button_hint == host.button_hint
        }),
{
}

/// The focus goes with the window that fills the content: to the preview where it takes the full
/// width, back to the editor where it gives that up, and nowhere else.
pub proof fn the_focus_follows_the_full_width(host: PreviewHost, next: PreviewMode)
    ensures
        ({
            let focus = host.mode_set(next, true).0;
            &&& focus == Some(ModeFocus::Preview) <==> next == PreviewMode::Full
            &&& focus == Some(ModeFocus::Editor) <==> next != PreviewMode::Full && host.mode
                == PreviewMode::Full
            &&& focus == Some(ModeFocus::Keep) <==> next != PreviewMode::Full && host.mode
                != PreviewMode::Full
        }),
{
}

/// A window is wanted from the mode change until it is made, and the preview shows from then on; if
/// it cannot be made the preview is off, and none is wanted any more.
pub proof fn a_window_is_made_once(host: PreviewHost, next: PreviewMode)
    requires
        next != PreviewMode::Off,
    ensures
        ({
            let asked = host.mode_set(next, true).1;
            &&& asked.lacks_view(true) != asked.shows(true)
            &&& !asked.lacks_view(false) && !asked.shows(false)
            &&& asked.with_view(true).shows(true)
            &&& !asked.with_view(true).lacks_view(true)
            &&& asked.with_view(true).document is None
            &&& asked.with_view(true).mode == next
            &&& !asked.with_view(false).shows(true)
            &&& !asked.with_view(false).lacks_view(true)
            &&& asked.with_view(false).open == asked.open
            &&& asked.with_view(false).document == asked.document
        }),
{
}

/// The editor hides exactly where a shown preview takes the full width, and takes its focus along;
/// a preview is shown for a Markdown document only.
pub proof fn the_editor_or_the_preview_shows(
    host: PreviewHost,
    wanted: PreviewMode,
    markdown: bool,
    active: Option<DocumentId>,
    focused: bool,
    tabs: nat,
)
    ensures
        ({
            let (seen, after) = host.arranged(wanted, markdown, active, focused, tabs);
            &&& seen.shown == (PreviewHost { mode: wanted, ..host }).shows(markdown)
            &&& seen.show_editor is Some <==> tabs > 0
            &&& seen.show_editor == Some(false) <==> tabs > 0 && seen.shown && wanted
                == PreviewMode::Full
            &&& seen.focus_preview ==> focused && seen.shown && wanted == PreviewMode::Full
            &&& focused && tabs > 0 && seen.show_editor == Some(false) ==> seen.focus_preview
            &&& seen.release <==> host.open && !seen.shown
            &&& seen.load ==> seen.shown && host.document != active
            &&& seen.shown && host.document != active ==> seen.load
        }),
{
}

/// A preview that hides gives its document back, and is loaded anew when next shown; one that stays
/// shows on, and arranging twice changes nothing more.
pub proof fn a_hidden_preview_is_loaded_anew(
    host: PreviewHost,
    wanted: PreviewMode,
    markdown: bool,
    active: DocumentId,
    focused: bool,
    tabs: nat,
)
    ensures
        ({
            let (seen, after) = host.arranged(wanted, markdown, Some(active), focused, tabs);
            &&& !seen.release ==> after == host
            &&& seen.release ==> after.document is None && !after.full_parse_pending
                && after.hover_text is None
            &&& seen.release ==> after.arranged(
                PreviewMode::Split,
                true,
                Some(active),
                focused,
                tabs,
            ).0.load
            &&& after.arranged(wanted, markdown, Some(active), focused, tabs).1 == after
            &&& after.open == host.open
            &&& after.mode == host.mode
        }),
{
}

/// A document over the live-update limit waits for its refresh bar unless it is asked for, and then
/// keeps the bar; one over the worker's limit is parsed by a worker; the others at once.
pub proof fn large_documents_load_later(length: usize, force: bool, limits: Limits)
    ensures
        ({
            let load = PreviewHost::load_of(length, force, limits);
            &&& load == Load::Paused <==> length > limits.live_update && !force
            &&& force || length <= limits.live_update ==> (load is Worker <==> length
                > limits.worker_parse)
            &&& load matches Load::Worker { paused } ==> (paused <==> length > limits.live_update)
            &&& load == Load::Inline ==> length <= limits.worker_parse
            &&& force ==> load != Load::Paused
        }),
{
}

/// A load shows the document and awaits nothing; the preview follows the editor's line, unless the
/// full-width preview showed that document already: then it keeps its own.
pub proof fn a_load_shows_the_document(host: PreviewHost, id: DocumentId)
    requires
        host.parse_generation < u64::MAX,
    ensures
        ({
            let after = host.with_document(id);
            &&& after.document == Some(id)
            &&& !after.full_parse_pending
            &&& after.parse_generation > host.parse_generation
            &&& after.mode == host.mode && after.open == host.open
            &&& after.area == host.area && after.divider == host.divider
            &&& after.scroll_origin == host.scroll_origin && after.sync_count == host.sync_count
            &&& host.line_for(id) == LineFrom::Preview <==> host.mode == PreviewMode::Full
                && host.document == Some(id)
            &&& host.line_for(id) != LineFrom::Preview ==> host.line_for(id) == LineFrom::Editor
            &&& after.mode == PreviewMode::Full ==> after.line_for(id) == LineFrom::Preview
        }),
{
}

/// A worker's parse is awaited from its start until it lands, another starts, or the document is
/// parsed at once: whatever came before is stale, and a stale one changes nothing.
pub proof fn only_the_last_parse_lands(
    host: PreviewHost,
    id: DocumentId,
    generation: u64,
    line: Option<usize>,
)
    requires
        host.open,
        host.document == Some(id),
        generation <= host.parse_generation,
        host.parse_generation < u64::MAX - 1,
    ensures
        ({
            let started = host.with_parse(true);
            let own = started.parse_generation;
            &&& started.full_parse_pending
            &&& started.landed(id, own, line).0 is Some
            &&& !started.landed(id, own, line).1.full_parse_pending
            &&& started.landed(id, generation, line) == (None::<LineFrom>, started)
            &&& started.with_parse(true).landed(id, own, line) == (
                None::<LineFrom>,
                started.with_parse(true),
            )
            &&& started.with_parse(false).landed(id, own, line).0 is None
            &&& !started.with_parse(false).full_parse_pending
            &&& started.with_document(id).landed(id, own, line).0 is None
            &&& started.closed().landed(id, own, line).0 is None
            &&& started.outdated().landed(id, own, line).0 is None
            &&& started.landed(id, own, line).1 == (PreviewHost {
                full_parse_pending: false,
                ..started
            })
        }),
{
}

/// A split preview follows the editor when a parse lands; a full-width one goes to the line it was
/// given, and keeps its own without one.
pub proof fn a_landed_parse_keeps_the_place(
    host: PreviewHost,
    id: DocumentId,
    line: usize,
)
    requires
        host.awaits(id, host.parse_generation),
    ensures
        ({
            let own = host.parse_generation;
            &&& host.mode != PreviewMode::Full ==> host.landed(id, own, Some(line)).0 == Some(
                LineFrom::Editor,
            ) && host.landed(id, own, None).0 == Some(LineFrom::Editor)
            &&& host.mode == PreviewMode::Full ==> host.landed(id, own, Some(line)).0 == Some(
                LineFrom::Given(line),
            ) && host.landed(id, own, None).0 == Some(LineFrom::Preview)
        }),
{
}

/// Edits are taken in exactly while the preview shows a document, and only those of the active one
/// are flushed, once no input is waiting.
pub proof fn edits_belong_to_the_shown_document(
    host: PreviewHost,
    id: DocumentId,
    other: DocumentId,
)
    requires
        host.open,
        host.parse_generation < u64::MAX,
        id != other,
    ensures
        ({
            let shown = host.with_document(id);
            &&& shown.recording()
            &&& !shown.outdated().recording()
            &&& !shown.closed().recording()
            &&& shown.flush_start(true, Some(id)) == FlushStart::Wait
            &&& shown.flush_start(true, None) == FlushStart::Wait
            &&& shown.flush_start(false, Some(id)) == FlushStart::Plan
            &&& shown.flush_start(false, Some(other)) == FlushStart::Nothing
            &&& shown.flush_start(false, None) == FlushStart::Nothing
            &&& shown.closed().flush_start(false, Some(id)) == FlushStart::Nothing
            &&& shown.outdated().flush_start(false, Some(id)) == FlushStart::Nothing
        }),
{
}

/// Text that was replaced whole is loaded again when the preview is next arranged.
pub proof fn replaced_text_is_loaded_again(
    host: PreviewHost,
    wanted: PreviewMode,
    id: DocumentId,
    focused: bool,
    tabs: nat,
)
    requires
        host.open,
        wanted != PreviewMode::Off,
    ensures
        host.outdated().arranged(wanted, true, Some(id), focused, tabs).0.load,
        host.outdated().mode == host.mode,
        host.outdated().open == host.open,
        host.outdated().parse_generation == host.parse_generation,
        host.outdated().full_parse_pending == host.full_parse_pending,
{
}

/// A flush over the live-update limit pauses the preview and one below never does; a whole parse is
/// made by a worker exactly where the document is over the worker's limit, and is made at all where
/// everything must be parsed or the preview was paused.
pub proof fn a_flush_parses_as_much_as_it_must(
    pending: Pending,
    length: usize,
    paused: bool,
    waiting: bool,
    limits: Limits,
)
    ensures
        ({
            let plan = crate::preview_host::planned(pending, length, paused, waiting, limits);
            &&& plan is Pause <==> length > limits.live_update
            &&& plan is WorkerParse ==> length > limits.worker_parse && !waiting
            &&& plan is Reparse ==> length <= limits.worker_parse && !waiting
            &&& length <= limits.live_update && !waiting ==> (plan is WorkerParse || plan
                is Reparse <==> paused || pending is Full)
            &&& length <= limits.live_update && waiting && pending is Nothing ==> plan is Nothing
            &&& length <= limits.live_update && waiting && pending is Full ==> plan
                == FlushPlan::Defer(pending)
            &&& length <= limits.live_update && !waiting && !paused && pending is Nothing ==> plan
                is Nothing
            &&& plan matches FlushPlan::Incremental { allow_full_parse, .. } ==> (allow_full_parse
                <==> length <= limits.worker_parse)
        }),
{
}

/// The two scroll together in a shown split: a scroll of the editor is followed, one of the preview
/// moves the editor where its line differs, and the editor's own scroll that comes of it is not
/// followed back. The next scroll of the editor is followed again.
pub proof fn scrolling_never_echoes(host: PreviewHost, before: Option<usize>, target: usize)
    requires
        host.shows(true),
        host.mode == PreviewMode::Split,
        host.scroll_origin == ScrollOrigin::Unset,
        before != Some(target),
        host.sync_count < u64::MAX,
    ensures
        ({
            let (moves, moved) = host.on_preview_scroll(true, before, target);
            let scrolled = moved.on_editor_move(true);
            let still = moved.on_editor_move(false);
            &&& host.on_editor_scroll(true) == (true, host)
            &&& moves
            &&& !scrolled.on_editor_scroll(true).0
            &&& scrolled.on_editor_scroll(true).1.on_editor_scroll(true).0
            &&& still.on_editor_scroll(true).0
            &&& scrolled.sync_count == host.sync_count + 1
            &&& still == host
            &&& host.on_preview_scroll(true, Some(target), target) == (false, host)
        }),
{
}

/// Outside a shown split neither follows the other, and the preview's scroll changes nothing.
pub proof fn only_a_split_scrolls_together(
    host: PreviewHost,
    markdown: bool,
    before: Option<usize>,
    target: usize,
)
    requires
        host.mode != PreviewMode::Split || !markdown || !host.open,
    ensures
        !host.on_editor_scroll(markdown).0,
        host.on_preview_scroll(markdown, before, target) == (false, host),
        host.on_editor_scroll(markdown).1 == (PreviewHost {
            scroll_origin: ScrollOrigin::Unset,
            ..host
        }),
{
}

/// A press on the divider drags it until the release; the second of two quick ones resets the split
/// instead, and a third starts over. One beside it, or with a menu open, does nothing.
pub proof fn the_divider_is_dragged_or_reset(
    host: PreviewHost,
    x: int,
    y: int,
    now: u32,
    later: u32,
    time: u32,
)
    requires
        host.divider is Some && host.divider->0.has(x, y),
        host.last_divider_click is None,
        now <= later,
    ensures
        ({
            let (press, held) = host.pressed(x, y, false, now, time);
            let up = held.released();
            let (second, again) = up.pressed(x, y, false, later, time);
            &&& press == DividerPress::Drag
            &&& held.dragging
            &&& held.divided() == host.area
            &&& !up.dragging
            &&& up.divided() is None
            &&& later - now <= time ==> second == DividerPress::Reset && !again.dragging
            &&& later - now <= time ==> again.pressed(x, y, false, later, time).0
                == DividerPress::Drag
            &&& later - now > time ==> second == DividerPress::Drag && again.dragging
            &&& host.pressed(x, y, true, now, time) == (DividerPress::Miss, host)
        }),
{
}

/// A press beside the divider, or where there is none, does nothing.
pub proof fn a_press_beside_the_divider_does_nothing(
    host: PreviewHost,
    x: int,
    y: int,
    menu_open: bool,
    now: u32,
    time: u32,
)
    requires
        host.divider is None || !host.divider->0.has(x, y),
    ensures
        host.pressed(x, y, menu_open, now, time) == (DividerPress::Miss, host),
{
}

/// The divider of a split is as wide as its scaled width and as tall as the area, right of the
/// editor, which is as wide as asked; without a split there is none.
pub proof fn the_divider_stands_between(
    area: Rect,
    mode: PreviewMode,
    shown: bool,
    editor_width: int,
    dpi: int,
)
    requires
        area.in_range(),
        0 <= dpi <= crate::panel::MAX_DPI,
        0 <= editor_width <= crate::preview_host::usable(area, dpi),
    ensures
        ({
            let rects = crate::preview_host::placed(area, mode, shown, editor_width, dpi);
            &&& rects.divider is Some <==> mode == PreviewMode::Split && shown
            &&& rects.preview is Some <==> mode != PreviewMode::Off && shown
            &&& rects.editor is None <==> mode == PreviewMode::Full && shown
            &&& rects.divider matches Some(divider) ==> {
                &&& rects.editor->0.left == area.left
                &&& rects.editor->0.right - rects.editor->0.left == editor_width
                &&& divider.left == rects.editor->0.right
                &&& divider.right == rects.preview->0.left
                &&& divider.right - divider.left == crate::panel::scaled(4, dpi)
                &&& rects.preview->0.right == area.right
                &&& divider.top == area.top && divider.bottom == area.bottom
            }
        }),
{
    crate::panel::scaled_is_bounded(4, dpi);
}

/// The editor and the preview of a split share what the divider leaves of the area.
pub proof fn the_divider_takes_its_width(area: Rect, dpi: int)
    requires
        area.in_range(),
        0 <= dpi <= crate::panel::MAX_DPI,
    ensures
        ({
            let (wide, divider) = (area.right - area.left, crate::panel::scaled(4, dpi));
            &&& wide >= divider ==> crate::preview_host::usable(area, dpi) + divider == wide
            &&& wide < divider ==> crate::preview_host::usable(area, dpi) == 0
        }),
{
}

/// Each diagnostic question has its own answer: two states that differ in one of the things asked
/// for are told apart, and a number past the last is answered with -1.
pub proof fn diagnostics_tell_states_apart(
    a: PreviewHost,
    b: PreviewHost,
    x: Stats,
    y: Stats,
    markdown: bool,
)
    requires
        a.sync_count <= isize::MAX,
        b.sync_count <= isize::MAX,
        forall|selector: usize|
            crate::preview_host::answered(a, selector, x, markdown)
                == #[trigger] crate::preview_host::answered(b, selector, y, markdown),
    ensures
        a.mode == b.mode,
        a.sync_count == b.sync_count,
        a.shows(markdown) == b.shows(markdown),
        x == y,
        forall|selector: usize|
            selector > 7 ==> #[trigger] crate::preview_host::answered(b, selector, y, markdown)
                == -1,
{
    assert(crate::preview_host::answered(a, 0, x, markdown) == crate::preview_host::answered(
        b,
        0,
        y,
        markdown,
    ));
    assert(crate::preview_host::answered(a, 1, x, markdown) == crate::preview_host::answered(
        b,
        1,
        y,
        markdown,
    ));
    assert(crate::preview_host::answered(a, 2, x, markdown) == crate::preview_host::answered(
        b,
        2,
        y,
        markdown,
    ));
    assert(crate::preview_host::answered(a, 3, x, markdown) == crate::preview_host::answered(
        b,
        3,
        y,
        markdown,
    ));
    assert(crate::preview_host::answered(a, 4, x, markdown) == crate::preview_host::answered(
        b,
        4,
        y,
        markdown,
    ));
    assert(crate::preview_host::answered(a, 5, x, markdown) == crate::preview_host::answered(
        b,
        5,
        y,
        markdown,
    ));
    assert(crate::preview_host::answered(a, 6, x, markdown) == crate::preview_host::answered(
        b,
        6,
        y,
        markdown,
    ));
    assert(crate::preview_host::answered(a, 7, x, markdown) == crate::preview_host::answered(
        b,
        7,
        y,
        markdown,
    ));
}

/// What is told of a link names the link, tells one link from another, and says which of the three
/// it is that went wrong.
pub proof fn a_failed_link_is_named(
    failure: LinkFailure,
    other: LinkFailure,
    link: Seq<char>,
    another: Seq<char>,
)
    ensures
        exists|start: int|
            0 <= start && start + link.len() <= crate::preview_host::notice_of(failure, link).len()
                && #[trigger] crate::preview_host::notice_of(failure, link).subrange(
                start,
                start + link.len(),
            ) == link,
        crate::preview_host::notice_of(failure, link) == crate::preview_host::notice_of(
            failure,
            another,
        ) ==> link == another,
        failure != other ==> crate::preview_host::notice_of(failure, link)
            != crate::preview_host::notice_of(other, another),
{
    reveal_strlit("FastPad could not open ");
    reveal_strlit(".");
    reveal_strlit("No heading in this document matches #");
    reveal_strlit("FastPad does not open this kind of link: ");
    let told = crate::preview_host::notice_of(failure, link);
    let elsewhere = crate::preview_host::notice_of(failure, another);
    let start: int = match failure {
        LinkFailure::External => "FastPad could not open "@.len() as int,
        LinkFailure::Anchor => "No heading in this document matches #"@.len() as int,
        LinkFailure::Ignored => "FastPad does not open this kind of link: "@.len() as int,
    };
    assert(told.subrange(start, start + link.len()) =~= link);
    if told == elsewhere {
        assert(told.len() - link.len() == elsewhere.len() - another.len());
        assert(elsewhere.subrange(start, start + another.len()) =~= another);
    }
    if failure != other {
        let second = crate::preview_host::notice_of(other, another);
        assert(told[0] != second[0] || told[8] != second[8]);
    }
}

/// A button's hint follows the pointer, and is shown anew only where the pointer is over another
/// button than before.
pub proof fn a_hint_follows_the_pointer(host: PreviewHost, target: Option<PreviewButton>)
    ensures
        ({
            let (changed, after) = host.pointing_at(target);
            &&& after.button_hint == target
            &&& changed <==> after != host
            &&& !after.pointing_at(target).0
            &&& (after.mode, after.document, after.hover_text) == (
                host.mode,
                host.document,
                host.hover_text,
            )
        }),
{
}

/// Of all documents those in Markdown alone have a preview: where there is no document, or one in
/// another language, there is none.
pub proof fn only_markdown_is_previewed(active: Option<Language>)
    ensures
        crate::preview_host::has_preview(active) ==> active is Some,
        active matches Some(language) ==> (crate::preview_host::has_preview(active) <==> language
            is Markdown),
{
}

} // verus!
