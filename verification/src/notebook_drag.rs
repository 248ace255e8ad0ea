//! Drags over the Notebook view: a row or a tab dragged from it, and files dragged in from
//! outside. A press arms a drag, moving past the drag distance starts it, and every way it ends
//! leaves none behind.

use crate::document::DocumentId;
use crate::geometry::{height, Point};
use crate::notebook_view::{Drag, Frame, NotebookView};
use crate::tree::Kind;
use crate::tree_paint::DragSource;
use vstd::prelude::*;

verus! {

/// A drag of `source` can start: a note's or a folder's row, a tab, or files; not a name being
/// typed nor an unsaved tab's row.
pub open spec fn draggable(source: DragSource) -> bool {
    match source {
        DragSource::Row(kind) => kind is Note || kind is Folder,
        _ => true,
    }
}

impl Drag {
    /// A drag of `source` armed by a press.
    pub open spec fn fresh(source: DragSource, at: Point, started: bool) -> Drag {
        Drag { source, origin: at, pointer: at, started, target: None, resting: None }
    }

    /// The drag that a press at a point arms, if `source` can be dragged.
    pub fn armed(source: DragSource, at: Point) -> (drag: Option<Drag>)
        ensures
            drag == (if draggable(source) {
                Some(Drag::fresh(source, at, false))
            } else {
                None
            }),
    {
        let can: bool = match &source {
            DragSource::Row(Kind::Note(_)) => true,
            DragSource::Row(Kind::Folder(_)) => true,
            DragSource::Row(_) => false,
            _ => true,
        };
        if can {
            Some(
                Drag { source, origin: at, pointer: at, started: false, target: None, resting: None },
            )
        } else {
            None
        }
    }
}

/// Whether a drag came from outside the program.
pub fn is_external(source: &DragSource) -> (external: bool)
    ensures
        external == (*source is Files),
{
    match source {
        DragSource::Files(_) => true,
        _ => false,
    }
}

/// What a move of the pointer makes of a drag.
#[derive(Clone, Copy, Debug, PartialEq, Eq, Structural)]
pub enum DragMove {
    /// No drag, or one that has not started: the move is the hover's.
    Ignored,
    /// The release went elsewhere, and the drag under way has ended.
    Cancelled,
    /// The drag starts: capture the pointer, start the timer and show the label.
    Started,
    /// The drag goes on: its label follows.
    Moved,
}

/// What a release does.
#[derive(Debug, PartialEq, Eq)]
pub enum Dropped<T> {
    Move { kind: Kind<T>, folder: T },
    Copy { id: DocumentId, path: T, folder: T },
    /// Nothing under the pointer takes what is dragged.
    Nowhere,
}

pub type Drop = Dropped<String>;

pub type DropModel = Dropped<Seq<char>>;

pub open spec fn drop_model(dropped: Drop) -> DropModel {
    match dropped {
        Dropped::Move { kind, folder } => Dropped::Move {
            kind: crate::tree::kind_model(kind),
            folder: folder@,
        },
        Dropped::Copy { id, path, folder } => Dropped::Copy { id, path: path@, folder: folder@ },
        Dropped::Nowhere => Dropped::Nowhere,
    }
}

/// What the release of a drag does: a row moves into the target folder, a tab's file is copied.
pub open spec fn drop_of(drag: Drag) -> DropModel {
    match (drag.target, drag.source) {
        (Some(folder), DragSource::Row(kind)) => Dropped::Move {
            kind: crate::tree::kind_model(kind),
            folder: folder@,
        },
        (Some(folder), DragSource::Tab { id, path }) => Dropped::Copy {
            id,
            path: path@,
            folder: folder@,
        },
        _ => Dropped::Nowhere,
    }
}

/// What the drag timer did.
#[derive(Debug, PartialEq, Eq)]
pub struct Tick {
    pub scrolled: bool,
    /// The folder to expand.
    pub expand: Option<String>,
    pub pointer: Point,
    pub external: bool,
}

/// What a drag of files from outside is over.
#[derive(Clone, Copy, Debug, PartialEq, Eq, Structural)]
pub enum ExternalOver {
    /// A drop here opens the files.
    Opens,
    /// The tree: a drop copies into the folder under the pointer, if that takes one. `fresh` where
    /// the drag is new here: start the timer.
    Tree { fresh: bool },
}

/// Where files dropped from outside go.
#[derive(Debug, PartialEq, Eq)]
pub enum ExternalDrop<T> {
    Open,
    CopyInto(T),
    Refused,
}

impl NotebookView {
    /// A drag is under way; an armed one does not count.
    pub open spec fn dragging(self) -> bool {
        match self.drag {
            Some(drag) => drag.started,
            None => false,
        }
    }

    /// Whether a drag is under way: the keyboard is its own while it lasts.
    pub fn drag_started(&self) -> (started: bool)
        ensures
            started == self.dragging(),
    {
        match &self.drag {
            Some(drag) => drag.started,
            None => false,
        }
    }

    /// A drag of files from outside is under way here.
    pub open spec fn dragging_files(self) -> bool {
        match self.drag {
            Some(drag) => drag.source is Files,
            None => false,
        }
    }

    pub open spec fn without_drag(self) -> NotebookView {
        NotebookView { drag: None, ..self }
    }

    /// The view after a press on something that may be dragged.
    pub open spec fn arming(self, source: DragSource, at: Point, editing: bool) -> NotebookView {
        if editing {
            self
        } else {
            NotebookView {
                drag: if draggable(source) {
                    Some(Drag::fresh(source, at, false))
                } else {
                    None
                },
                ..self
            }
        }
    }

    /// Arms a drag, unless an inline edit is still open.
    pub fn arm_drag(&mut self, source: DragSource, at: Point, editing: bool)
        ensures
            *final(self) == old(self).arming(source, at, editing),
    {
        if !editing {
            self.drag = Drag::armed(source, at);
        }
    }

    /// The view with the drag at a point where `target` takes a release.
    pub open spec fn targeting(
        self,
        at: Point,
        target: Option<String>,
        resting: Option<String>,
    ) -> NotebookView {
        match self.drag {
            Some(drag) => NotebookView {
                drag: Some(Drag { pointer: at, target, resting, ..drag }),
                ..self
            },
            None => self,
        }
    }

    /// The drag moved to a point where `target` takes a release: the target follows. Whether a
    /// release there moves or copies anything.
    pub fn drag_to(&mut self, at: Point, target: Option<String>, resting: Option<String>) -> (accepted:
        bool)
        ensures
            *final(self) == old(self).targeting(at, target, resting),
            accepted == (old(self).drag is Some && target is Some),
    {
        match self.drag.take() {
            Some(drag) => {
                let accepted: bool = target.is_some();
                self.drag = Some(
                    Drag {
                        source: drag.source,
                        origin: drag.origin,
                        pointer: at,
                        started: drag.started,
                        target,
                        resting,
                    },
                );
                accepted
            },
            None => false,
        }
    }

    /// Where a drag under way is, and whether it comes from outside.
    pub open spec fn targeted_again(self) -> Option<(Point, bool)> {
        match self.drag {
            Some(drag) if drag.started => Some((drag.pointer, drag.source is Files)),
            _ => None,
        }
    }

    /// Where a started drag is to be targeted again after the rows moved under it, and whether it
    /// comes from outside, where its cursor is not the view's.
    pub fn retargets(&self) -> (again: Option<(Point, bool)>)
        ensures
            again == self.targeted_again(),
    {
        match &self.drag {
            Some(drag) => if drag.started {
                Some((drag.pointer, is_external(&drag.source)))
            } else {
                None
            },
            None => None,
        }
    }

    /// A drag starts: nothing is hovered while it lasts.
    pub open spec fn starting(self) -> NotebookView {
        match self.drag {
            Some(drag) => NotebookView {
                drag: Some(Drag { started: true, ..drag }),
                list: crate::row_list::RowListState { hover: None, ..self.list },
                hover: None,
                hover_pin: false,
                ..self
            },
            None => self,
        }
    }

    /// What a move of the pointer makes of the drag: without the left button down it ends, armed
    /// or under way; past the drag distance an armed one starts.
    pub open spec fn drag_moved(self, left: bool, past: bool) -> (NotebookView, DragMove) {
        match self.drag {
            Some(drag) => if !left {
                (
                    self.without_drag(),
                    if drag.started {
                        DragMove::Cancelled
                    } else {
                        DragMove::Ignored
                    },
                )
            } else if drag.started {
                (self, DragMove::Moved)
            } else if past {
                (self.starting(), DragMove::Started)
            } else {
                (self, DragMove::Ignored)
            },
            None => (self, DragMove::Ignored),
        }
    }

    /// The pointer moved: `left` is set while the left button is down, `past` when the pointer is
    /// past the drag distance from where the drag was armed.
    pub fn drag_move(&mut self, left: bool, past: bool) -> (moved: DragMove)
        requires
            old(self).wf(),
        ensures
            final(self).wf(),
            (*final(self), moved) == old(self).drag_moved(left, past),
    {
        let started: bool = match &self.drag {
            Some(drag) => drag.started,
            None => {
                return DragMove::Ignored;
            },
        };
        if !left {
            self.drag = None;
            return if started {
                DragMove::Cancelled
            } else {
                DragMove::Ignored
            };
        }
        if started {
            return DragMove::Moved;
        }
        if !past {
            return DragMove::Ignored;
        }
        if let Some(drag) = self.drag.take() {
            self.drag = Some(
                Drag {
                    source: drag.source,
                    origin: drag.origin,
                    pointer: drag.pointer,
                    started: true,
                    target: drag.target,
                    resting: drag.resting,
                },
            );
        }
        self.list.hover = None;
        self.hover = None;
        self.hover_pin = false;
        DragMove::Started
    }

    /// What a release drops, where a drag is under way.
    pub open spec fn release_drops(self) -> Option<DropModel> {
        match self.drag {
            Some(drag) if drag.started => Some(drop_of(drag)),
            _ => None,
        }
    }

    /// The left button's release: what a drag under way does, its target already where the button
    /// went up. None when no drag was under way: an armed one was a click.
    pub fn drag_release(&mut self) -> (dropped: Option<Drop>)
        ensures
            *final(self) == old(self).without_drag(),
            (match dropped {
                Some(dropped) => Some(drop_model(dropped)),
                None => None,
            }) == old(self).release_drops(),
    {
        let drag = match self.drag.take() {
            Some(drag) => drag,
            None => {
                return None;
            },
        };
        if !drag.started {
            return None;
        }
        Some(
            match (drag.target, drag.source) {
                (Some(folder), DragSource::Row(kind)) => Dropped::Move { kind, folder },
                (Some(folder), DragSource::Tab { id, path }) => Dropped::Copy { id, path, folder },
                _ => Dropped::Nowhere,
            },
        )
    }

    /// Ends a drag without moving anything; an armed one just goes. Whether one was under way: its
    /// timer, capture, cursor and label are then to end too.
    pub fn cancel_drag(&mut self) -> (cancelled: bool)
        ensures
            *final(self) == old(self).without_drag(),
            cancelled == old(self).dragging(),
    {
        let started: bool = self.drag_started();
        self.drag = None;
        started
    }

    /// Whether a right press cancels a drag or ends a wait, and the view after it.
    pub open spec fn after_right_down(self) -> ((bool, bool), NotebookView) {
        (
            (self.dragging(), !self.dragging() && self.eat_right_up),
            NotebookView { drag: None, eat_right_up: self.dragging(), ..self },
        )
    }

    /// A right press: it cancels a drag under way and does nothing else, its own release then
    /// opening no menu. Otherwise an earlier wait for a release that never came ends. Whether it
    /// cancelled a drag, and whether a wait ended.
    pub fn right_down(&mut self) -> (cancelled: (bool, bool))
        ensures
            (cancelled, *final(self)) == old(self).after_right_down(),
    {
        if self.cancel_drag() {
            self.eat_right_up = true;
            return (true, false);
        }
        (false, self.drop_right_release_wait())
    }

    /// Ends a right press's wait for its own release. Whether there was one: the capture kept for
    /// it is then to be released, and the release opens no menu.
    pub fn drop_right_release_wait(&mut self) -> (waited: bool)
        ensures
            waited == old(self).eat_right_up,
            *final(self) == (NotebookView { eat_right_up: false, ..*old(self) }),
    {
        let waited: bool = self.eat_right_up;
        self.eat_right_up = false;
        waited
    }

    /// The view after the capture went elsewhere.
    pub open spec fn uncaptured(self) -> NotebookView {
        NotebookView { thumb_grab: None, eat_right_up: false, drag: None, ..self }
    }

    /// The capture went elsewhere: a grabbed thumb, a wait for a right release and a drag all end.
    /// Whether a drag was under way.
    pub fn capture_changed(&mut self) -> (cancelled: bool)
        ensures
            cancelled == old(self).dragging(),
            *final(self) == old(self).uncaptured(),
    {
        self.thumb_grab = None;
        self.eat_right_up = false;
        self.cancel_drag()
    }

    /// The view after the drag timer: scrolled by `lines`, the resting folder forgotten where it
    /// expands.
    pub open spec fn ticked(self, lines: int, expand: bool, frame: Frame) -> NotebookView {
        match self.drag {
            Some(drag) if drag.started => NotebookView {
                list: if lines != 0 {
                    self.list.scrolled(lines, self.area(frame).tall())
                } else {
                    self.list
                },
                drag: Some(
                    Drag {
                        resting: if expand {
                            None
                        } else {
                            drag.resting
                        },
                        ..drag
                    },
                ),
                ..self
            },
            _ => self,
        }
    }

    /// The drag timer: near the list's top or bottom edge the list scrolls by `lines`, and the
    /// collapsed folder `expand`, on which the pointer has rested long enough, is to expand.
    pub fn drag_tick(&mut self, lines: i32, expand: Option<String>, frame: &Frame) -> (tick: Option<Tick>)
        requires
            old(self).wf(),
            frame.wf(),
        ensures
            final(self).wf(),
            *final(self) == old(self).ticked(lines as int, expand is Some, *frame),
            match old(self).drag {
                Some(drag) if drag.started => tick matches Some(tick) && {
                    &&& tick.scrolled == (final(self).list.top != old(self).list.top)
                    &&& tick.expand == expand
                    &&& tick.pointer == drag.pointer
                    &&& tick.external == (drag.source is Files)
                },
                _ => tick is None,
            },
    {
        if !self.drag_started() {
            return None;
        }
        let area = self.list_area(frame);
        let drag = match self.drag.take() {
            Some(drag) => drag,
            None => {
                return None;
            },
        };
        let scrolled: bool = if lines != 0 {
            self.list.scroll_lines(lines, height(area))
        } else {
            false
        };
        let pointer: Point = drag.pointer;
        let external: bool = is_external(&drag.source);
        let resting: Option<String> = if expand.is_some() {
            None
        } else {
            drag.resting
        };
        self.drag = Some(
            Drag {
                source: drag.source,
                origin: drag.origin,
                pointer: drag.pointer,
                started: drag.started,
                target: drag.target,
                resting,
            },
        );
        Some(Tick { scrolled, expand, pointer, external })
    }

    /// Files dragged in from outside are over a point: over Open Editors, or with no notebook, they
    /// would open, and no drag is kept; else the drag is kept as one under way.
    pub open spec fn over(self, frame: Frame, at: Point, paths: Vec<String>) -> (NotebookView, ExternalOver) {
        if self.opens(frame, at) {
            (
                if self.dragging_files() {
                    self.without_drag()
                } else {
                    self
                },
                ExternalOver::Opens,
            )
        } else if self.dragging_files() {
            (self, ExternalOver::Tree { fresh: false })
        } else {
            (
                NotebookView {
                    drag: Some(Drag::fresh(DragSource::Files(paths), at, true)),
                    ..self
                },
                ExternalOver::Tree { fresh: true },
            )
        }
    }

    pub fn external_over(&mut self, frame: &Frame, at: Point, paths: Vec<String>) -> (over: ExternalOver)
        ensures
            (*final(self), over) == old(self).over(*frame, at, paths),
    {
        if self.opens_at(frame, at) {
            let _ = self.external_leave();
            return ExternalOver::Opens;
        }
        let external: bool = match &self.drag {
            Some(drag) => is_external(&drag.source),
            None => false,
        };
        if external {
            return ExternalOver::Tree { fresh: false };
        }
        self.drag = Some(
            Drag {
                source: DragSource::Files(paths),
                origin: at,
                pointer: at,
                started: true,
                target: None,
                resting: None,
            },
        );
        ExternalOver::Tree { fresh: true }
    }

    /// The drag from outside left the panel or was cancelled: it goes. Whether there was one: its
    /// timer is then to end.
    pub fn external_leave(&mut self) -> (left: bool)
        ensures
            left == old(self).dragging_files(),
            *final(self) == (if left {
                old(self).without_drag()
            } else {
                *old(self)
            }),
    {
        let external: bool = match &self.drag {
            Some(drag) => is_external(&drag.source),
            None => false,
        };
        if external {
            self.drag = None;
        }
        external
    }

    /// Where files dropped at a point go: they open, or they are copied into the folder the drag
    /// targets there.
    pub open spec fn external_drop_of(self, frame: Frame, at: Point) -> ExternalDrop<Seq<char>> {
        if self.opens(frame, at) {
            ExternalDrop::Open
        } else {
            match self.drag {
                Some(drag) => match drag.target {
                    Some(folder) => ExternalDrop::CopyInto(folder@),
                    None => ExternalDrop::Refused,
                },
                None => ExternalDrop::Refused,
            }
        }
    }

    /// Files were dropped at a point, the drag's target already the one there.
    pub fn external_drop(&mut self, frame: &Frame, at: Point) -> (dropped: ExternalDrop<String>)
        ensures
            (match dropped {
                ExternalDrop::Open => ExternalDrop::Open,
                ExternalDrop::CopyInto(folder) => ExternalDrop::CopyInto(folder@),
                ExternalDrop::Refused => ExternalDrop::Refused,
            }) == old(self).external_drop_of(*frame, at),
            *final(self) == (if old(self).dragging_files() {
                old(self).without_drag()
            } else {
                *old(self)
            }),
    {
        let opens: bool = self.opens_at(frame, at);
        let folder: Option<String> = match &self.drag {
            Some(drag) => drag.target.clone(),
            None => None,
        };
        let _ = self.external_leave();
        if opens {
            return ExternalDrop::Open;
        }
        match folder {
            Some(folder) => ExternalDrop::CopyInto(folder),
            None => ExternalDrop::Refused,
        }
    }
}

/// Every way a drag ends leaves none: after a cancel, a release or a lost capture a later release
/// drops nothing.
pub proof fn an_ended_drag_drops_nothing(view: NotebookView, left: bool, past: bool)
    ensures
        !view.without_drag().dragging(),
        view.without_drag().drag_moved(left, past) == (view.without_drag(), DragMove::Ignored),
        !left ==> !view.drag_moved(left, past).0.dragging(),
{
}

/// A drag starts only past the drag distance with the button down, and only once.
pub proof fn a_drag_starts_past_the_distance(view: NotebookView, left: bool, past: bool)
    ensures
        view.drag_moved(left, past).1 == DragMove::Started <==> left && past && view.drag is Some
            && !view.dragging(),
        view.drag_moved(left, past).1 == DragMove::Started ==> view.drag_moved(left, past).0.dragging(),
{
}

} // verus!
