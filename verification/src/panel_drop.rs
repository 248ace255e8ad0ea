//! Files dragged onto the sidebar panel: what the drop target remembers and answers. The drag's
//! files are read once, when it enters; a drop is handed on, never handled inside it.

use vstd::prelude::*;

verus! {

pub const DROPEFFECT_NONE: u32 = 0;

pub const DROPEFFECT_COPY: u32 = 1;

/// What a drag is answered: a copy where it is accepted and its source allows one, else nothing.
pub open spec fn effect_of(offered: u32, accepted: bool) -> u32 {
    if accepted && offered & DROPEFFECT_COPY != 0 {
        DROPEFFECT_COPY
    } else {
        DROPEFFECT_NONE
    }
}

pub fn answer(offered: u32, accepted: bool) -> (effect: u32)
    ensures
        effect == effect_of(offered, accepted),
{
    if accepted && offered & DROPEFFECT_COPY != 0 {
        DROPEFFECT_COPY
    } else {
        DROPEFFECT_NONE
    }
}

/// The files that the drag in progress offers; none for a drag that offers none.
#[derive(Debug)]
pub struct PanelTarget {
    pub files: Vec<String>,
}

/// What a drop comes to.
#[derive(Debug)]
pub enum Drop {
    /// Nothing to take, or nothing may be copied: the drag ends as if it left.
    Leave,
    /// These files are dropped.
    Files(Vec<String>),
}

/// What a drop comes to, and that its files are forgotten.
pub open spec fn let_go(
    before: PanelTarget,
    after: PanelTarget,
    offered: Option<u32>,
    dropped: Drop,
) -> bool {
    &&& after.files@ == Seq::<String>::empty()
    &&& match dropped {
        Drop::Files(files) => files == before.files && files.len() > 0 && (offered matches Some(
            effect,
        ) && effect & DROPEFFECT_COPY != 0),
        Drop::Leave => before.files.len() == 0 || !(offered matches Some(effect) && effect
            & DROPEFFECT_COPY != 0),
    }
}

impl PanelTarget {
    pub fn new() -> (target: Self)
        ensures
            target.files@ == Seq::<String>::empty(),
    {
        PanelTarget { files: Vec::new() }
    }

    /// A drag entered with `files`; reports whether there is anything to answer for.
    pub fn drag_enter(&mut self, files: Vec<String>) -> (offered: bool)
        ensures
            final(self).files == files,
            offered == (files.len() > 0),
    {
        let offered: bool = files.len() > 0;
        self.files = files;
        offered
    }

    /// Whether a move of the drag asks the view: only where files are offered.
    pub fn drag_over(&self) -> (asks: bool)
        ensures
            asks == (self.files.len() > 0),
    {
        self.files.len() > 0
    }

    /// The drag left.
    pub fn drag_leave(&mut self)
        ensures
            final(self).files@ == Seq::<String>::empty(),
    {
        self.files = Vec::new();
    }

    /// The drag was let go: its files are handed on where there are any and a copy is allowed.
    /// Either way the target forgets them.
    pub fn drop_on(&mut self, offered: Option<u32>) -> (dropped: Drop)
        ensures
            let_go(*old(self), *final(self), offered, dropped),
    {
        let mut files: Vec<String> = Vec::new();
        std::mem::swap(&mut self.files, &mut files);
        let allowed: bool = match offered {
            Some(effect) => effect & DROPEFFECT_COPY != 0,
            None => false,
        };
        if files.len() == 0 || !allowed {
            Drop::Leave
        } else {
            Drop::Files(files)
        }
    }
}

/// A drag that is not accepted is never answered with a copy, and neither is one whose source
/// allows none.
pub proof fn only_an_allowed_copy_is_answered(offered: u32, accepted: bool)
    ensures
        effect_of(offered, accepted) == DROPEFFECT_COPY <==> accepted && offered & DROPEFFECT_COPY
            != 0,
        effect_of(offered, accepted) == DROPEFFECT_COPY || effect_of(offered, accepted)
            == DROPEFFECT_NONE,
{
}

} // verus!
