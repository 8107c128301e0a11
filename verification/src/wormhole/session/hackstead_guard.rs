//! The guard of a session's hackstead.
//!
//! The hackstead of a live session changes in one way only: a new state takes
//! the place of the old one, and what changed is handed out for the client.
use crate::diff::{diff, diff_spec, apply_spec, Patch, PatchView};
use crate::hackstead::{Hackstead, HacksteadView};
use crate::wormhole::note::{EditNote, EditNoteView};
use crate::wormhole::session::Orifice;
use vstd::prelude::*;

verus! {

/// Keeps a hackstead, and lets it change only as a whole.
#[derive(Debug)]
pub struct HacksteadGuard {
    hackstead: Hackstead,
}

impl View for HacksteadGuard {
    type V = HacksteadView;

    closed spec fn view(&self) -> HacksteadView {
        self.hackstead@
    }
}

/// The note that carries a patch through an orifice.
pub open spec fn edit_note(orifice: Orifice, patch: PatchView) -> EditNoteView {
    match orifice {
        Orifice::Json => EditNoteView::Json(patch),
        Orifice::Bincode => EditNoteView::Bincode(patch),
    }
}

impl HacksteadGuard {
    /// Guards a hackstead.
    pub fn new(hs: Hackstead) -> (guard: HacksteadGuard)
        ensures
            guard@ == hs@,
    {
        HacksteadGuard { hackstead: hs }
    }

    /// The hackstead that is guarded.
    pub fn get(&self) -> (hs: &Hackstead)
        ensures
            hs@ == self@,
    {
        &self.hackstead
    }

    /// Puts a new state in the place of the old one. Hands out whether anything
    /// changed, and the patch that turns the old state into the new one.
    pub fn apply(&mut self, new: Hackstead) -> (changed: (bool, Patch))
        ensures
            final(self)@ == new@,
            changed.0 == (old(self)@ != new@),
            changed.1@ == diff_spec(old(self)@, new@),
            apply_spec(old(self)@, changed.1@) == Some(new@),
    {
        let patch = diff(&self.hackstead, &new);
        let changes = !patch.is_empty();
        self.hackstead = new;
        (changes, patch)
    }

    /// Puts a new state in the place of the old one, and hands out the note
    /// that tells a client on the given orifice what changed.
    pub fn set(&mut self, new: Hackstead, orifice: Orifice) -> (note: EditNote)
        ensures
            final(self)@ == new@,
            note@ == edit_note(orifice, diff_spec(old(self)@, new@)),
    {
        let (_, patch) = self.apply(new);
        match orifice {
            Orifice::Json => EditNote::Json(patch),
            Orifice::Bincode => EditNote::Bincode(patch),
        }
    }
}

} // verus!
