//! The state of the preview pane: the selection it is showing.

use vstd::prelude::*;
use crate::content_block::ContentBlock;
use crate::decision::{
    decide, decision, decision_view, guessed_mime, resolves_well, selected_path, MimeGuess,
    PreviewDecision, Selection,
};
use crate::media_type::MimeResolutionError;

verus! {

/// What the pane is told by the file list.
#[derive(Debug, Clone, PartialEq, Eq)]
pub enum Msg {
    /// The selection changed to this entry, or to none.
    NewSelection(Option<Selection>),
}

/// The pane's state.
#[derive(Debug, Clone, PartialEq, Eq)]
pub struct Model {
    selection: Option<Selection>,
}

impl View for Model {
    type V = Option<Seq<char>>;

    /// The path of the selected entry, if one is selected.
    closed spec fn view(&self) -> Option<Seq<char>> {
        match self.selection {
            Some(chosen) => Some(chosen.item@),
            None => None,
        }
    }
}

impl Msg {
    /// The path of the entry that the message selects, if it selects one.
    pub open spec fn selected(&self) -> Option<Seq<char>> {
        match self {
            Msg::NewSelection(Some(chosen)) => Some(chosen.item@),
            Msg::NewSelection(None) => None,
        }
    }
}

impl Model {
    /// The state of a pane that has not been told of any selection.
    pub fn new() -> (model: Model)
        ensures
            model@ is None,
    {
        Model { selection: None }
    }

    /// The selected entry.
    pub fn selection(&self) -> (selection: Option<&Selection>)
        ensures
            selected_path(selection) == self@,
    {
        self.selection.as_ref()
    }

    /// Takes in a message. The new selection replaces the old one whole. The
    /// result is the path of the file to read and sniff before the next
    /// decision, and none where nothing is selected and no file is to be touched.
    pub fn update(&mut self, event: Msg) -> (target: Option<String>)
        ensures
            final(self)@ == event.selected(),
            match target {
                Some(path) => event.selected() == Some(path@),
                None => event.selected() is None,
            },
    {
        match event {
            Msg::NewSelection(selection) => {
                let target = match &selection {
                    Some(chosen) => Some(chosen.item.clone()),
                    None => None,
                };
                self.selection = selection;
                target
            },
        }
    }

    /// Decides what the pane shows for the current selection, given the content
    /// block of its file and the sniffer's guess.
    pub fn decide(&self, block: &ContentBlock, guess: &MimeGuess) -> (outcome: Result<
        PreviewDecision,
        MimeResolutionError,
    >)
        ensures
            decision_view(outcome) == decision(self@, block@, guessed_mime(guess)),
            self@ is Some ==> resolves_well(guessed_mime(guess)),
    {
        decide(self.selection.as_ref(), block, guess)
    }
}

} // verus!
