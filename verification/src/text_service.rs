use vstd::prelude::*;

use crate::pager::EditState;
use std::collections::HashMap;

verus! {

/// The input modes of the IME's configuration.
#[derive(PartialEq, Eq, Structural, Clone, Copy, Debug)]
pub enum AppInputMode {
    Continuous,
    Classic,
    Manual,
}

/// What the text service does with the candidate window after an engine
/// reply.
#[derive(PartialEq, Eq, Structural, Clone, Copy, Debug)]
pub enum CandidateAction {
    /// Pass the (empty) reply to the candidate window, with no position.
    Clear,
    /// Position the candidate window at the text and show the reply.
    Show,
    /// Leave the candidate window alone.
    Nothing,
}

/// The service's state and candidate action after an engine reply.
#[derive(PartialEq, Eq, Structural, Clone, Copy, Debug)]
pub struct CommandFollowup {
    /// Whether the service is editing.
    pub editing: bool,
    pub candidates: CandidateAction,
}

/// After a reply the service is editing unless the buffer is empty; an empty
/// buffer clears the candidate window, and otherwise the candidates are shown
/// only in classic mode.
pub open spec fn command_followup_spec(edit_state: EditState, input_mode: AppInputMode) -> CommandFollowup {
    CommandFollowup {
        editing: edit_state != EditState::Empty,
        candidates: if edit_state == EditState::Empty {
            CandidateAction::Clear
        } else if input_mode == AppInputMode::Classic {
            CandidateAction::Show
        } else {
            CandidateAction::Nothing
        },
    }
}

/// The followup of a reply, as `command_followup_spec` says.
pub fn command_followup(edit_state: EditState, input_mode: AppInputMode) -> (r: CommandFollowup)
    ensures
        r == command_followup_spec(edit_state, input_mode),
{
    let editing = edit_state != EditState::Empty;
    let candidates = if edit_state == EditState::Empty {
        CandidateAction::Clear
    } else if input_mode == AppInputMode::Classic {
        CandidateAction::Show
    } else {
        CandidateAction::Nothing
    };
    CommandFollowup { editing, candidates }
}

/// Whether the IME is on, and whether that can currently be changed.
#[derive(PartialEq, Eq, Structural, Clone, Copy, Debug)]
pub struct EnabledState {
    pub locked: bool,
    pub enabled: bool,
}

impl EnabledState {
    /// The state a text service starts in: switched off and not locked.
    pub fn new() -> (r: Self)
        ensures
            !r.locked,
            !r.enabled,
    {
        EnabledState { locked: false, enabled: false }
    }

    /// Switches the IME on or off, unless the state is locked.
    pub fn set_enabled(&mut self, on_off: bool)
        ensures
            final(self).locked == old(self).locked,
            final(self).enabled == (if old(self).locked {
                old(self).enabled
            } else {
                on_off
            }),
    {
        if self.locked {
            return;
        }
        if self.enabled != on_off {
            self.enabled = on_off;
        }
    }
}

/// The flags a text service keeps between engine replies: whether it is
/// switched on (and locked), and whether it is editing.
#[derive(PartialEq, Eq, Structural, Clone, Copy, Debug)]
pub struct ServiceFlags {
    pub state: EnabledState,
    pub editing: bool,
}

impl ServiceFlags {
    /// The flags of a new text service: off, unlocked, not editing.
    pub fn new() -> (r: Self)
        ensures
            !r.state.locked,
            !r.state.enabled,
            !r.editing,
    {
        ServiceFlags { state: EnabledState::new(), editing: false }
    }

    /// Takes in an engine reply: the service is editing unless the buffer is
    /// empty, and the candidate window is handled as `command_followup` says.
    pub fn on_reply(&mut self, edit_state: EditState, input_mode: AppInputMode) -> (r:
        CandidateAction)
        ensures
            final(self).state == old(self).state,
            final(self).editing == (edit_state != EditState::Empty),
            r == command_followup_spec(edit_state, input_mode).candidates,
    {
        let f = command_followup(edit_state, input_mode);
        self.editing = f.editing;
        f.candidates
    }
}

/// Whether the configuration is in classic mode.
pub fn is_classic_mode(mode: AppInputMode) -> (r: bool)
    ensures
        r == (mode == AppInputMode::Classic),
{
    mode == AppInputMode::Classic
}

/// Whether the configuration is in manual mode.
pub fn is_manual_mode(mode: AppInputMode) -> (r: bool)
    ensures
        r == (mode == AppInputMode::Manual),
{
    mode == AppInputMode::Manual
}

/// The DPI Windows uses for unscaled windows.
pub const USER_DEFAULT_SCREEN_DPI: u32 = 96;

/// The DPI of a window: the default when the thread is not DPI aware,
/// otherwise the parent's, or the window's own when the parent reports none.
pub fn window_dpi(dpi_aware: bool, parent_dpi: u32, own_dpi: u32) -> (r: u32)
    ensures
        r == (if !dpi_aware {
            USER_DEFAULT_SCREEN_DPI
        } else if parent_dpi == 0 {
            own_dpi
        } else {
            parent_dpi
        }),
{
    if !dpi_aware {
        return USER_DEFAULT_SCREEN_DPI;
    }
    if parent_dpi == 0 {
        own_dpi
    } else {
        parent_dpi
    }
}

/// The document contexts of the requests sent to the engine and not yet
/// answered, by request id: a reply is applied to the context its request
/// came from.
pub struct ContextCache<C> {
    contexts: HashMap<u32, C>,
}

impl<C> ContextCache<C> {
    /// The contexts waiting for a reply, by request id.
    pub closed spec fn view(&self) -> Map<u32, C> {
        self.contexts@
    }

    /// No request waiting.
    pub fn new() -> (r: Self)
        ensures
            r.view() == Map::<u32, C>::empty(),
    {
        ContextCache { contexts: HashMap::new() }
    }

    /// Files the context of the request `id` (replacing any earlier one under
    /// that id).
    pub fn remember(&mut self, id: u32, context: C)
        ensures
            final(self).view() == old(self).view().insert(id, context),
    {
        broadcast use vstd::std_specs::hash::group_hash_axioms;

        self.contexts.insert(id, context);
    }

    /// Takes out the context of the request `id`, if one is waiting.
    pub fn take(&mut self, id: u32) -> (r: Option<C>)
        ensures
            final(self).view() == old(self).view().remove(id),
            match r {
                Some(c) => old(self).view().contains_key(id) && c == old(self).view()[id],
                None => !old(self).view().contains_key(id),
            },
    {
        broadcast use vstd::std_specs::hash::group_hash_axioms;

        self.contexts.remove(&id)
    }
}

/// The reply to a request is applied to the context that the request was
/// sent from, and only once: taking it back gives the context filed under its
/// id and leaves nothing under that id.
pub proof fn lemma_reply_finds_its_context<C>(pending: Map<u32, C>, id: u32, context: C)
    ensures
        pending.insert(id, context).contains_key(id),
        pending.insert(id, context)[id] == context,
        !pending.insert(id, context).remove(id).contains_key(id),
        forall|other: u32|
            other != id ==> #[trigger] pending.insert(id, context).remove(id).contains_key(other)
                == pending.contains_key(other),
{
}

/// After a reply the service is editing exactly when the buffer is not
/// empty; an empty buffer clears the candidate window; otherwise the
/// candidate window is shown in classic mode and left alone in every other
/// mode.
pub proof fn lemma_candidates_shown_only_in_classic(edit_state: EditState, input_mode: AppInputMode)
    ensures
        command_followup_spec(edit_state, input_mode).editing == (edit_state != EditState::Empty),
        edit_state == EditState::Empty ==> command_followup_spec(edit_state, input_mode).candidates
            == CandidateAction::Clear,
        edit_state != EditState::Empty ==> (command_followup_spec(edit_state, input_mode).candidates
            == CandidateAction::Show <==> input_mode == AppInputMode::Classic),
        edit_state != EditState::Empty && input_mode != AppInputMode::Classic
            ==> command_followup_spec(edit_state, input_mode).candidates == CandidateAction::Nothing,
{
}

} // verus!
