//! Decisions of map acquisition: load, regenerate the presets once, retry the
//! load once, and otherwise give up. The caller performs each action and
//! reports what came of it.

use vstd::prelude::*;

verus! {

/// Where map acquisition stands.
#[derive(Debug, Clone, Copy, PartialEq, Eq, Structural)]
pub enum LoadState {
    /// The first load is under way.
    Loading,
    /// The first load failed; the presets are being generated, or, once
    /// `generated` is set, the one retried load is under way.
    Regenerating { generated: bool },
    /// The maps are loaded.
    Loaded,
    /// Acquisition gave up.
    Failed,
}

/// What came of the last action.
#[derive(Debug, Clone, Copy, PartialEq, Eq, Structural)]
pub enum LoadEvent {
    LoadSucceeded,
    LoadFailed,
    GenerationSucceeded,
    GenerationFailed,
}

/// What the caller does next.
#[derive(Debug, Clone, Copy, PartialEq, Eq, Structural)]
pub enum LoadAction {
    /// Load the maps from their files.
    Load,
    /// Generate and save the preset maps.
    Generate,
    /// Nothing more: the state is final, or the event did not fit it.
    Stop,
}

impl LoadState {
    pub open spec fn is_final(self) -> bool {
        self is Loaded || self is Failed
    }
}

/// The transition on `event` from `state`, and the action that follows it.
pub open spec fn transition(state: LoadState, event: LoadEvent) -> (LoadState, LoadAction) {
    match (state, event) {
        (LoadState::Loading, LoadEvent::LoadSucceeded) => (LoadState::Loaded, LoadAction::Stop),
        (LoadState::Loading, LoadEvent::LoadFailed) => (
            LoadState::Regenerating { generated: false },
            LoadAction::Generate,
        ),
        (LoadState::Regenerating { generated: false }, LoadEvent::GenerationSucceeded) => (
            LoadState::Regenerating { generated: true },
            LoadAction::Load,
        ),
        (LoadState::Regenerating { generated: false }, LoadEvent::GenerationFailed) => (
            LoadState::Failed,
            LoadAction::Stop,
        ),
        (LoadState::Regenerating { generated: true }, LoadEvent::LoadSucceeded) => (
            LoadState::Loaded,
            LoadAction::Stop,
        ),
        (LoadState::Regenerating { generated: true }, LoadEvent::LoadFailed) => (
            LoadState::Failed,
            LoadAction::Stop,
        ),
        _ => (state, LoadAction::Stop),
    }
}

/// Acquisition starts with a load.
pub fn start() -> (r: (LoadState, LoadAction))
    ensures
        r == (LoadState::Loading, LoadAction::Load),
{
    (LoadState::Loading, LoadAction::Load)
}

/// Decides what follows `event` in `state`.
pub fn step(state: LoadState, event: LoadEvent) -> (r: (LoadState, LoadAction))
    ensures
        r == transition(state, event),
{
    match (state, event) {
        (LoadState::Loading, LoadEvent::LoadSucceeded) => (LoadState::Loaded, LoadAction::Stop),
        (LoadState::Loading, LoadEvent::LoadFailed) => (
            LoadState::Regenerating { generated: false },
            LoadAction::Generate,
        ),
        (LoadState::Regenerating { generated: false }, LoadEvent::GenerationSucceeded) => (
            LoadState::Regenerating { generated: true },
            LoadAction::Load,
        ),
        (LoadState::Regenerating { generated: false }, LoadEvent::GenerationFailed) => (
            LoadState::Failed,
            LoadAction::Stop,
        ),
        (LoadState::Regenerating { generated: true }, LoadEvent::LoadSucceeded) => (
            LoadState::Loaded,
            LoadAction::Stop,
        ),
        (LoadState::Regenerating { generated: true }, LoadEvent::LoadFailed) => (
            LoadState::Failed,
            LoadAction::Stop,
        ),
        _ => (state, LoadAction::Stop),
    }
}

/// How many more actions acquisition can ask for from `state`.
pub open spec fn actions_left(state: LoadState) -> nat {
    match state {
        LoadState::Loading => 2,
        LoadState::Regenerating { generated: false } => 1,
        LoadState::Regenerating { generated: true } => 0,
        _ => 0,
    }
}

/// Acquisition is bounded: every action it asks for uses up one of at most
/// three (a load, a generation, one retried load), so it cannot loop; a final
/// state never changes.
pub proof fn lemma_bounded(state: LoadState, event: LoadEvent)
    ensures
        transition(state, event).1 != LoadAction::Stop ==> actions_left(transition(state, event).0)
            < actions_left(state),
        state.is_final() ==> transition(state, event) == (state, LoadAction::Stop),
{
}

} // verus!
