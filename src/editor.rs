use vstd::prelude::*;

use crate::frame::SDFRenderEnabled;
use crate::hierarchy::Vec3Bits;
use crate::mode::{AppMode, AppModeState};
use crate::scene::{EntityStore, StoredEntity};

verus! {

/// A command from the host page or another external caller.
#[derive(Clone, Debug)]
pub enum AppCommand {
    SpawnSphereCommand { position: Vec3Bits, scale: u32 },
    SetModeCommand { mode: String },
    SetPostProcessEnabledCommand { enabled: bool },
}

/// What applying a command did.
#[derive(Clone, Copy, Debug, PartialEq, Eq, Structural)]
pub enum CommandEffect {
    /// A sphere was added under this handle.
    Spawned(u64),
    /// No handle was left for a new sphere; nothing changed.
    HandlesExhausted,
    /// The mode is now this one.
    ModeSet(AppMode),
    /// The mode name was not recognised; nothing changed.
    UnknownMode,
    /// Rendering is now enabled or disabled.
    RenderEnabledSet(bool),
}

/// The state external callers act on: the scene's spheres, the interaction
/// mode, and the render-enable gate.
pub struct EditorState {
    pub entities: EntityStore,
    pub modes: AppModeState,
    pub render: SDFRenderEnabled,
}

impl EditorState {
    /// The entity store keeps its handles distinct.
    pub open spec fn wf(&self) -> bool {
        self.entities.wf()
    }

    /// An empty scene in translate mode, with rendering enabled.
    pub fn new() -> (r: EditorState)
        ensures
            r.wf(),
            r.entities.entities@.len() == 0,
            r.modes.current_mode == AppMode::Translate,
            r.render.enabled,
    {
        EditorState { entities: EntityStore::new(), modes: AppModeState::default(), render: SDFRenderEnabled::default() }
    }

    /// Applies one command: spawning adds a sphere at the end of the entity
    /// array, a known mode name switches the mode, and the enable command
    /// sets the render gate. Each leaves the rest of the state alone.
    pub fn apply_command(&mut self, cmd: AppCommand) -> (r: CommandEffect)
        requires
            old(self).wf(),
        ensures
            final(self).wf(),
            match cmd {
                AppCommand::SpawnSphereCommand { position, scale } => {
                    &&& final(self).modes == old(self).modes
                    &&& final(self).render == old(self).render
                    &&& if old(self).entities.next_handle < u64::MAX {
                        &&& r == CommandEffect::Spawned(old(self).entities.next_handle)
                        &&& final(self).entities.entities@ == old(self).entities.entities@.push(
                            StoredEntity { handle: old(self).entities.next_handle, position, scale },
                        )
                        &&& final(self).entities.changed
                    } else {
                        r == CommandEffect::HandlesExhausted && final(self).entities == old(self).entities
                    }
                },
                AppCommand::SetModeCommand { mode } => {
                    &&& final(self).entities == old(self).entities
                    &&& final(self).render == old(self).render
                    &&& final(self).modes.selection_enabled_modes() == old(self).modes.selection_enabled_modes()
                    &&& mode@ == "Translate"@ ==> r == CommandEffect::ModeSet(AppMode::Translate)
                        && final(self).modes.current_mode == AppMode::Translate
                    &&& mode@ == "Brush"@ ==> r == CommandEffect::ModeSet(AppMode::Brush)
                        && final(self).modes.current_mode == AppMode::Brush
                    &&& (mode@ != "Translate"@ && mode@ != "Brush"@) ==> r == CommandEffect::UnknownMode
                        && final(self).modes == old(self).modes
                },
                AppCommand::SetPostProcessEnabledCommand { enabled } => {
                    &&& r == CommandEffect::RenderEnabledSet(enabled)
                    &&& final(self).render.enabled == enabled
                    &&& final(self).entities == old(self).entities
                    &&& final(self).modes == old(self).modes
                },
            },
    {
        match cmd {
            AppCommand::SpawnSphereCommand { position, scale } => {
                match self.entities.spawn_entity(position, scale) {
                    Some(h) => CommandEffect::Spawned(h),
                    None => CommandEffect::HandlesExhausted,
                }
            },
            AppCommand::SetModeCommand { mode } => {
                match AppMode::from_name(&mode) {
                    Some(m) => {
                        self.modes.set_mode(m);
                        CommandEffect::ModeSet(m)
                    },
                    None => CommandEffect::UnknownMode,
                }
            },
            AppCommand::SetPostProcessEnabledCommand { enabled } => {
                self.render.set_render_enabled(enabled);
                CommandEffect::RenderEnabledSet(enabled)
            },
        }
    }
}

} // verus!
