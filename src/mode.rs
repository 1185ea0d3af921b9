use vstd::prelude::*;

verus! {

/// The editor's interaction modes.
#[derive(Clone, Copy, Debug, PartialEq, Eq, Structural, Hash)]
pub enum AppMode {
    Translate,
    Brush,
}

impl Default for AppMode {
    /// The editor starts in translate mode.
    fn default() -> (r: AppMode)
        ensures
            r == AppMode::Translate,
    {
        AppMode::Translate
    }
}

impl AppMode {
    /// The name under which a mode change is announced to the host page.
    pub fn name(&self) -> (r: &'static str)
        ensures
            *self == AppMode::Translate ==> r@ == "Translate"@,
            *self == AppMode::Brush ==> r@ == "Brush"@,
    {
        match self {
            AppMode::Translate => "Translate",
            AppMode::Brush => "Brush",
        }
    }

    /// The mode with this name; `None` for any other name.
    pub fn from_name(name: &String) -> (r: Option<AppMode>)
        ensures
            r == Some(AppMode::Translate) <==> name@ == "Translate"@,
            r == Some(AppMode::Brush) <==> name@ == "Brush"@,
            r is None <==> (name@ != "Translate"@ && name@ != "Brush"@),
    {
        proof {
            reveal_strlit("Translate");
            reveal_strlit("Brush");
            assert("Translate"@.len() != "Brush"@.len());
        }
        let translate = "Translate".to_owned();
        let brush = "Brush".to_owned();
        if *name == translate {
            Some(AppMode::Translate)
        } else if *name == brush {
            Some(AppMode::Brush)
        } else {
            None
        }
    }
}

/// The current mode and the set of modes in which clicking selects.
#[derive(Clone, Copy, Debug, PartialEq, Eq, Structural)]
pub struct AppModeState {
    pub current_mode: AppMode,
    /// Whether clicking selects in translate mode.
    pub translate_selects: bool,
    /// Whether clicking selects in brush mode.
    pub brush_selects: bool,
}

impl AppModeState {
    /// The modes in which selection is enabled.
    pub open spec fn selection_enabled_modes(&self) -> Set<AppMode> {
        Set::new(
            |m: AppMode|
                match m {
                    AppMode::Translate => self.translate_selects,
                    AppMode::Brush => self.brush_selects,
                },
        )
    }

    /// Switches the mode; the modes that select stay as they were.
    pub fn set_mode(&mut self, mode: AppMode)
        ensures
            final(self).current_mode == mode,
            final(self).selection_enabled_modes() == old(self).selection_enabled_modes(),
    {
        self.current_mode = mode;
    }

    /// Whether the editor is in `mode`.
    pub fn is_mode(&self, mode: AppMode) -> (r: bool)
        ensures
            r == (self.current_mode == mode),
    {
        match (self.current_mode, mode) {
            (AppMode::Translate, AppMode::Translate) => true,
            (AppMode::Brush, AppMode::Brush) => true,
            _ => false,
        }
    }

    /// Whether clicking selects in the current mode.
    pub fn is_selection_enabled(&self) -> (r: bool)
        ensures
            r == self.selection_enabled_modes().contains(self.current_mode),
    {
        match self.current_mode {
            AppMode::Translate => self.translate_selects,
            AppMode::Brush => self.brush_selects,
        }
    }

    /// Lets clicks select in `mode`.
    pub fn enable_selection_for_mode(&mut self, mode: AppMode)
        ensures
            final(self).current_mode == old(self).current_mode,
            final(self).selection_enabled_modes() == old(self).selection_enabled_modes().insert(mode),
    {
        match mode {
            AppMode::Translate => self.translate_selects = true,
            AppMode::Brush => self.brush_selects = true,
        }
        assert(self.selection_enabled_modes() =~= old(self).selection_enabled_modes().insert(mode));
    }

    /// Stops clicks from selecting in `mode`.
    pub fn disable_selection_for_mode(&mut self, mode: AppMode)
        ensures
            final(self).current_mode == old(self).current_mode,
            final(self).selection_enabled_modes() == old(self).selection_enabled_modes().remove(mode),
    {
        match mode {
            AppMode::Translate => self.translate_selects = false,
            AppMode::Brush => self.brush_selects = false,
        }
        assert(self.selection_enabled_modes() =~= old(self).selection_enabled_modes().remove(mode));
    }
}

impl Default for AppModeState {
    /// Translate mode, with selection enabled in translate mode only.
    fn default() -> (r: AppModeState)
        ensures
            r.current_mode == AppMode::Translate,
            r.selection_enabled_modes() == Set::<AppMode>::empty().insert(AppMode::Translate),
    {
        let r = AppModeState { current_mode: AppMode::Translate, translate_selects: true, brush_selects: false };
        assert(r.selection_enabled_modes() =~= Set::<AppMode>::empty().insert(AppMode::Translate));
        r
    }
}

/// Brush mode samples the scene under the cursor only while the left button
/// is held and no earlier brush evaluation is still running.
pub fn brush_should_sample(modes: &AppModeState, task_running: bool, button_pressed: bool) -> (r: bool)
    ensures
        r == (modes.current_mode == AppMode::Brush && !task_running && button_pressed),
{
    modes.is_mode(AppMode::Brush) && !task_running && button_pressed
}

/// The translation handles go away when the mode has just changed to one
/// other than translate.
pub fn translation_handles_teardown(modes: &AppModeState, mode_changed: bool) -> (r: bool)
    ensures
        r == (mode_changed && modes.current_mode != AppMode::Translate),
{
    mode_changed && !modes.is_mode(AppMode::Translate)
}

/// The currently selected entity, by its engine-side id.
#[derive(Clone, Copy, Debug, PartialEq, Eq, Structural)]
pub struct SelectionState {
    pub selected_entity: Option<u64>,
}

/// What a click changed: the entity to deselect and the one to select.
#[derive(Clone, Copy, Debug, PartialEq, Eq, Structural)]
pub struct SelectionChange {
    pub deselected: Option<u64>,
    pub selected: Option<u64>,
}

impl SelectionState {
    /// A click on `target`. Nothing changes when selection is off in the
    /// current mode or the target is already selected; otherwise the
    /// previous selection is dropped and the target becomes selected.
    pub fn handle_click(&mut self, modes: &AppModeState, target: u64) -> (r: SelectionChange)
        ensures
            (!modes.selection_enabled_modes().contains(modes.current_mode)
                || old(self).selected_entity == Some(target))
                ==> r == (SelectionChange { deselected: None, selected: None }) && *final(self) == *old(self),
            (modes.selection_enabled_modes().contains(modes.current_mode)
                && old(self).selected_entity != Some(target)) ==> {
                &&& r == (SelectionChange { deselected: old(self).selected_entity, selected: Some(target) })
                &&& final(self).selected_entity == Some(target)
            },
    {
        if !modes.is_selection_enabled() {
            return SelectionChange { deselected: None, selected: None };
        }
        let same = match self.selected_entity {
            Some(e) => e == target,
            None => false,
        };
        if same {
            return SelectionChange { deselected: None, selected: None };
        }
        let previous = self.selected_entity;
        self.selected_entity = Some(target);
        SelectionChange { deselected: previous, selected: Some(target) }
    }

    /// After the mode changed: a mode without selection clears it.
    pub fn on_change_app_mode(&mut self, modes: &AppModeState, mode_changed: bool)
        ensures
            (mode_changed && !modes.selection_enabled_modes().contains(modes.current_mode))
                ==> final(self).selected_entity is None,
            !(mode_changed && !modes.selection_enabled_modes().contains(modes.current_mode))
                ==> *final(self) == *old(self),
    {
        if !mode_changed || modes.is_selection_enabled() {
            return;
        }
        self.selected_entity = None;
    }
}

} // verus!
