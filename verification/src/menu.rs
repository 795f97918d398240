//! Actions of the core-selection menu panel.

use vstd::prelude::*;

verus! {

/// What a menu interaction resolved to.
#[derive(Clone, Copy, Debug, PartialEq, Eq, Structural)]
pub enum MenuAction {
    /// Leave the panel.
    Back,
    /// Cycle the sort order of the listed cores.
    ChangeSort,
    /// Open core management.
    Manage,
    /// Pick a core image from the filesystem.
    ManualLoad,
    /// Launch the core at this list index.
    ExecuteCore(usize),
    /// Select the core at this list index.
    SelectCore(usize),
    /// Show details of the core at this list index.
    ShowCoreDetails(usize),
}

/// How a menu widget maps its generic interactions onto a panel's actions.
pub trait MenuReturn where Self: core::marker::Sized {
    /// The action of the widget's back interaction, if the panel has one.
    fn back() -> Option<Self>;

    /// The details action derived from this action, if it has one.
    fn into_details(self) -> Option<Self>;

    /// The action of the widget's sort interaction, if the panel has one.
    fn sort() -> Option<Self>;
}

impl MenuReturn for MenuAction {
    fn back() -> (r: Option<Self>)
        ensures
            r == Some(MenuAction::Back),
    {
        Some(MenuAction::Back)
    }

    fn into_details(self) -> (r: Option<Self>)
        ensures
            r == match self {
                MenuAction::ExecuteCore(i) => Some(MenuAction::ShowCoreDetails(i)),
                _ => None::<MenuAction>,
            },
    {
        match self {
            MenuAction::ExecuteCore(i) => Some(MenuAction::ShowCoreDetails(i)),
            _ => None,
        }
    }

    fn sort() -> (r: Option<Self>)
        ensures
            r == Some(MenuAction::ChangeSort),
    {
        Some(Self::ChangeSort)
    }
}

/// What one interaction of the core-selection panel decides. The panel
/// widget and the catalog queries live outside the engine; the decision
/// from a resolved action is fixed here.
#[derive(Clone, Copy, Debug, PartialEq, Eq, Structural)]
pub enum PanelStep {
    /// Leave the panel with nothing chosen.
    Leave,
    /// Cycle the sort order and list the cores again.
    Resort,
    /// Open core management.
    OpenManage,
    /// Launch the core at this list index.
    Launch(usize),
    /// Show details of the core at this list index.
    ShowDetails(usize),
    /// Open the filesystem picker to load a core manually.
    PickFile,
    /// Show the list again, unchanged.
    Stay,
}

/// The decision the selection panel takes on a resolved action: selecting a
/// listed core ends the panel with that core; an index beyond the list is
/// ignored.
pub open spec fn spec_select_core_step(action: MenuAction, count: int) -> PanelStep {
    match action {
        MenuAction::Back => PanelStep::Leave,
        MenuAction::SelectCore(i) => if i < count {
            PanelStep::Launch(i)
        } else {
            PanelStep::Stay
        },
        MenuAction::ChangeSort => PanelStep::Resort,
        _ => PanelStep::Stay,
    }
}

/// Decide what the core-selection panel does with a resolved action, given
/// how many cores are listed.
pub fn select_core_step(action: MenuAction, count: usize) -> (r: PanelStep)
    ensures
        r == spec_select_core_step(action, count as int),
{
    match action {
        MenuAction::Back => PanelStep::Leave,
        MenuAction::SelectCore(i) => if i < count {
            PanelStep::Launch(i)
        } else {
            PanelStep::Stay
        },
        MenuAction::ChangeSort => PanelStep::Resort,
        _ => PanelStep::Stay,
    }
}

/// The decision the cores-menu panel takes on a resolved action: executing
/// or selecting a listed core launches it, and an index beyond the list is
/// ignored.
pub open spec fn spec_cores_panel_step(action: MenuAction, count: int) -> PanelStep {
    match action {
        MenuAction::Back => PanelStep::Leave,
        MenuAction::ChangeSort => PanelStep::Resort,
        MenuAction::Manage => PanelStep::OpenManage,
        MenuAction::ManualLoad => PanelStep::PickFile,
        MenuAction::ExecuteCore(i) => if i < count {
            PanelStep::Launch(i)
        } else {
            PanelStep::Stay
        },
        MenuAction::SelectCore(i) => if i < count {
            PanelStep::Launch(i)
        } else {
            PanelStep::Stay
        },
        MenuAction::ShowCoreDetails(i) => if i < count {
            PanelStep::ShowDetails(i)
        } else {
            PanelStep::Stay
        },
    }
}

/// Decide what the cores-menu panel does with a resolved action, given how
/// many cores are listed.
pub fn cores_panel_step(action: MenuAction, count: usize) -> (r: PanelStep)
    ensures
        r == spec_cores_panel_step(action, count as int),
{
    match action {
        MenuAction::Back => PanelStep::Leave,
        MenuAction::ChangeSort => PanelStep::Resort,
        MenuAction::Manage => PanelStep::OpenManage,
        MenuAction::ManualLoad => PanelStep::PickFile,
        MenuAction::ExecuteCore(i) => if i < count {
            PanelStep::Launch(i)
        } else {
            PanelStep::Stay
        },
        MenuAction::SelectCore(i) => if i < count {
            PanelStep::Launch(i)
        } else {
            PanelStep::Stay
        },
        MenuAction::ShowCoreDetails(i) => if i < count {
            PanelStep::ShowDetails(i)
        } else {
            PanelStep::Stay
        },
    }
}

impl Default for MenuAction {
    /// The default interaction backs out of the panel.
    fn default() -> (r: Self)
        ensures
            r == MenuAction::Back,
    {
        MenuAction::Back
    }
}

} // verus!
