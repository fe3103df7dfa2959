//! The messages that drive the terminal interface.

use vstd::prelude::*;
use crate::state::Screen;

verus! {

/// Something the user asked for, or a tick of the clock.
#[derive(Debug, Clone)]
pub enum Message {
    // Navigation
    NavigateScreen(Screen),
    NextTab,
    PrevTab,
    // Timer
    /// Start a timer on the project with this id.
    StartTimer(i64),
    StopTimer,
    CancelTimer,
    ToggleTimer,
    Tick,
    // Entries
    SelectNextEntry,
    SelectPrevEntry,
    DeleteSelectedEntry,
    EditSelectedEntry,
    NewEntry,
    // Projects
    SelectNextProject,
    SelectPrevProject,
    NewProject,
    ArchiveSelectedProject,
    ToggleArchivedProjects,
    // Clients
    SelectNextClient,
    SelectPrevClient,
    NewClient,
    DeleteSelectedClient,
    // Forms
    SubmitEntryForm,
    CancelForm,
    NextField,
    PrevField,
    ToggleBillable,
    // Input
    InputChar(char),
    InputBackspace,
    InputLeft,
    InputRight,
    // Project picker
    OpenProjectPicker,
    SelectNextPickerItem,
    SelectPrevPickerItem,
    ConfirmPicker,
    // Confirm dialog
    ConfirmYes,
    ConfirmNo,
    // Reports
    NextReportPeriod,
    PrevReportPeriod,
    ExportCsv,
    ExportPdf,
    // Modal
    OpenHelp,
    CloseModal,
    // App
    Quit,
    Refresh,
    SetStatus(String),
}

} // verus!
