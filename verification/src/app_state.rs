//! The decisions of the application: its state (open documents, current tab, toggles,
//! held modifiers) and, for each event, the next state and the work the interface must do.
use vstd::prelude::*;
use crate::config::{bindable_named, BindableMessage, Config, MouseAction, MouseBinding, MouseButton, MouseInput, MouseModifiers, first_mouse_action};
use crate::document::SidebarTab;
use crate::links::is_page_link;
use crate::page_layout::PageLayout;
use crate::tabs::{index_after_close, tab_index_after_close};
use crate::text::starts_with;

verus! {

/// A request to the viewer of one document, as plain values. Moves are by one step in a
/// direction; the viewer knows the step's length.
#[derive(Debug, Clone, Copy, PartialEq, Eq, Structural)]
pub enum ViewerCommand {
    NextPage,
    PreviousPage,
    PageUp,
    PageDown,
    HalfPageUp,
    HalfPageDown,
    SetPage(usize),
    SetLayout(PageLayout),
    ZoomIn,
    ZoomOut,
    ZoomHome,
    ZoomFit,
    MoveUp,
    MoveDown,
    MoveLeft,
    MoveRight,
    /// A mouse action and whether its button was pressed (true) or released (false).
    MouseAction(MouseAction, bool),
    ToggleLinkHitboxes,
    /// Activate the link of the current page with this index.
    ActivateLink(usize),
    CloseLinkHitboxes,
    FileChanged,
    PrintPdf,
    HighlightSearchResults,
    HideSearchResults,
    JumpToSearchResult(usize),
    NextSearchResult,
    PreviousSearchResult,
    ToggleSearchMethod,
    ShowComment(usize),
    CloseComment,
    Nothing,
}

/// A display setting that applies to every viewer.
#[derive(Debug, Clone, Copy, PartialEq, Eq, Structural)]
pub enum ViewerSetting {
    InterfaceDarkMode(bool),
    PdfDarkMode(bool),
    PageBorders(bool),
}

/// What happens to the application, as plain values (paths as text).
#[derive(Debug, Clone)]
pub enum AppEvent {
    /// Open a file and remember it among the recent files.
    OpenFile(String),
    /// Open a file without remembering it.
    OpenTempFile(String),
    /// A viewer for the file at this path was created and added as the last tab.
    DocumentOpened(String),
    /// Close the tab showing this file, if any.
    CloseFile(String),
    OpenNewFileFinder,
    /// The file picked in the file dialog, if any.
    FileDialogResult(Option<String>),
    /// A request for the current viewer; `jumpable` says whether it jumps elsewhere in the
    /// document, so that the location is recorded before and after.
    Viewer { command: ViewerCommand, jumpable: bool },
    OpenTab(usize),
    CloseTab(usize),
    CloseActiveTab,
    PreviousTab,
    NextTab,
    /// The file at this path changed on disk.
    FileChanged(String),
    ToggleDarkModeUi,
    ToggleDarkModePdf,
    TogglePageBorders,
    SearchHover(bool),
    MouseButtonDown(MouseButton),
    MouseButtonUp(MouseButton),
    ShiftPressed(bool),
    CtrlPressed(bool),
    ModifiersChanged { shift: bool, ctrl: bool },
    /// A scroll of whole lines, up or down.
    ScrollLines { up: bool },
    /// Go to a bookmarked page of a file.
    GoToBookmark { path: String, page: usize },
    ToggleSidebar,
    SetSidebar(SidebarTab),
    OutlineGoToPage(usize),
    Exit,
    /// Show a recorded location of the file at this path.
    JumpTo(String),
    JumpBack,
    JumpForward,
    ToggleFullscreen,
    TogglePresentationMode,
    OpenSearch,
    CloseSearch,
    ToggleSearchMethod,
    Nothing,
}

/// The work the interface does after an event.
#[derive(Debug, Clone)]
pub enum AppAction {
    Nothing,
    /// Quit the application.
    Exit,
    /// Handle this event next.
    FollowUp(AppEvent),
    /// Create a viewer for the file at `path` and watch the file; first record it among the
    /// recent files when `remember`.
    OpenDocument { path: String, remember: bool },
    /// Ask the user for a file to open.
    ShowFileDialog,
    /// Drop the viewer of tab `index` and stop watching the file at `unwatch`.
    CloseDocument { index: usize, unwatch: String },
    /// Send `command` to the viewer of tab `index`. With `record_from` as `Some(j)`, the
    /// location shown by tab `j` is recorded in the jumplist before, and that of tab `index`
    /// after.
    ToViewer { index: usize, command: ViewerCommand, record_from: Option<usize> },
    /// Apply a setting to every viewer.
    ToAllViewers(ViewerSetting),
    /// Open the file at `path`, then handle `then`.
    OpenThen { path: String, then: AppEvent },
    /// Show, in tab `index`, the location that was asked for.
    ShowLocation { index: usize },
    /// Move back (or forward) in the jumplist and show the location it gives, if any.
    WalkHistory { back: bool },
    OpenSidebar,
    CloseSidebar,
    ToggleFullscreen,
    /// Focus the search field, after asking tab `highlight` (if any) to highlight the results.
    FocusSearch { highlight: Option<usize> },
}

/// The application state as values.
pub struct AppModel {
    /// The paths of the open documents, in tab order.
    pub tabs: Seq<String>,
    pub pdf_idx: nat,
    pub dark_mode: bool,
    pub invert_pdf: bool,
    pub draw_page_borders: bool,
    pub presentation_mode: bool,
    pub search_open: bool,
    pub search_hover: bool,
    pub sidebar_open: bool,
    pub sidebar_tab: SidebarTab,
    pub shift_pressed: bool,
    pub ctrl_pressed: bool,
}

/// The current tab is one of the open documents (or 0 when none is open), and the tabs can
/// be counted in a `usize`.
pub open spec fn app_wf(m: AppModel) -> bool {
    &&& m.tabs.len() <= usize::MAX
    &&& if m.tabs.len() == 0 { m.pdf_idx == 0 } else { m.pdf_idx < m.tabs.len() }
}

/// `k` is the first tab showing the file at `path`.
pub open spec fn is_first_tab_of(tabs: Seq<String>, path: Seq<char>, k: int) -> bool {
    &&& 0 <= k < tabs.len()
    &&& tabs[k]@ == path
    &&& forall|j: int| 0 <= j < k ==> (#[trigger] tabs[j])@ != path
}

/// The first tab showing the file at `path`, if any.
pub open spec fn tab_of(tabs: Seq<String>, path: Seq<char>) -> Option<nat> {
    if exists|k: int| is_first_tab_of(tabs, path, k) {
        Some((choose|k: int| is_first_tab_of(tabs, path, k)) as nat)
    } else {
        None
    }
}

/// The events the application can be given in state `m`: a tab to open is an open one
/// (or 0), a tab to close is an open one when any is open, and a new tab can still be
/// counted.
pub open spec fn event_allowed(m: AppModel, e: AppEvent) -> bool {
    match e {
        AppEvent::DocumentOpened(_) => m.tabs.len() < usize::MAX,
        AppEvent::OpenTab(i) => i < m.tabs.len() || i == 0,
        AppEvent::CloseTab(i) => m.tabs.len() > 0 ==> i < m.tabs.len(),
        _ => true,
    }
}

/// The request for the current viewer, if a document is open.
pub open spec fn to_current(m: AppModel, command: ViewerCommand, record: bool) -> AppAction {
    if m.tabs.len() == 0 {
        AppAction::Nothing
    } else {
        AppAction::ToViewer {
            index: m.pdf_idx as usize,
            command,
            record_from: if record { Some(m.pdf_idx as usize) } else { None },
        }
    }
}

/// The action bound to `button` with the held modifiers, sent to the current viewer (if a
/// document is open and the input is bound).
pub open spec fn bound_action(m: AppModel, button: MouseButton, pressed: bool, mouse: Seq<MouseBinding>) -> AppAction {
    let input = MouseInput {
        button,
        modifiers: MouseModifiers { ctrl: m.ctrl_pressed, shift: m.shift_pressed },
    };
    match first_mouse_action(mouse, input) {
        Some(a) => to_current(m, ViewerCommand::MouseAction(a, pressed), false),
        None => AppAction::Nothing,
    }
}

/// What a mouse button does: nothing while the pointer is over the open search box, else
/// its bound action.
pub open spec fn mouse_step(m: AppModel, button: MouseButton, pressed: bool, mouse: Seq<MouseBinding>) -> AppAction {
    if m.search_open && m.search_hover {
        AppAction::Nothing
    } else {
        bound_action(m, button, pressed, mouse)
    }
}

/// The next state and the work to do when `e` happens in state `m`, with the mouse
/// bindings `mouse`.
pub open spec fn app_step(m: AppModel, e: AppEvent, mouse: Seq<MouseBinding>) -> (AppModel, AppAction) {
    match e {
        AppEvent::OpenFile(_)
        | AppEvent::OpenTempFile(_)
        | AppEvent::DocumentOpened(_)
        | AppEvent::CloseFile(_)
        | AppEvent::OpenNewFileFinder
        | AppEvent::FileDialogResult(_)
        | AppEvent::FileChanged(_)
        | AppEvent::GoToBookmark { .. }
        | AppEvent::JumpTo(_)
        | AppEvent::JumpBack
        | AppEvent::JumpForward => document_step(m, e),
        AppEvent::Viewer { .. }
        | AppEvent::OpenTab(_)
        | AppEvent::CloseTab(_)
        | AppEvent::CloseActiveTab
        | AppEvent::PreviousTab
        | AppEvent::NextTab
        | AppEvent::OutlineGoToPage(_) => tab_step(m, e),
        AppEvent::SearchHover(_)
        | AppEvent::MouseButtonDown(_)
        | AppEvent::MouseButtonUp(_)
        | AppEvent::ShiftPressed(_)
        | AppEvent::CtrlPressed(_)
        | AppEvent::ModifiersChanged { .. }
        | AppEvent::ScrollLines { .. } => input_step(m, e, mouse),
        _ => display_step(m, e),
    }
}

/// Opening, closing and finding documents.
pub open spec fn document_step(m: AppModel, e: AppEvent) -> (AppModel, AppAction) {
    match e {
        AppEvent::OpenFile(path) => (m, AppAction::OpenDocument { path, remember: true }),
        AppEvent::OpenTempFile(path) => (m, AppAction::OpenDocument { path, remember: false }),
        AppEvent::DocumentOpened(path) => (
            AppModel { tabs: m.tabs.push(path), ..m },
            AppAction::FollowUp(AppEvent::OpenTab(m.tabs.len() as usize)),
        ),
        AppEvent::CloseFile(path) => (m, match tab_of(m.tabs, path@) {
            Some(k) => AppAction::FollowUp(AppEvent::CloseTab(k as usize)),
            None => AppAction::Nothing,
        }),
        AppEvent::OpenNewFileFinder => (m, AppAction::ShowFileDialog),
        AppEvent::FileDialogResult(r) => (m, match r {
            Some(path) => AppAction::FollowUp(AppEvent::OpenFile(path)),
            None => AppAction::Nothing,
        }),
        AppEvent::FileChanged(path) => (m, match tab_of(m.tabs, path@) {
            Some(k) => AppAction::ToViewer {
                index: k as usize,
                command: ViewerCommand::FileChanged,
                record_from: None,
            },
            None => AppAction::Nothing,
        }),
        AppEvent::GoToBookmark { path, page } => match tab_of(m.tabs, path@) {
            Some(k) => (
                AppModel { pdf_idx: k, ..m },
                AppAction::ToViewer {
                    index: k as usize,
                    command: ViewerCommand::SetPage(page),
                    record_from: Some(m.pdf_idx as usize),
                },
            ),
            None => (m, AppAction::OpenThen { path, then: AppEvent::GoToBookmark { path, page } }),
        },
        AppEvent::JumpTo(path) => match tab_of(m.tabs, path@) {
            Some(k) => (AppModel { pdf_idx: k, ..m }, AppAction::ShowLocation { index: k as usize }),
            None => (m, AppAction::OpenThen { path, then: AppEvent::JumpTo(path) }),
        },
        AppEvent::JumpBack => (m, AppAction::WalkHistory { back: true }),
        AppEvent::JumpForward => (m, AppAction::WalkHistory { back: false }),
        _ => (m, AppAction::Nothing),
    }
}

/// Switching and closing tabs, and requests for the current viewer.
pub open spec fn tab_step(m: AppModel, e: AppEvent) -> (AppModel, AppAction) {
    match e {
        AppEvent::Viewer { command, jumpable } => (m, to_current(m, command, jumpable)),
        AppEvent::OpenTab(i) => (AppModel { pdf_idx: i as nat, ..m }, AppAction::Nothing),
        AppEvent::CloseTab(i) => if m.tabs.len() == 0 {
            (m, AppAction::Exit)
        } else {
            let tabs = m.tabs.remove(i as int);
            (
                AppModel { tabs, pdf_idx: index_after_close(m.pdf_idx, tabs.len()), ..m },
                AppAction::CloseDocument { index: i, unwatch: m.tabs[m.pdf_idx as int] },
            )
        },
        AppEvent::CloseActiveTab => (m, AppAction::FollowUp(AppEvent::CloseTab(m.pdf_idx as usize))),
        AppEvent::PreviousTab => (
            AppModel { pdf_idx: if m.pdf_idx == 0 { 0 } else { (m.pdf_idx - 1) as nat }, ..m },
            AppAction::Nothing,
        ),
        AppEvent::NextTab => (
            if m.tabs.len() == 0 {
                m
            } else {
                AppModel {
                    pdf_idx: if m.pdf_idx + 1 < m.tabs.len() - 1 {
                        m.pdf_idx + 1
                    } else {
                        (m.tabs.len() - 1) as nat
                    },
                    ..m
                }
            },
            AppAction::Nothing,
        ),
        AppEvent::OutlineGoToPage(page) => (m, to_current(m, ViewerCommand::SetPage(page), true)),
        _ => (m, AppAction::Nothing),
    }
}

/// The pointer and the modifier keys.
pub open spec fn input_step(m: AppModel, e: AppEvent, mouse: Seq<MouseBinding>) -> (AppModel, AppAction) {
    match e {
        AppEvent::SearchHover(h) => (AppModel { search_hover: h, ..m }, AppAction::Nothing),
        AppEvent::MouseButtonDown(b) => (m, mouse_step(m, b, true, mouse)),
        AppEvent::MouseButtonUp(b) => (m, mouse_step(m, b, false, mouse)),
        AppEvent::ShiftPressed(p) => (AppModel { shift_pressed: p, ..m }, AppAction::Nothing),
        AppEvent::CtrlPressed(p) => (AppModel { ctrl_pressed: p, ..m }, AppAction::Nothing),
        AppEvent::ModifiersChanged { shift, ctrl } => (
            AppModel { shift_pressed: shift, ctrl_pressed: ctrl, ..m },
            AppAction::Nothing,
        ),
        AppEvent::ScrollLines { up } => (m, if m.tabs.len() == 0 {
            AppAction::Nothing
        } else {
            bound_action(m, if up { MouseButton::ScrollUp } else { MouseButton::ScrollDown }, true, mouse)
        }),
        _ => (m, AppAction::Nothing),
    }
}

/// The display toggles, the sidebar, the search box, fullscreen and quitting.
pub open spec fn display_step(m: AppModel, e: AppEvent) -> (AppModel, AppAction) {
    match e {
        AppEvent::ToggleDarkModeUi => (
            AppModel { dark_mode: !m.dark_mode, ..m },
            AppAction::ToAllViewers(ViewerSetting::InterfaceDarkMode(m.invert_pdf)),
        ),
        AppEvent::ToggleDarkModePdf => (
            AppModel { invert_pdf: !m.invert_pdf, ..m },
            AppAction::ToAllViewers(ViewerSetting::PdfDarkMode(!m.invert_pdf)),
        ),
        AppEvent::TogglePageBorders => (
            AppModel { draw_page_borders: !m.draw_page_borders, ..m },
            AppAction::ToAllViewers(ViewerSetting::PageBorders(!m.draw_page_borders)),
        ),
        AppEvent::ToggleSidebar => (
            AppModel { sidebar_open: !m.sidebar_open, ..m },
            if m.sidebar_open { AppAction::CloseSidebar } else { AppAction::OpenSidebar },
        ),
        AppEvent::SetSidebar(t) => (AppModel { sidebar_tab: t, ..m }, AppAction::Nothing),
        AppEvent::Exit => (m, AppAction::Exit),
        AppEvent::ToggleFullscreen => (m, AppAction::ToggleFullscreen),
        AppEvent::TogglePresentationMode => (
            AppModel { presentation_mode: !m.presentation_mode, ..m },
            AppAction::Nothing,
        ),
        AppEvent::OpenSearch => (
            AppModel { search_open: true, ..m },
            AppAction::FocusSearch {
                highlight: if m.tabs.len() == 0 { None } else { Some(m.pdf_idx as usize) },
            },
        ),
        AppEvent::CloseSearch => if m.search_open {
            (
                AppModel { search_open: false, ..m },
                to_current(m, ViewerCommand::HideSearchResults, false),
            )
        } else {
            (m, AppAction::Nothing)
        },
        AppEvent::ToggleSearchMethod => (m, if m.search_open {
            to_current(m, ViewerCommand::ToggleSearchMethod, false)
        } else {
            AppAction::Nothing
        }),
        _ => (m, AppAction::Nothing),
    }
}

/// The event a bound key (or menu entry) triggers.
pub open spec fn bindable_event(b: BindableMessage) -> AppEvent {
    match b {
        BindableMessage::MoveUp => AppEvent::Viewer { command: ViewerCommand::MoveUp, jumpable: false },
        BindableMessage::MoveDown => AppEvent::Viewer { command: ViewerCommand::MoveDown, jumpable: false },
        BindableMessage::MoveLeft => AppEvent::Viewer { command: ViewerCommand::MoveLeft, jumpable: false },
        BindableMessage::MoveRight => AppEvent::Viewer { command: ViewerCommand::MoveRight, jumpable: false },
        BindableMessage::NextPage => AppEvent::Viewer { command: ViewerCommand::NextPage, jumpable: false },
        BindableMessage::PreviousPage => AppEvent::Viewer { command: ViewerCommand::PreviousPage, jumpable: false },
        BindableMessage::ZoomHome => AppEvent::Viewer { command: ViewerCommand::ZoomHome, jumpable: false },
        BindableMessage::ZoomFit => AppEvent::Viewer { command: ViewerCommand::ZoomFit, jumpable: false },
        BindableMessage::ZoomIn => AppEvent::Viewer { command: ViewerCommand::ZoomIn, jumpable: false },
        BindableMessage::ZoomOut => AppEvent::Viewer { command: ViewerCommand::ZoomOut, jumpable: false },
        BindableMessage::NextTab => AppEvent::NextTab,
        BindableMessage::PreviousTab => AppEvent::PreviousTab,
        BindableMessage::ToggleDarkModePdf => AppEvent::ToggleDarkModePdf,
        BindableMessage::ToggleDarkModeUi => AppEvent::ToggleDarkModeUi,
        BindableMessage::TogglePageBorders => AppEvent::TogglePageBorders,
        BindableMessage::ToggleSidebar => AppEvent::ToggleSidebar,
        BindableMessage::ToggleLinkHitboxes => AppEvent::Viewer {
            command: ViewerCommand::ToggleLinkHitboxes,
            jumpable: false,
        },
        BindableMessage::OpenFileFinder => AppEvent::OpenNewFileFinder,
        BindableMessage::CloseTab => AppEvent::CloseActiveTab,
        BindableMessage::PrintPdf => AppEvent::Viewer { command: ViewerCommand::PrintPdf, jumpable: false },
        BindableMessage::Exit => AppEvent::Exit,
        BindableMessage::JumpBack => AppEvent::JumpBack,
        BindableMessage::JumpForward => AppEvent::JumpForward,
        BindableMessage::TogglePresentationMode => AppEvent::TogglePresentationMode,
        BindableMessage::ToggleFullscreen => AppEvent::ToggleFullscreen,
        BindableMessage::SinglePageLayout => AppEvent::Viewer {
            command: ViewerCommand::SetLayout(PageLayout::SinglePage),
            jumpable: false,
        },
        BindableMessage::DoublePageLayout => AppEvent::Viewer {
            command: ViewerCommand::SetLayout(PageLayout::DoublePage),
            jumpable: false,
        },
        BindableMessage::DoublePageTitlePageLayout => AppEvent::Viewer {
            command: ViewerCommand::SetLayout(PageLayout::DoublePageTitlePage),
            jumpable: false,
        },
        BindableMessage::PresentationLayout => AppEvent::Viewer {
            command: ViewerCommand::SetLayout(PageLayout::Presentation),
            jumpable: false,
        },
    }
}

impl AppEvent {
    /// The event a bound key (or menu entry) triggers.
    pub fn from_bindable(b: BindableMessage) -> (r: AppEvent)
        ensures
            r == bindable_event(b),
    {
        match b {
            BindableMessage::MoveUp => AppEvent::Viewer { command: ViewerCommand::MoveUp, jumpable: false },
            BindableMessage::MoveDown => AppEvent::Viewer { command: ViewerCommand::MoveDown, jumpable: false },
            BindableMessage::MoveLeft => AppEvent::Viewer { command: ViewerCommand::MoveLeft, jumpable: false },
            BindableMessage::MoveRight => AppEvent::Viewer { command: ViewerCommand::MoveRight, jumpable: false },
            BindableMessage::NextPage => AppEvent::Viewer { command: ViewerCommand::NextPage, jumpable: false },
            BindableMessage::PreviousPage => AppEvent::Viewer {
                command: ViewerCommand::PreviousPage,
                jumpable: false,
            },
            BindableMessage::ZoomHome => AppEvent::Viewer { command: ViewerCommand::ZoomHome, jumpable: false },
            BindableMessage::ZoomFit => AppEvent::Viewer { command: ViewerCommand::ZoomFit, jumpable: false },
            BindableMessage::ZoomIn => AppEvent::Viewer { command: ViewerCommand::ZoomIn, jumpable: false },
            BindableMessage::ZoomOut => AppEvent::Viewer { command: ViewerCommand::ZoomOut, jumpable: false },
            BindableMessage::NextTab => AppEvent::NextTab,
            BindableMessage::PreviousTab => AppEvent::PreviousTab,
            BindableMessage::ToggleDarkModePdf => AppEvent::ToggleDarkModePdf,
            BindableMessage::ToggleDarkModeUi => AppEvent::ToggleDarkModeUi,
            BindableMessage::TogglePageBorders => AppEvent::TogglePageBorders,
            BindableMessage::ToggleSidebar => AppEvent::ToggleSidebar,
            BindableMessage::ToggleLinkHitboxes => AppEvent::Viewer {
                command: ViewerCommand::ToggleLinkHitboxes,
                jumpable: false,
            },
            BindableMessage::OpenFileFinder => AppEvent::OpenNewFileFinder,
            BindableMessage::CloseTab => AppEvent::CloseActiveTab,
            BindableMessage::PrintPdf => AppEvent::Viewer { command: ViewerCommand::PrintPdf, jumpable: false },
            BindableMessage::Exit => AppEvent::Exit,
            BindableMessage::JumpBack => AppEvent::JumpBack,
            BindableMessage::JumpForward => AppEvent::JumpForward,
            BindableMessage::TogglePresentationMode => AppEvent::TogglePresentationMode,
            BindableMessage::ToggleFullscreen => AppEvent::ToggleFullscreen,
            BindableMessage::SinglePageLayout => AppEvent::Viewer {
                command: ViewerCommand::SetLayout(PageLayout::SinglePage),
                jumpable: false,
            },
            BindableMessage::DoublePageLayout => AppEvent::Viewer {
                command: ViewerCommand::SetLayout(PageLayout::DoublePage),
                jumpable: false,
            },
            BindableMessage::DoublePageTitlePageLayout => AppEvent::Viewer {
                command: ViewerCommand::SetLayout(PageLayout::DoublePageTitlePage),
                jumpable: false,
            },
            BindableMessage::PresentationLayout => AppEvent::Viewer {
                command: ViewerCommand::SetLayout(PageLayout::Presentation),
                jumpable: false,
            },
        }
    }
}

/// The name of a viewer request: its variant's own name, a page layout request being named
/// after the layout it sets.
pub open spec fn viewer_command_name(c: ViewerCommand) -> Seq<char> {
    match c {
        ViewerCommand::NextPage => "NextPage"@,
        ViewerCommand::PreviousPage => "PreviousPage"@,
        ViewerCommand::PageUp => "PageUp"@,
        ViewerCommand::PageDown => "PageDown"@,
        ViewerCommand::HalfPageUp => "HalfPageUp"@,
        ViewerCommand::HalfPageDown => "HalfPageDown"@,
        ViewerCommand::SetPage(_) => "SetPage"@,
        ViewerCommand::SetLayout(PageLayout::SinglePage) => "SinglePageLayout"@,
        ViewerCommand::SetLayout(PageLayout::DoublePage) => "DoublePageLayout"@,
        ViewerCommand::SetLayout(PageLayout::DoublePageTitlePage) => "DoublePageTitlePageLayout"@,
        ViewerCommand::SetLayout(PageLayout::Presentation) => "PresentationLayout"@,
        ViewerCommand::ZoomIn => "ZoomIn"@,
        ViewerCommand::ZoomOut => "ZoomOut"@,
        ViewerCommand::ZoomHome => "ZoomHome"@,
        ViewerCommand::ZoomFit => "ZoomFit"@,
        ViewerCommand::MoveUp => "MoveUp"@,
        ViewerCommand::MoveDown => "MoveDown"@,
        ViewerCommand::MoveLeft => "MoveLeft"@,
        ViewerCommand::MoveRight => "MoveRight"@,
        ViewerCommand::MouseAction(..) => "MouseAction"@,
        ViewerCommand::ToggleLinkHitboxes => "ToggleLinkHitboxes"@,
        ViewerCommand::ActivateLink(_) => "ActivateLink"@,
        ViewerCommand::CloseLinkHitboxes => "CloseLinkHitboxes"@,
        ViewerCommand::FileChanged => "FileChanged"@,
        ViewerCommand::PrintPdf => "PrintPdf"@,
        ViewerCommand::HighlightSearchResults => "HighlightSearchResults"@,
        ViewerCommand::HideSearchResults => "HideSearchResults"@,
        ViewerCommand::JumpToSearchResult(_) => "JumpToSearchResult"@,
        ViewerCommand::NextSearchResult => "NextSearchResult"@,
        ViewerCommand::PreviousSearchResult => "PreviousSearchResult"@,
        ViewerCommand::ToggleSearchMethod => "ToggleSearchMethod"@,
        ViewerCommand::ShowComment(_) => "ShowComment"@,
        ViewerCommand::CloseComment => "CloseComment"@,
        ViewerCommand::Nothing => "Nothing"@,
    }
}

/// The name under which a configuration binds the action behind an application event: a
/// viewer request's own name, and for the others the event's name, except that opening the
/// file finder is bound as `OpenFileFinder` and closing the current tab as `CloseTab`
/// (empty for the events that no key triggers).
pub open spec fn bound_action_name(e: AppEvent) -> Seq<char> {
    match e {
        AppEvent::Viewer { command, .. } => viewer_command_name(command),
        AppEvent::NextTab => "NextTab"@,
        AppEvent::PreviousTab => "PreviousTab"@,
        AppEvent::ToggleDarkModePdf => "ToggleDarkModePdf"@,
        AppEvent::ToggleDarkModeUi => "ToggleDarkModeUi"@,
        AppEvent::TogglePageBorders => "TogglePageBorders"@,
        AppEvent::ToggleSidebar => "ToggleSidebar"@,
        AppEvent::OpenNewFileFinder => "OpenFileFinder"@,
        AppEvent::CloseActiveTab => "CloseTab"@,
        AppEvent::Exit => "Exit"@,
        AppEvent::JumpBack => "JumpBack"@,
        AppEvent::JumpForward => "JumpForward"@,
        AppEvent::TogglePresentationMode => "TogglePresentationMode"@,
        AppEvent::ToggleFullscreen => "ToggleFullscreen"@,
        _ => Seq::empty(),
    }
}

/// A bound action does what its name says: the action a configuration names `name`
/// becomes the application event, or the viewer request, of that same name (`ZoomIn`
/// zooms in, `NextPage` goes to the next page, `SinglePageLayout` sets the single page
/// layout), and none of the viewer requests it makes is recorded as a jump.
pub proof fn lemma_bound_actions_keep_their_names(name: Seq<char>, b: BindableMessage)
    requires
        bindable_named(name) == Some(b),
    ensures
        bound_action_name(bindable_event(b)) == name,
        bindable_event(b) matches AppEvent::Viewer { jumpable, .. } ==> !jumpable,
{
}

/// Whether `command` jumps elsewhere in the document: activating a link of the current page
/// whose target (`link_uri`, when the link exists) is a page of the same document.
pub fn is_jumpable_action(command: &ViewerCommand, link_uri: Option<&str>) -> (r: bool)
    ensures
        r == (command is ActivateLink && (link_uri matches Some(u) && starts_with(u@, "#page="@))),
{
    match command {
        ViewerCommand::ActivateLink(_) => match link_uri {
            Some(u) => is_page_link(u),
            None => false,
        },
        _ => false,
    }
}

/// A request of the remote control interface.
#[derive(Debug, Clone, PartialEq, Eq)]
pub enum RpcMessage {
    OpenFile { path: String },
    CloseFile { path: String },
    ToggleDarkModeUi,
    ToggleDarkModePdf,
}

/// What a remote control request carries.
#[derive(Debug, Clone, PartialEq, Eq)]
pub struct RpcRequest {
    pub message: RpcMessage,
}

/// The event a remote control request stands for.
pub open spec fn rpc_event_of(message: RpcMessage) -> AppEvent {
    match message {
        RpcMessage::OpenFile { path } => AppEvent::OpenFile(path),
        RpcMessage::CloseFile { path } => AppEvent::CloseFile(path),
        RpcMessage::ToggleDarkModeUi => AppEvent::ToggleDarkModeUi,
        RpcMessage::ToggleDarkModePdf => AppEvent::ToggleDarkModePdf,
    }
}

/// The event a remote control request stands for (`rpc_event_of`).
pub fn rpc_event(request: RpcRequest) -> (r: AppEvent)
    ensures
        r == rpc_event_of(request.message),
{
    match request.message {
        RpcMessage::OpenFile { path } => AppEvent::OpenFile(path),
        RpcMessage::CloseFile { path } => AppEvent::CloseFile(path),
        RpcMessage::ToggleDarkModeUi => AppEvent::ToggleDarkModeUi,
        RpcMessage::ToggleDarkModePdf => AppEvent::ToggleDarkModePdf,
    }
}

/// The first tab of a file is the only one that is first.
proof fn lemma_tab_of_is_first(tabs: Seq<String>, path: Seq<char>, i: int)
    requires
        is_first_tab_of(tabs, path, i),
    ensures
        tab_of(tabs, path) == Some(i as nat),
{
    let k = choose|k: int| is_first_tab_of(tabs, path, k);
    assert(is_first_tab_of(tabs, path, k));
    if k < i {
        assert(tabs[k]@ != path);
    } else if k > i {
        assert(tabs[i]@ != path);
    }
}

/// The application state: the paths of the open documents in tab order, the current tab
/// and the interface's toggles.
#[derive(Debug)]
pub struct AppState {
    pub tabs: Vec<String>,
    pub pdf_idx: usize,
    pub dark_mode: bool,
    pub invert_pdf: bool,
    pub draw_page_borders: bool,
    pub presentation_mode: bool,
    pub search_open: bool,
    pub search_hover: bool,
    pub sidebar_open: bool,
    pub sidebar_tab: SidebarTab,
    pub shift_pressed: bool,
    pub ctrl_pressed: bool,
}

/// The state of a freshly started application with configuration `c`: no document, the
/// first tab, dark modes, page borders and sidebar as configured, everything else off.
pub open spec fn initial_model(dark_mode: bool, invert_pdf: bool, page_borders: bool, open_sidebar: bool) -> AppModel {
    AppModel {
        tabs: Seq::empty(),
        pdf_idx: 0,
        dark_mode,
        invert_pdf,
        draw_page_borders: page_borders,
        presentation_mode: false,
        search_open: false,
        search_hover: false,
        sidebar_open: open_sidebar,
        sidebar_tab: SidebarTab::Outline,
        shift_pressed: false,
        ctrl_pressed: false,
    }
}

impl AppState {
    pub open spec fn model(&self) -> AppModel {
        AppModel {
            tabs: self.tabs@,
            pdf_idx: self.pdf_idx as nat,
            dark_mode: self.dark_mode,
            invert_pdf: self.invert_pdf,
            draw_page_borders: self.draw_page_borders,
            presentation_mode: self.presentation_mode,
            search_open: self.search_open,
            search_hover: self.search_hover,
            sidebar_open: self.sidebar_open,
            sidebar_tab: self.sidebar_tab,
            shift_pressed: self.shift_pressed,
            ctrl_pressed: self.ctrl_pressed,
        }
    }

    pub open spec fn wf(&self) -> bool {
        app_wf(self.model())
    }

    /// The state at start, with the dark modes, page borders and sidebar of `config`.
    pub fn new(config: &Config) -> (r: Self)
        ensures
            r.wf(),
            r.model() == initial_model(
                config@.dark_mode,
                config@.invert_pdf,
                config@.page_borders,
                config@.open_sidebar,
            ),
    {
        AppState {
            tabs: Vec::new(),
            pdf_idx: 0,
            dark_mode: config.dark_mode,
            invert_pdf: config.invert_pdf,
            draw_page_borders: config.page_borders,
            presentation_mode: false,
            search_open: false,
            search_hover: false,
            sidebar_open: config.open_sidebar,
            sidebar_tab: SidebarTab::Outline,
            shift_pressed: false,
            ctrl_pressed: false,
        }
    }

    /// The first tab showing the file at `path`, if any.
    pub fn find_tab(&self, path: &str) -> (r: Option<usize>)
        ensures
            r matches Some(k) ==> tab_of(self.tabs@, path@) == Some(k as nat),
            r is None ==> tab_of(self.tabs@, path@) is None,
    {
        let wanted = String::from_str(path);
        let mut i: usize = 0;
        while i < self.tabs.len()
            invariant
                i <= self.tabs@.len(),
                wanted@ == path@,
                forall|j: int| 0 <= j < i ==> (#[trigger] self.tabs@[j])@ != path@,
            decreases self.tabs@.len() - i,
        {
            if self.tabs[i] == wanted {
                proof {
                    lemma_tab_of_is_first(self.tabs@, path@, i as int);
                }
                return Some(i);
            }
            i = i + 1;
        }
        assert(!exists|k: int| is_first_tab_of(self.tabs@, path@, k)) by {
            if exists|k: int| is_first_tab_of(self.tabs@, path@, k) {
                let k = choose|k: int| is_first_tab_of(self.tabs@, path@, k);
                assert(self.tabs@[k]@ != path@);
            }
        }
        None
    }
}

impl AppState {
    /// The request for the current viewer, if a document is open.
    fn to_current(&self, command: ViewerCommand, record: bool) -> (r: AppAction)
        requires
            self.wf(),
        ensures
            r == to_current(self.model(), command, record),
    {
        if self.tabs.len() == 0 {
            AppAction::Nothing
        } else {
            AppAction::ToViewer {
                index: self.pdf_idx,
                command,
                record_from: if record { Some(self.pdf_idx) } else { None },
            }
        }
    }

    /// The bound action of `button` with the held modifiers, sent to the current viewer.
    fn bound_action(&self, button: MouseButton, pressed: bool, config: &Config) -> (r: AppAction)
        requires
            self.wf(),
        ensures
            r == bound_action(self.model(), button, pressed, config@.mouse),
    {
        let input = MouseInput {
            button,
            modifiers: MouseModifiers { ctrl: self.ctrl_pressed, shift: self.shift_pressed },
        };
        match config.get_mouse_action(input) {
            Some(a) => self.to_current(ViewerCommand::MouseAction(a, pressed), false),
            None => AppAction::Nothing,
        }
    }

    /// Handles an event about documents.
    fn document_event(&mut self, event: AppEvent) -> (r: AppAction)
        requires
            old(self).wf(),
            event_allowed(old(self).model(), event),
        ensures
            final(self).wf(),
            (final(self).model(), r) == document_step(old(self).model(), event),
    {
        match event {
            AppEvent::OpenFile(path) => AppAction::OpenDocument { path, remember: true },
            AppEvent::OpenTempFile(path) => AppAction::OpenDocument { path, remember: false },
            AppEvent::DocumentOpened(path) => {
                let n = self.tabs.len();
                self.tabs.push(path);
                AppAction::FollowUp(AppEvent::OpenTab(n))
            },
            AppEvent::CloseFile(path) => match self.find_tab(path.as_str()) {
                Some(k) => AppAction::FollowUp(AppEvent::CloseTab(k)),
                None => AppAction::Nothing,
            },
            AppEvent::OpenNewFileFinder => AppAction::ShowFileDialog,
            AppEvent::FileDialogResult(r) => match r {
                Some(path) => AppAction::FollowUp(AppEvent::OpenFile(path)),
                None => AppAction::Nothing,
            },
            AppEvent::FileChanged(path) => match self.find_tab(path.as_str()) {
                Some(k) => AppAction::ToViewer {
                    index: k,
                    command: ViewerCommand::FileChanged,
                    record_from: None,
                },
                None => AppAction::Nothing,
            },
            AppEvent::GoToBookmark { path, page } => match self.find_tab(path.as_str()) {
                Some(k) => {
                    let from = self.pdf_idx;
                    self.pdf_idx = k;
                    AppAction::ToViewer {
                        index: k,
                        command: ViewerCommand::SetPage(page),
                        record_from: Some(from),
                    }
                },
                None => {
                    let again = path.clone();
                    AppAction::OpenThen { path, then: AppEvent::GoToBookmark { path: again, page } }
                },
            },
            AppEvent::JumpTo(path) => match self.find_tab(path.as_str()) {
                Some(k) => {
                    self.pdf_idx = k;
                    AppAction::ShowLocation { index: k }
                },
                None => {
                    let again = path.clone();
                    AppAction::OpenThen { path, then: AppEvent::JumpTo(again) }
                },
            },
            AppEvent::JumpBack => AppAction::WalkHistory { back: true },
            AppEvent::JumpForward => AppAction::WalkHistory { back: false },
            _ => AppAction::Nothing,
        }
    }

    /// Handles an event about tabs or for the current viewer.
    fn tab_event(&mut self, event: AppEvent) -> (r: AppAction)
        requires
            old(self).wf(),
            event_allowed(old(self).model(), event),
        ensures
            final(self).wf(),
            (final(self).model(), r) == tab_step(old(self).model(), event),
    {
        match event {
            AppEvent::Viewer { command, jumpable } => self.to_current(command, jumpable),
            AppEvent::OpenTab(i) => {
                self.pdf_idx = i;
                AppAction::Nothing
            },
            AppEvent::CloseTab(i) => {
                if self.tabs.len() == 0 {
                    AppAction::Exit
                } else {
                    let unwatch = self.tabs[self.pdf_idx].clone();
                    self.tabs.remove(i);
                    self.pdf_idx = tab_index_after_close(self.pdf_idx, self.tabs.len());
                    AppAction::CloseDocument { index: i, unwatch }
                }
            },
            AppEvent::CloseActiveTab => AppAction::FollowUp(AppEvent::CloseTab(self.pdf_idx)),
            AppEvent::PreviousTab => {
                self.pdf_idx = if self.pdf_idx == 0 { 0 } else { self.pdf_idx - 1 };
                AppAction::Nothing
            },
            AppEvent::NextTab => {
                if self.tabs.len() > 0 {
                    self.pdf_idx = if self.pdf_idx + 1 < self.tabs.len() - 1 {
                        self.pdf_idx + 1
                    } else {
                        self.tabs.len() - 1
                    };
                }
                AppAction::Nothing
            },
            AppEvent::OutlineGoToPage(page) => self.to_current(ViewerCommand::SetPage(page), true),
            _ => AppAction::Nothing,
        }
    }

    /// Handles an event of the pointer or the modifier keys.
    fn input_event(&mut self, event: AppEvent, config: &Config) -> (r: AppAction)
        requires
            old(self).wf(),
        ensures
            final(self).wf(),
            (final(self).model(), r) == input_step(old(self).model(), event, config@.mouse),
    {
        match event {
            AppEvent::SearchHover(h) => {
                self.search_hover = h;
                AppAction::Nothing
            },
            AppEvent::MouseButtonDown(b) => {
                if self.search_open && self.search_hover {
                    AppAction::Nothing
                } else {
                    self.bound_action(b, true, config)
                }
            },
            AppEvent::MouseButtonUp(b) => {
                if self.search_open && self.search_hover {
                    AppAction::Nothing
                } else {
                    self.bound_action(b, false, config)
                }
            },
            AppEvent::ShiftPressed(p) => {
                self.shift_pressed = p;
                AppAction::Nothing
            },
            AppEvent::CtrlPressed(p) => {
                self.ctrl_pressed = p;
                AppAction::Nothing
            },
            AppEvent::ModifiersChanged { shift, ctrl } => {
                self.shift_pressed = shift;
                self.ctrl_pressed = ctrl;
                AppAction::Nothing
            },
            AppEvent::ScrollLines { up } => {
                if self.tabs.len() == 0 {
                    AppAction::Nothing
                } else {
                    let button = if up { MouseButton::ScrollUp } else { MouseButton::ScrollDown };
                    self.bound_action(button, true, config)
                }
            },
            _ => AppAction::Nothing,
        }
    }

    /// Handles a display toggle, the sidebar, the search box, fullscreen or quitting.
    fn display_event(&mut self, event: AppEvent) -> (r: AppAction)
        requires
            old(self).wf(),
        ensures
            final(self).wf(),
            (final(self).model(), r) == display_step(old(self).model(), event),
    {
        match event {
            AppEvent::ToggleDarkModeUi => {
                self.dark_mode = !self.dark_mode;
                AppAction::ToAllViewers(ViewerSetting::InterfaceDarkMode(self.invert_pdf))
            },
            AppEvent::ToggleDarkModePdf => {
                self.invert_pdf = !self.invert_pdf;
                AppAction::ToAllViewers(ViewerSetting::PdfDarkMode(self.invert_pdf))
            },
            AppEvent::TogglePageBorders => {
                self.draw_page_borders = !self.draw_page_borders;
                AppAction::ToAllViewers(ViewerSetting::PageBorders(self.draw_page_borders))
            },
            AppEvent::ToggleSidebar => {
                let was_open = self.sidebar_open;
                self.sidebar_open = !was_open;
                if was_open { AppAction::CloseSidebar } else { AppAction::OpenSidebar }
            },
            AppEvent::SetSidebar(t) => {
                self.sidebar_tab = t;
                AppAction::Nothing
            },
            AppEvent::Exit => AppAction::Exit,
            AppEvent::ToggleFullscreen => AppAction::ToggleFullscreen,
            AppEvent::TogglePresentationMode => {
                self.presentation_mode = !self.presentation_mode;
                AppAction::Nothing
            },
            AppEvent::OpenSearch => {
                self.search_open = true;
                AppAction::FocusSearch {
                    highlight: if self.tabs.len() == 0 { None } else { Some(self.pdf_idx) },
                }
            },
            AppEvent::CloseSearch => {
                if self.search_open {
                    let r = self.to_current(ViewerCommand::HideSearchResults, false);
                    self.search_open = false;
                    r
                } else {
                    AppAction::Nothing
                }
            },
            AppEvent::ToggleSearchMethod => {
                if self.search_open {
                    self.to_current(ViewerCommand::ToggleSearchMethod, false)
                } else {
                    AppAction::Nothing
                }
            },
            _ => AppAction::Nothing,
        }
    }

    /// Handles `event`: moves to the next state and returns the work to do.
    pub fn update(&mut self, event: AppEvent, config: &Config) -> (r: AppAction)
        requires
            old(self).wf(),
            event_allowed(old(self).model(), event),
        ensures
            final(self).wf(),
            (final(self).model(), r) == app_step(old(self).model(), event, config@.mouse),
    {
        match event {
            AppEvent::OpenFile(_)
            | AppEvent::OpenTempFile(_)
            | AppEvent::DocumentOpened(_)
            | AppEvent::CloseFile(_)
            | AppEvent::OpenNewFileFinder
            | AppEvent::FileDialogResult(_)
            | AppEvent::FileChanged(_)
            | AppEvent::GoToBookmark { .. }
            | AppEvent::JumpTo(_)
            | AppEvent::JumpBack
            | AppEvent::JumpForward => self.document_event(event),
            AppEvent::Viewer { .. }
            | AppEvent::OpenTab(_)
            | AppEvent::CloseTab(_)
            | AppEvent::CloseActiveTab
            | AppEvent::PreviousTab
            | AppEvent::NextTab
            | AppEvent::OutlineGoToPage(_) => self.tab_event(event),
            AppEvent::SearchHover(_)
            | AppEvent::MouseButtonDown(_)
            | AppEvent::MouseButtonUp(_)
            | AppEvent::ShiftPressed(_)
            | AppEvent::CtrlPressed(_)
            | AppEvent::ModifiersChanged { .. }
            | AppEvent::ScrollLines { .. } => self.input_event(event, config),
            _ => self.display_event(event),
        }
    }
}

/// Every allowed event keeps the current tab on an open document.
pub proof fn lemma_step_keeps_wf(m: AppModel, e: AppEvent, mouse: Seq<MouseBinding>)
    requires
        app_wf(m),
        event_allowed(m, e),
    ensures
        app_wf(app_step(m, e, mouse).0),
{
    match e {
        AppEvent::CloseFile(path) | AppEvent::FileChanged(path) | AppEvent::JumpTo(path) => {
            if tab_of(m.tabs, path@) is Some {
                let k = choose|k: int| is_first_tab_of(m.tabs, path@, k);
                assert(is_first_tab_of(m.tabs, path@, k));
            }
        },
        AppEvent::GoToBookmark { path, page } => {
            if tab_of(m.tabs, path@) is Some {
                let k = choose|k: int| is_first_tab_of(m.tabs, path@, k);
                assert(is_first_tab_of(m.tabs, path@, k));
            }
        },
        _ => {},
    }
}

/// Each display toggle, done twice, leaves the state as it was.
pub proof fn lemma_toggles_are_involutions(m: AppModel, mouse: Seq<MouseBinding>)
    ensures
        app_step(app_step(m, AppEvent::ToggleDarkModeUi, mouse).0, AppEvent::ToggleDarkModeUi, mouse).0 == m,
        app_step(app_step(m, AppEvent::ToggleDarkModePdf, mouse).0, AppEvent::ToggleDarkModePdf, mouse).0 == m,
        app_step(app_step(m, AppEvent::TogglePageBorders, mouse).0, AppEvent::TogglePageBorders, mouse).0 == m,
        app_step(app_step(m, AppEvent::ToggleSidebar, mouse).0, AppEvent::ToggleSidebar, mouse).0 == m,
        app_step(
            app_step(m, AppEvent::TogglePresentationMode, mouse).0,
            AppEvent::TogglePresentationMode,
            mouse,
        ).0 == m,
{
}

/// A newly opened document becomes the last tab, and the tab switch that follows makes it
/// the current one.
pub proof fn lemma_opened_document_becomes_current(m: AppModel, path: String, mouse: Seq<MouseBinding>)
    requires
        app_wf(m),
        m.tabs.len() < usize::MAX,
    ensures
        ({
            let (m1, a) = app_step(m, AppEvent::DocumentOpened(path), mouse);
            &&& a == AppAction::FollowUp(AppEvent::OpenTab(m.tabs.len() as usize))
            &&& event_allowed(m1, AppEvent::OpenTab(m.tabs.len() as usize))
            &&& ({
                let m2 = app_step(m1, AppEvent::OpenTab(m.tabs.len() as usize), mouse).0;
                &&& m2.tabs == m.tabs.push(path)
                &&& m2.tabs[m2.pdf_idx as int] == path
            })
        }),
{
}

/// Closing tab `i` removes exactly that document and tells which file to stop watching;
/// when a tab after the current one is closed, the current document stays current.
pub proof fn lemma_close_tab(m: AppModel, i: usize, mouse: Seq<MouseBinding>)
    requires
        app_wf(m),
        i < m.tabs.len(),
    ensures
        ({
            let (m1, a) = app_step(m, AppEvent::CloseTab(i), mouse);
            &&& m1.tabs == m.tabs.remove(i as int)
            &&& a == AppAction::CloseDocument { index: i, unwatch: m.tabs[m.pdf_idx as int] }
            &&& i > m.pdf_idx ==> m1.tabs[m1.pdf_idx as int] == m.tabs[m.pdf_idx as int]
        }),
{
}

/// Closing the last document quits the application when there is none left to close.
pub proof fn lemma_close_without_documents_exits(m: AppModel, i: usize, mouse: Seq<MouseBinding>)
    requires
        m.tabs.len() == 0,
    ensures
        app_step(m, AppEvent::CloseTab(i), mouse).1 == AppAction::Exit,
{
}

/// Closing a file closes the first tab that shows it, and nothing when none does.
pub proof fn lemma_close_file_targets_its_tab(m: AppModel, path: String, mouse: Seq<MouseBinding>)
    requires
        app_wf(m),
    ensures
        app_step(m, AppEvent::CloseFile(path), mouse).0 == m,
        app_step(m, AppEvent::CloseFile(path), mouse).1 matches AppAction::FollowUp(AppEvent::CloseTab(k))
            ==> k < m.tabs.len() && m.tabs[k as int]@ == path@,
        (forall|j: int| 0 <= j < m.tabs.len() ==> (#[trigger] m.tabs[j])@ != path@) ==> app_step(
            m,
            AppEvent::CloseFile(path),
            mouse,
        ).1 == AppAction::Nothing,
{
    if tab_of(m.tabs, path@) is Some {
        let k = choose|k: int| is_first_tab_of(m.tabs, path@, k);
        assert(is_first_tab_of(m.tabs, path@, k));
    }
}

/// Mouse buttons do nothing while the pointer is over the open search box.
pub proof fn lemma_search_box_swallows_clicks(m: AppModel, b: MouseButton, mouse: Seq<MouseBinding>)
    requires
        m.search_open,
        m.search_hover,
    ensures
        app_step(m, AppEvent::MouseButtonDown(b), mouse) == (m, AppAction::Nothing),
        app_step(m, AppEvent::MouseButtonUp(b), mouse) == (m, AppAction::Nothing),
{
}

} // verus!
