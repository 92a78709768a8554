use miro_pdf::app_state::{is_jumpable_action, rpc_event, RpcMessage, RpcRequest, AppAction, AppEvent, AppState, ViewerCommand, ViewerSetting};
use miro_pdf::config::{BindableMessage, Config, MouseAction, MouseButton};
use miro_pdf::document::{MouseInteraction, SidebarTab};
use miro_pdf::page_layout::PageLayout;
use miro_pdf::viewer_input::{mouse_action_effect, pointer_moved, MouseEffect, MoveEffect};

fn open(state: &mut AppState, config: &Config, path: &str) {
    match state.update(AppEvent::DocumentOpened(String::from(path)), config) {
        AppAction::FollowUp(next) => {
            state.update(next, config);
        },
        other => panic!("unexpected {other:?}"),
    }
}

#[test]
fn starts_from_the_configuration() {
    let config = Config::parse_with_errors("Set DarkModeUi false\nSet OpenSidebar true").config;
    let state = AppState::new(&config);
    assert!(state.tabs.is_empty());
    assert_eq!(state.pdf_idx, 0);
    assert!(!state.dark_mode);
    assert!(state.sidebar_open);
    assert!(state.draw_page_borders);
    assert_eq!(state.sidebar_tab, SidebarTab::Outline);
}

#[test]
fn opening_files() {
    let config = Config::default();
    let mut state = AppState::new(&config);
    match state.update(AppEvent::OpenFile(String::from("/a.pdf")), &config) {
        AppAction::OpenDocument { path, remember } => {
            assert_eq!(path, "/a.pdf");
            assert!(remember);
        },
        other => panic!("unexpected {other:?}"),
    }
    match state.update(AppEvent::OpenTempFile(String::from("/t.pdf")), &config) {
        AppAction::OpenDocument { remember, .. } => assert!(!remember),
        other => panic!("unexpected {other:?}"),
    }
    open(&mut state, &config, "/a.pdf");
    open(&mut state, &config, "/b.pdf");
    assert_eq!(state.tabs, vec!["/a.pdf", "/b.pdf"]);
    assert_eq!(state.pdf_idx, 1);
    assert!(matches!(state.update(AppEvent::OpenNewFileFinder, &config), AppAction::ShowFileDialog));
    assert!(matches!(
        state.update(AppEvent::FileDialogResult(None), &config),
        AppAction::Nothing
    ));
    match state.update(AppEvent::FileDialogResult(Some(String::from("/c.pdf"))), &config) {
        AppAction::FollowUp(AppEvent::OpenFile(p)) => assert_eq!(p, "/c.pdf"),
        other => panic!("unexpected {other:?}"),
    }
}

#[test]
fn switching_and_closing_tabs() {
    let config = Config::default();
    let mut state = AppState::new(&config);
    for p in ["/a.pdf", "/b.pdf", "/c.pdf"] {
        open(&mut state, &config, p);
    }
    state.update(AppEvent::NextTab, &config);
    assert_eq!(state.pdf_idx, 2);
    state.update(AppEvent::PreviousTab, &config);
    state.update(AppEvent::PreviousTab, &config);
    state.update(AppEvent::PreviousTab, &config);
    assert_eq!(state.pdf_idx, 0);
    state.update(AppEvent::OpenTab(2), &config);
    match state.update(AppEvent::CloseActiveTab, &config) {
        AppAction::FollowUp(AppEvent::CloseTab(2)) => {},
        other => panic!("unexpected {other:?}"),
    }
    match state.update(AppEvent::CloseTab(2), &config) {
        AppAction::CloseDocument { index, unwatch } => {
            assert_eq!(index, 2);
            assert_eq!(unwatch, "/c.pdf");
        },
        other => panic!("unexpected {other:?}"),
    }
    assert_eq!(state.tabs, vec!["/a.pdf", "/b.pdf"]);
    assert_eq!(state.pdf_idx, 1);
    match state.update(AppEvent::CloseFile(String::from("/a.pdf")), &config) {
        AppAction::FollowUp(AppEvent::CloseTab(0)) => {},
        other => panic!("unexpected {other:?}"),
    }
    assert!(matches!(
        state.update(AppEvent::CloseFile(String::from("/zzz.pdf")), &config),
        AppAction::Nothing
    ));
    state.update(AppEvent::CloseTab(0), &config);
    state.update(AppEvent::CloseTab(0), &config);
    assert!(state.tabs.is_empty());
    assert_eq!(state.pdf_idx, 0);
    assert!(matches!(state.update(AppEvent::CloseTab(0), &config), AppAction::Exit));
}

#[test]
fn viewer_requests_go_to_the_current_tab() {
    let config = Config::default();
    let mut state = AppState::new(&config);
    let request = AppEvent::Viewer { command: ViewerCommand::ZoomIn, jumpable: false };
    assert!(matches!(state.update(request, &config), AppAction::Nothing));
    open(&mut state, &config, "/a.pdf");
    open(&mut state, &config, "/b.pdf");
    match state.update(AppEvent::Viewer { command: ViewerCommand::ActivateLink(3), jumpable: true }, &config) {
        AppAction::ToViewer { index, command, record_from } => {
            assert_eq!(index, 1);
            assert_eq!(command, ViewerCommand::ActivateLink(3));
            assert_eq!(record_from, Some(1));
        },
        other => panic!("unexpected {other:?}"),
    }
    match state.update(AppEvent::OutlineGoToPage(7), &config) {
        AppAction::ToViewer { command, record_from, .. } => {
            assert_eq!(command, ViewerCommand::SetPage(7));
            assert_eq!(record_from, Some(1));
        },
        other => panic!("unexpected {other:?}"),
    }
    match state.update(AppEvent::FileChanged(String::from("/a.pdf")), &config) {
        AppAction::ToViewer { index, command, record_from } => {
            assert_eq!(index, 0);
            assert_eq!(command, ViewerCommand::FileChanged);
            assert_eq!(record_from, None);
        },
        other => panic!("unexpected {other:?}"),
    }
}

#[test]
fn bookmarks_and_jumps_switch_or_open() {
    let config = Config::default();
    let mut state = AppState::new(&config);
    open(&mut state, &config, "/a.pdf");
    open(&mut state, &config, "/b.pdf");
    match state.update(AppEvent::GoToBookmark { path: String::from("/a.pdf"), page: 4 }, &config) {
        AppAction::ToViewer { index, command, record_from } => {
            assert_eq!(index, 0);
            assert_eq!(command, ViewerCommand::SetPage(4));
            assert_eq!(record_from, Some(1));
        },
        other => panic!("unexpected {other:?}"),
    }
    assert_eq!(state.pdf_idx, 0);
    match state.update(AppEvent::GoToBookmark { path: String::from("/n.pdf"), page: 2 }, &config) {
        AppAction::OpenThen { path, then: AppEvent::GoToBookmark { path: again, page } } => {
            assert_eq!(path, "/n.pdf");
            assert_eq!(again, "/n.pdf");
            assert_eq!(page, 2);
        },
        other => panic!("unexpected {other:?}"),
    }
    match state.update(AppEvent::JumpTo(String::from("/b.pdf")), &config) {
        AppAction::ShowLocation { index } => assert_eq!(index, 1),
        other => panic!("unexpected {other:?}"),
    }
    assert_eq!(state.pdf_idx, 1);
    assert!(matches!(
        state.update(AppEvent::JumpBack, &config),
        AppAction::WalkHistory { back: true }
    ));
}

#[test]
fn toggles_and_sidebar() {
    let config = Config::default();
    let mut state = AppState::new(&config);
    match state.update(AppEvent::ToggleDarkModePdf, &config) {
        AppAction::ToAllViewers(ViewerSetting::PdfDarkMode(on)) => assert!(on),
        other => panic!("unexpected {other:?}"),
    }
    assert!(state.invert_pdf);
    match state.update(AppEvent::ToggleDarkModeUi, &config) {
        AppAction::ToAllViewers(ViewerSetting::InterfaceDarkMode(v)) => assert!(v),
        other => panic!("unexpected {other:?}"),
    }
    assert!(!state.dark_mode);
    match state.update(AppEvent::TogglePageBorders, &config) {
        AppAction::ToAllViewers(ViewerSetting::PageBorders(on)) => assert!(!on),
        other => panic!("unexpected {other:?}"),
    }
    assert!(matches!(state.update(AppEvent::ToggleSidebar, &config), AppAction::OpenSidebar));
    assert!(matches!(state.update(AppEvent::ToggleSidebar, &config), AppAction::CloseSidebar));
    state.update(AppEvent::SetSidebar(SidebarTab::Bookmark), &config);
    assert_eq!(state.sidebar_tab, SidebarTab::Bookmark);
    state.update(AppEvent::TogglePresentationMode, &config);
    assert!(state.presentation_mode);
    assert!(matches!(state.update(AppEvent::ToggleFullscreen, &config), AppAction::ToggleFullscreen));
    assert!(matches!(state.update(AppEvent::Exit, &config), AppAction::Exit));
}

#[test]
fn mouse_buttons_use_the_bindings() {
    let config = Config::default();
    let mut state = AppState::new(&config);
    assert!(matches!(
        state.update(AppEvent::MouseButtonDown(MouseButton::Left), &config),
        AppAction::Nothing
    ));
    open(&mut state, &config, "/a.pdf");
    match state.update(AppEvent::MouseButtonDown(MouseButton::Left), &config) {
        AppAction::ToViewer { command, .. } => {
            assert_eq!(command, ViewerCommand::MouseAction(MouseAction::Panning, true))
        },
        other => panic!("unexpected {other:?}"),
    }
    state.update(AppEvent::ShiftPressed(true), &config);
    match state.update(AppEvent::MouseButtonUp(MouseButton::Left), &config) {
        AppAction::ToViewer { command, .. } => {
            assert_eq!(command, ViewerCommand::MouseAction(MouseAction::Selection, false))
        },
        other => panic!("unexpected {other:?}"),
    }
    state.update(AppEvent::ModifiersChanged { shift: false, ctrl: true }, &config);
    match state.update(AppEvent::ScrollLines { up: true }, &config) {
        AppAction::ToViewer { command, .. } => {
            assert_eq!(command, ViewerCommand::MouseAction(MouseAction::ZoomIn, true))
        },
        other => panic!("unexpected {other:?}"),
    }
    assert!(matches!(
        state.update(AppEvent::MouseButtonDown(MouseButton::Right), &config),
        AppAction::Nothing
    ));
    state.update(AppEvent::CtrlPressed(false), &config);
    state.update(AppEvent::OpenSearch, &config);
    state.update(AppEvent::SearchHover(true), &config);
    assert!(matches!(
        state.update(AppEvent::MouseButtonDown(MouseButton::Left), &config),
        AppAction::Nothing
    ));
}

#[test]
fn search_box() {
    let config = Config::default();
    let mut state = AppState::new(&config);
    assert!(matches!(state.update(AppEvent::CloseSearch, &config), AppAction::Nothing));
    assert!(matches!(
        state.update(AppEvent::OpenSearch, &config),
        AppAction::FocusSearch { highlight: None }
    ));
    open(&mut state, &config, "/a.pdf");
    assert!(matches!(
        state.update(AppEvent::OpenSearch, &config),
        AppAction::FocusSearch { highlight: Some(0) }
    ));
    match state.update(AppEvent::ToggleSearchMethod, &config) {
        AppAction::ToViewer { command, .. } => assert_eq!(command, ViewerCommand::ToggleSearchMethod),
        other => panic!("unexpected {other:?}"),
    }
    match state.update(AppEvent::CloseSearch, &config) {
        AppAction::ToViewer { command, .. } => assert_eq!(command, ViewerCommand::HideSearchResults),
        other => panic!("unexpected {other:?}"),
    }
    assert!(!state.search_open);
    assert!(matches!(state.update(AppEvent::ToggleSearchMethod, &config), AppAction::Nothing));
}

#[test]
fn bound_keys_become_events() {
    assert!(matches!(AppEvent::from_bindable(BindableMessage::CloseTab), AppEvent::CloseActiveTab));
    assert!(matches!(
        AppEvent::from_bindable(BindableMessage::DoublePageLayout),
        AppEvent::Viewer { command: ViewerCommand::SetLayout(PageLayout::DoublePage), jumpable: false }
    ));
    assert!(matches!(
        AppEvent::from_bindable(BindableMessage::MoveLeft),
        AppEvent::Viewer { command: ViewerCommand::MoveLeft, jumpable: false }
    ));
    assert!(matches!(AppEvent::from_bindable(BindableMessage::JumpForward), AppEvent::JumpForward));
}

#[test]
fn jumpable_actions() {
    assert!(is_jumpable_action(&ViewerCommand::ActivateLink(0), Some("#page=3")));
    assert!(!is_jumpable_action(&ViewerCommand::ActivateLink(0), Some("https://x.org")));
    assert!(!is_jumpable_action(&ViewerCommand::ActivateLink(0), None));
    assert!(!is_jumpable_action(&ViewerCommand::NextPage, Some("#page=3")));
}

#[test]
fn viewer_mouse_interactions() {
    let (i, e) = mouse_action_effect(MouseInteraction::Idle, MouseAction::Selection, true);
    assert_eq!(i, MouseInteraction::Selecting);
    assert_eq!(e, MouseEffect::StartSelecting);
    let (i, e) = mouse_action_effect(i, MouseAction::Selection, false);
    assert_eq!(i, MouseInteraction::Idle);
    assert_eq!(e, MouseEffect::FinishSelection);
    let (i, e) = mouse_action_effect(MouseInteraction::Idle, MouseAction::Panning, true);
    assert_eq!((i, e), (MouseInteraction::Panning, MouseEffect::StartPanning));
    assert_eq!(pointer_moved(i), MoveEffect::Pan);
    let (i, e) = mouse_action_effect(i, MouseAction::ZoomIn, true);
    assert_eq!((i, e), (MouseInteraction::Panning, MouseEffect::Then(ViewerCommand::ZoomIn)));
    let (i, e) = mouse_action_effect(i, MouseAction::Panning, false);
    assert_eq!((i, e), (MouseInteraction::Idle, MouseEffect::ClickLink));
    assert_eq!(pointer_moved(i), MoveEffect::Nothing);
    assert_eq!(pointer_moved(MouseInteraction::Selecting), MoveEffect::ExtendSelection);
}

#[test]
fn remote_requests_become_events() {
    let open = rpc_event(RpcRequest { message: RpcMessage::OpenFile { path: String::from("./") } });
    assert!(matches!(open, AppEvent::OpenFile(p) if p == "./"));
    let close = rpc_event(RpcRequest { message: RpcMessage::CloseFile { path: String::from("/x.pdf") } });
    assert!(matches!(close, AppEvent::CloseFile(p) if p == "/x.pdf"));
    assert!(matches!(
        rpc_event(RpcRequest { message: RpcMessage::ToggleDarkModeUi }),
        AppEvent::ToggleDarkModeUi
    ));
    assert!(matches!(
        rpc_event(RpcRequest { message: RpcMessage::ToggleDarkModePdf }),
        AppEvent::ToggleDarkModePdf
    ));
}
