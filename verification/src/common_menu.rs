//! The menus shared by the menu bar and the native menu: their titles and entries.
use vstd::prelude::*;
use crate::config::BindableMessage;

verus! {

/// An entry of a menu.
#[derive(Debug, Clone, Copy, PartialEq, Eq, Structural)]
pub enum CommonMenuItem {
    /// A button that triggers a bindable action.
    Button(BindableMessage),
    /// The list of recently opened files.
    RecentFiles,
    Separator,
}

/// The menus, in order: File, View and Layout, with their entries.
pub open spec fn menu_layout() -> Seq<(Seq<char>, Seq<CommonMenuItem>)> {
    seq![
        ("File"@, seq![
            CommonMenuItem::Button(BindableMessage::OpenFileFinder),
            CommonMenuItem::Button(BindableMessage::PrintPdf),
            CommonMenuItem::Separator,
            CommonMenuItem::RecentFiles,
            CommonMenuItem::Separator,
            CommonMenuItem::Button(BindableMessage::CloseTab),
        ]),
        ("View"@, seq![
            CommonMenuItem::Button(BindableMessage::ToggleDarkModeUi),
            CommonMenuItem::Button(BindableMessage::ToggleDarkModePdf),
            CommonMenuItem::Button(BindableMessage::TogglePageBorders),
            CommonMenuItem::Button(BindableMessage::ToggleSidebar),
            CommonMenuItem::Separator,
            CommonMenuItem::Button(BindableMessage::ZoomIn),
            CommonMenuItem::Button(BindableMessage::ZoomOut),
            CommonMenuItem::Button(BindableMessage::ZoomHome),
            CommonMenuItem::Button(BindableMessage::ZoomFit),
            CommonMenuItem::Separator,
            CommonMenuItem::Button(BindableMessage::TogglePresentationMode),
            CommonMenuItem::Button(BindableMessage::ToggleFullscreen),
        ]),
        ("Layout"@, seq![
            CommonMenuItem::Button(BindableMessage::SinglePageLayout),
            CommonMenuItem::Button(BindableMessage::DoublePageLayout),
            CommonMenuItem::Button(BindableMessage::DoublePageTitlePageLayout),
            CommonMenuItem::Button(BindableMessage::PresentationLayout),
        ]),
    ]
}

/// The menus and their entries (`menu_layout`).
pub fn items() -> (r: Vec<(String, Vec<CommonMenuItem>)>)
    ensures
        r@.len() == menu_layout().len(),
        forall|i: int| 0 <= i < r@.len() ==> #[trigger] r@[i].0@ == menu_layout()[i].0 && r@[i].1@
            == menu_layout()[i].1,
{
    let file = vec![
        CommonMenuItem::Button(BindableMessage::OpenFileFinder),
        CommonMenuItem::Button(BindableMessage::PrintPdf),
        CommonMenuItem::Separator,
        CommonMenuItem::RecentFiles,
        CommonMenuItem::Separator,
        CommonMenuItem::Button(BindableMessage::CloseTab),
    ];
    let view = vec![
        CommonMenuItem::Button(BindableMessage::ToggleDarkModeUi),
        CommonMenuItem::Button(BindableMessage::ToggleDarkModePdf),
        CommonMenuItem::Button(BindableMessage::TogglePageBorders),
        CommonMenuItem::Button(BindableMessage::ToggleSidebar),
        CommonMenuItem::Separator,
        CommonMenuItem::Button(BindableMessage::ZoomIn),
        CommonMenuItem::Button(BindableMessage::ZoomOut),
        CommonMenuItem::Button(BindableMessage::ZoomHome),
        CommonMenuItem::Button(BindableMessage::ZoomFit),
        CommonMenuItem::Separator,
        CommonMenuItem::Button(BindableMessage::TogglePresentationMode),
        CommonMenuItem::Button(BindableMessage::ToggleFullscreen),
    ];
    let layout = vec![
        CommonMenuItem::Button(BindableMessage::SinglePageLayout),
        CommonMenuItem::Button(BindableMessage::DoublePageLayout),
        CommonMenuItem::Button(BindableMessage::DoublePageTitlePageLayout),
        CommonMenuItem::Button(BindableMessage::PresentationLayout),
    ];
    let r = vec![
        (String::from_str("File"), file),
        (String::from_str("View"), view),
        (String::from_str("Layout"), layout),
    ];
    assert(r@[0].1@ =~= menu_layout()[0].1);
    assert(r@[1].1@ =~= menu_layout()[1].1);
    assert(r@[2].1@ =~= menu_layout()[2].1);
    r
}

} // verus!
