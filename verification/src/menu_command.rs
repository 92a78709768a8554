//! The commands that appear in the menus: their identifiers, the bindable actions they
//! correspond to, and their default labels.
use vstd::prelude::*;
use crate::config::{bindable_named, BindableMessage};
use crate::common_menu::{menu_layout, CommonMenuItem};
use crate::page_layout::PageLayout;
use crate::text::{is_literal, to_chars};

verus! {

/// A message of the application that a menu entry can send.
#[derive(Debug, Clone, Copy, PartialEq, Eq, Structural)]
pub enum MenuCommand {
    OpenNewFileFinder,
    CloseActiveTab,
    ToggleDarkModeUi,
    ToggleDarkModePdf,
    TogglePageBorders,
    ToggleSidebar,
    TogglePresentationMode,
    ToggleFullscreen,
    PrintPdf,
    ZoomIn,
    ZoomOut,
    ZoomHome,
    ZoomFit,
    SetLayout(PageLayout),
}

/// The identifier of a command's menu entry.
pub open spec fn menu_id_of(c: MenuCommand) -> Seq<char> {
    match c {
        MenuCommand::OpenNewFileFinder => "OpenFileFinder"@,
        MenuCommand::CloseActiveTab => "CloseActiveTab"@,
        MenuCommand::ToggleDarkModeUi => "ToggleDarkModeUi"@,
        MenuCommand::ToggleDarkModePdf => "ToggleDarkModePdf"@,
        MenuCommand::TogglePageBorders => "TogglePageBorders"@,
        MenuCommand::ToggleSidebar => "ToggleSidebar"@,
        MenuCommand::TogglePresentationMode => "TogglePresentationMode"@,
        MenuCommand::ToggleFullscreen => "ToggleFullscreen"@,
        MenuCommand::PrintPdf => "PrintPdf"@,
        MenuCommand::ZoomIn => "ZoomIn"@,
        MenuCommand::ZoomOut => "ZoomOut"@,
        MenuCommand::ZoomHome => "ZoomHome"@,
        MenuCommand::ZoomFit => "ZoomFit"@,
        MenuCommand::SetLayout(PageLayout::SinglePage) => "SinglePageLayout"@,
        MenuCommand::SetLayout(PageLayout::DoublePage) => "DoublePageLayout"@,
        MenuCommand::SetLayout(PageLayout::DoublePageTitlePage) => "DoublePageTitlePageLayout"@,
        MenuCommand::SetLayout(PageLayout::Presentation) => "PresentationLayout"@,
    }
}

/// The bindable action a command corresponds to.
pub open spec fn bindable_of(c: MenuCommand) -> BindableMessage {
    match c {
        MenuCommand::OpenNewFileFinder => BindableMessage::OpenFileFinder,
        MenuCommand::CloseActiveTab => BindableMessage::CloseTab,
        MenuCommand::ToggleDarkModeUi => BindableMessage::ToggleDarkModeUi,
        MenuCommand::ToggleDarkModePdf => BindableMessage::ToggleDarkModePdf,
        MenuCommand::TogglePageBorders => BindableMessage::TogglePageBorders,
        MenuCommand::ToggleSidebar => BindableMessage::ToggleSidebar,
        MenuCommand::TogglePresentationMode => BindableMessage::TogglePresentationMode,
        MenuCommand::ToggleFullscreen => BindableMessage::ToggleFullscreen,
        MenuCommand::PrintPdf => BindableMessage::PrintPdf,
        MenuCommand::ZoomIn => BindableMessage::ZoomIn,
        MenuCommand::ZoomOut => BindableMessage::ZoomOut,
        MenuCommand::ZoomHome => BindableMessage::ZoomHome,
        MenuCommand::ZoomFit => BindableMessage::ZoomFit,
        MenuCommand::SetLayout(PageLayout::SinglePage) => BindableMessage::SinglePageLayout,
        MenuCommand::SetLayout(PageLayout::DoublePage) => BindableMessage::DoublePageLayout,
        MenuCommand::SetLayout(PageLayout::DoublePageTitlePage) => BindableMessage::DoublePageTitlePageLayout,
        MenuCommand::SetLayout(PageLayout::Presentation) => BindableMessage::PresentationLayout,
    }
}

/// The label of a command's menu entry when no other is given.
pub open spec fn label_of(c: MenuCommand) -> Seq<char> {
    match c {
        MenuCommand::OpenNewFileFinder => "Open"@,
        MenuCommand::PrintPdf => "Print"@,
        MenuCommand::CloseActiveTab => "Close"@,
        MenuCommand::ToggleDarkModeUi => "Dark Interface"@,
        MenuCommand::ToggleDarkModePdf => "Dark Pdf"@,
        MenuCommand::TogglePageBorders => "Page Borders"@,
        MenuCommand::ZoomIn => "Zoom In"@,
        MenuCommand::ZoomOut => "Zoom Out"@,
        MenuCommand::ZoomHome => "Zoom 100%"@,
        MenuCommand::ZoomFit => "Fit To Screen"@,
        MenuCommand::ToggleSidebar => "Sidebar"@,
        MenuCommand::TogglePresentationMode => "Presentation Mode"@,
        MenuCommand::ToggleFullscreen => "Fullscreen"@,
        MenuCommand::SetLayout(PageLayout::SinglePage) => "Single Page"@,
        MenuCommand::SetLayout(PageLayout::DoublePage) => "Double Page"@,
        MenuCommand::SetLayout(PageLayout::DoublePageTitlePage) => "Double Page w/ Title"@,
        MenuCommand::SetLayout(PageLayout::Presentation) => "Presentation"@,
    }
}

/// The command whose menu entry has the identifier `s`.
pub open spec fn command_of_menu_id(s: Seq<char>) -> Option<MenuCommand> {
    if s == "OpenFileFinder"@ {
        Some(MenuCommand::OpenNewFileFinder)
    } else if s == "CloseActiveTab"@ {
        Some(MenuCommand::CloseActiveTab)
    } else if s == "ToggleDarkModeUi"@ {
        Some(MenuCommand::ToggleDarkModeUi)
    } else if s == "ToggleDarkModePdf"@ {
        Some(MenuCommand::ToggleDarkModePdf)
    } else if s == "TogglePageBorders"@ {
        Some(MenuCommand::TogglePageBorders)
    } else if s == "ToggleSidebar"@ {
        Some(MenuCommand::ToggleSidebar)
    } else if s == "TogglePresentationMode"@ {
        Some(MenuCommand::TogglePresentationMode)
    } else if s == "ToggleFullscreen"@ {
        Some(MenuCommand::ToggleFullscreen)
    } else if s == "PrintPdf"@ {
        Some(MenuCommand::PrintPdf)
    } else if s == "ZoomIn"@ {
        Some(MenuCommand::ZoomIn)
    } else if s == "ZoomOut"@ {
        Some(MenuCommand::ZoomOut)
    } else if s == "ZoomHome"@ {
        Some(MenuCommand::ZoomHome)
    } else if s == "ZoomFit"@ {
        Some(MenuCommand::ZoomFit)
    } else if s == "SinglePageLayout"@ {
        Some(MenuCommand::SetLayout(PageLayout::SinglePage))
    } else if s == "DoublePageLayout"@ {
        Some(MenuCommand::SetLayout(PageLayout::DoublePage))
    } else if s == "DoublePageTitlePageLayout"@ {
        Some(MenuCommand::SetLayout(PageLayout::DoublePageTitlePage))
    } else if s == "PresentationLayout"@ {
        Some(MenuCommand::SetLayout(PageLayout::Presentation))
    } else {
        None
    }
}

/// The command that a bindable action stands for in the menus, if any.
pub open spec fn command_of_bindable(b: BindableMessage) -> Option<MenuCommand> {
    match b {
        BindableMessage::OpenFileFinder => Some(MenuCommand::OpenNewFileFinder),
        BindableMessage::CloseTab => Some(MenuCommand::CloseActiveTab),
        BindableMessage::ToggleDarkModeUi => Some(MenuCommand::ToggleDarkModeUi),
        BindableMessage::ToggleDarkModePdf => Some(MenuCommand::ToggleDarkModePdf),
        BindableMessage::TogglePageBorders => Some(MenuCommand::TogglePageBorders),
        BindableMessage::ToggleSidebar => Some(MenuCommand::ToggleSidebar),
        BindableMessage::TogglePresentationMode => Some(MenuCommand::TogglePresentationMode),
        BindableMessage::ToggleFullscreen => Some(MenuCommand::ToggleFullscreen),
        BindableMessage::PrintPdf => Some(MenuCommand::PrintPdf),
        BindableMessage::ZoomIn => Some(MenuCommand::ZoomIn),
        BindableMessage::ZoomOut => Some(MenuCommand::ZoomOut),
        BindableMessage::ZoomHome => Some(MenuCommand::ZoomHome),
        BindableMessage::ZoomFit => Some(MenuCommand::ZoomFit),
        BindableMessage::SinglePageLayout => Some(MenuCommand::SetLayout(PageLayout::SinglePage)),
        BindableMessage::DoublePageLayout => Some(MenuCommand::SetLayout(PageLayout::DoublePage)),
        BindableMessage::DoublePageTitlePageLayout => Some(
            MenuCommand::SetLayout(PageLayout::DoublePageTitlePage),
        ),
        BindableMessage::PresentationLayout => Some(MenuCommand::SetLayout(PageLayout::Presentation)),
        _ => None,
    }
}

impl MenuCommand {
    /// The identifier of the command's menu entry.
    pub fn menu_id(&self) -> (r: String)
        ensures
            r@ == menu_id_of(*self),
    {
        match self {
            MenuCommand::OpenNewFileFinder => String::from_str("OpenFileFinder"),
            MenuCommand::CloseActiveTab => String::from_str("CloseActiveTab"),
            MenuCommand::ToggleDarkModeUi => String::from_str("ToggleDarkModeUi"),
            MenuCommand::ToggleDarkModePdf => String::from_str("ToggleDarkModePdf"),
            MenuCommand::TogglePageBorders => String::from_str("TogglePageBorders"),
            MenuCommand::ToggleSidebar => String::from_str("ToggleSidebar"),
            MenuCommand::TogglePresentationMode => String::from_str("TogglePresentationMode"),
            MenuCommand::ToggleFullscreen => String::from_str("ToggleFullscreen"),
            MenuCommand::PrintPdf => String::from_str("PrintPdf"),
            MenuCommand::ZoomIn => String::from_str("ZoomIn"),
            MenuCommand::ZoomOut => String::from_str("ZoomOut"),
            MenuCommand::ZoomHome => String::from_str("ZoomHome"),
            MenuCommand::ZoomFit => String::from_str("ZoomFit"),
            MenuCommand::SetLayout(PageLayout::SinglePage) => String::from_str("SinglePageLayout"),
            MenuCommand::SetLayout(PageLayout::DoublePage) => String::from_str("DoublePageLayout"),
            MenuCommand::SetLayout(PageLayout::DoublePageTitlePage) => String::from_str(
                "DoublePageTitlePageLayout",
            ),
            MenuCommand::SetLayout(PageLayout::Presentation) => String::from_str(
                "PresentationLayout",
            ),
        }
    }

    /// The bindable action the command corresponds to.
    pub fn bindable(&self) -> (r: BindableMessage)
        ensures
            r == bindable_of(*self),
    {
        match self {
            MenuCommand::OpenNewFileFinder => BindableMessage::OpenFileFinder,
            MenuCommand::CloseActiveTab => BindableMessage::CloseTab,
            MenuCommand::ToggleDarkModeUi => BindableMessage::ToggleDarkModeUi,
            MenuCommand::ToggleDarkModePdf => BindableMessage::ToggleDarkModePdf,
            MenuCommand::TogglePageBorders => BindableMessage::TogglePageBorders,
            MenuCommand::ToggleSidebar => BindableMessage::ToggleSidebar,
            MenuCommand::TogglePresentationMode => BindableMessage::TogglePresentationMode,
            MenuCommand::ToggleFullscreen => BindableMessage::ToggleFullscreen,
            MenuCommand::PrintPdf => BindableMessage::PrintPdf,
            MenuCommand::ZoomIn => BindableMessage::ZoomIn,
            MenuCommand::ZoomOut => BindableMessage::ZoomOut,
            MenuCommand::ZoomHome => BindableMessage::ZoomHome,
            MenuCommand::ZoomFit => BindableMessage::ZoomFit,
            MenuCommand::SetLayout(PageLayout::SinglePage) => BindableMessage::SinglePageLayout,
            MenuCommand::SetLayout(PageLayout::DoublePage) => BindableMessage::DoublePageLayout,
            MenuCommand::SetLayout(PageLayout::DoublePageTitlePage) => BindableMessage::DoublePageTitlePageLayout,
            MenuCommand::SetLayout(PageLayout::Presentation) => BindableMessage::PresentationLayout,
        }
    }

    /// The command whose menu entry has the identifier `s`, if any.
    pub fn from_menu_id(s: &str) -> (r: Option<MenuCommand>)
        ensures
            r == command_of_menu_id(s@),
    {
        let c = to_chars(s);
        let c = c.as_slice();
        if is_literal(c, "OpenFileFinder") {
            Some(MenuCommand::OpenNewFileFinder)
        } else if is_literal(c, "CloseActiveTab") {
            Some(MenuCommand::CloseActiveTab)
        } else if is_literal(c, "ToggleDarkModeUi") {
            Some(MenuCommand::ToggleDarkModeUi)
        } else if is_literal(c, "ToggleDarkModePdf") {
            Some(MenuCommand::ToggleDarkModePdf)
        } else if is_literal(c, "TogglePageBorders") {
            Some(MenuCommand::TogglePageBorders)
        } else if is_literal(c, "ToggleSidebar") {
            Some(MenuCommand::ToggleSidebar)
        } else if is_literal(c, "TogglePresentationMode") {
            Some(MenuCommand::TogglePresentationMode)
        } else if is_literal(c, "ToggleFullscreen") {
            Some(MenuCommand::ToggleFullscreen)
        } else if is_literal(c, "PrintPdf") {
            Some(MenuCommand::PrintPdf)
        } else if is_literal(c, "ZoomIn") {
            Some(MenuCommand::ZoomIn)
        } else if is_literal(c, "ZoomOut") {
            Some(MenuCommand::ZoomOut)
        } else if is_literal(c, "ZoomHome") {
            Some(MenuCommand::ZoomHome)
        } else if is_literal(c, "ZoomFit") {
            Some(MenuCommand::ZoomFit)
        } else if is_literal(c, "SinglePageLayout") {
            Some(MenuCommand::SetLayout(PageLayout::SinglePage))
        } else if is_literal(c, "DoublePageLayout") {
            Some(MenuCommand::SetLayout(PageLayout::DoublePage))
        } else if is_literal(c, "DoublePageTitlePageLayout") {
            Some(MenuCommand::SetLayout(PageLayout::DoublePageTitlePage))
        } else if is_literal(c, "PresentationLayout") {
            Some(MenuCommand::SetLayout(PageLayout::Presentation))
        } else {
            None
        }
    }

    /// The label of the command's menu entry when no other is given.
    pub fn default_menu_label(&self) -> (r: &'static str)
        ensures
            r@ == label_of(*self),
    {
        match self {
            MenuCommand::OpenNewFileFinder => "Open",
            MenuCommand::PrintPdf => "Print",
            MenuCommand::CloseActiveTab => "Close",
            MenuCommand::ToggleDarkModeUi => "Dark Interface",
            MenuCommand::ToggleDarkModePdf => "Dark Pdf",
            MenuCommand::TogglePageBorders => "Page Borders",
            MenuCommand::ZoomIn => "Zoom In",
            MenuCommand::ZoomOut => "Zoom Out",
            MenuCommand::ZoomHome => "Zoom 100%",
            MenuCommand::ZoomFit => "Fit To Screen",
            MenuCommand::ToggleSidebar => "Sidebar",
            MenuCommand::TogglePresentationMode => "Presentation Mode",
            MenuCommand::ToggleFullscreen => "Fullscreen",
            MenuCommand::SetLayout(PageLayout::SinglePage) => "Single Page",
            MenuCommand::SetLayout(PageLayout::DoublePage) => "Double Page",
            MenuCommand::SetLayout(PageLayout::DoublePageTitlePage) => "Double Page w/ Title",
            MenuCommand::SetLayout(PageLayout::Presentation) => "Presentation",
        }
    }

    /// The command that the bindable action `b` stands for in the menus, if any.
    pub fn from_bindable(b: BindableMessage) -> (r: Option<MenuCommand>)
        ensures
            r == command_of_bindable(b),
    {
        match b {
            BindableMessage::OpenFileFinder => Some(MenuCommand::OpenNewFileFinder),
            BindableMessage::CloseTab => Some(MenuCommand::CloseActiveTab),
            BindableMessage::ToggleDarkModeUi => Some(MenuCommand::ToggleDarkModeUi),
            BindableMessage::ToggleDarkModePdf => Some(MenuCommand::ToggleDarkModePdf),
            BindableMessage::TogglePageBorders => Some(MenuCommand::TogglePageBorders),
            BindableMessage::ToggleSidebar => Some(MenuCommand::ToggleSidebar),
            BindableMessage::TogglePresentationMode => Some(MenuCommand::TogglePresentationMode),
            BindableMessage::ToggleFullscreen => Some(MenuCommand::ToggleFullscreen),
            BindableMessage::PrintPdf => Some(MenuCommand::PrintPdf),
            BindableMessage::ZoomIn => Some(MenuCommand::ZoomIn),
            BindableMessage::ZoomOut => Some(MenuCommand::ZoomOut),
            BindableMessage::ZoomHome => Some(MenuCommand::ZoomHome),
            BindableMessage::ZoomFit => Some(MenuCommand::ZoomFit),
            BindableMessage::SinglePageLayout => Some(MenuCommand::SetLayout(PageLayout::SinglePage)),
            BindableMessage::DoublePageLayout => Some(MenuCommand::SetLayout(PageLayout::DoublePage)),
            BindableMessage::DoublePageTitlePageLayout => Some(
                MenuCommand::SetLayout(PageLayout::DoublePageTitlePage),
            ),
            BindableMessage::PresentationLayout => Some(
                MenuCommand::SetLayout(PageLayout::Presentation),
            ),
            _ => None,
        }
    }
}

/// A command is found again from the identifier of its menu entry.
pub proof fn lemma_menu_id_round_trip(c: MenuCommand)
    ensures
        command_of_menu_id(menu_id_of(c)) == Some(c),
{
    match c {
        MenuCommand::OpenNewFileFinder => {
            reveal_strlit("OpenFileFinder");
        },
        MenuCommand::CloseActiveTab => {
            reveal_strlit("CloseActiveTab");
            reveal_strlit("OpenFileFinder");
            assert("CloseActiveTab"@[0] != "OpenFileFinder"@[0]);
        },
        MenuCommand::ToggleDarkModeUi => {
            reveal_strlit("ToggleDarkModeUi");
            reveal_strlit("OpenFileFinder");
            assert("ToggleDarkModeUi"@.len() != "OpenFileFinder"@.len());
            reveal_strlit("CloseActiveTab");
            assert("ToggleDarkModeUi"@.len() != "CloseActiveTab"@.len());
        },
        MenuCommand::ToggleDarkModePdf => {
            reveal_strlit("ToggleDarkModePdf");
            reveal_strlit("OpenFileFinder");
            assert("ToggleDarkModePdf"@.len() != "OpenFileFinder"@.len());
            reveal_strlit("CloseActiveTab");
            assert("ToggleDarkModePdf"@.len() != "CloseActiveTab"@.len());
            reveal_strlit("ToggleDarkModeUi");
            assert("ToggleDarkModePdf"@.len() != "ToggleDarkModeUi"@.len());
        },
        MenuCommand::TogglePageBorders => {
            reveal_strlit("TogglePageBorders");
            reveal_strlit("OpenFileFinder");
            assert("TogglePageBorders"@.len() != "OpenFileFinder"@.len());
            reveal_strlit("CloseActiveTab");
            assert("TogglePageBorders"@.len() != "CloseActiveTab"@.len());
            reveal_strlit("ToggleDarkModeUi");
            assert("TogglePageBorders"@.len() != "ToggleDarkModeUi"@.len());
            reveal_strlit("ToggleDarkModePdf");
            assert("TogglePageBorders"@[6] != "ToggleDarkModePdf"@[6]);
        },
        MenuCommand::ToggleSidebar => {
            reveal_strlit("ToggleSidebar");
            reveal_strlit("OpenFileFinder");
            assert("ToggleSidebar"@.len() != "OpenFileFinder"@.len());
            reveal_strlit("CloseActiveTab");
            assert("ToggleSidebar"@.len() != "CloseActiveTab"@.len());
            reveal_strlit("ToggleDarkModeUi");
            assert("ToggleSidebar"@.len() != "ToggleDarkModeUi"@.len());
            reveal_strlit("ToggleDarkModePdf");
            assert("ToggleSidebar"@.len() != "ToggleDarkModePdf"@.len());
            reveal_strlit("TogglePageBorders");
            assert("ToggleSidebar"@.len() != "TogglePageBorders"@.len());
        },
        MenuCommand::TogglePresentationMode => {
            reveal_strlit("TogglePresentationMode");
            reveal_strlit("OpenFileFinder");
            assert("TogglePresentationMode"@.len() != "OpenFileFinder"@.len());
            reveal_strlit("CloseActiveTab");
            assert("TogglePresentationMode"@.len() != "CloseActiveTab"@.len());
            reveal_strlit("ToggleDarkModeUi");
            assert("TogglePresentationMode"@.len() != "ToggleDarkModeUi"@.len());
            reveal_strlit("ToggleDarkModePdf");
            assert("TogglePresentationMode"@.len() != "ToggleDarkModePdf"@.len());
            reveal_strlit("TogglePageBorders");
            assert("TogglePresentationMode"@.len() != "TogglePageBorders"@.len());
            reveal_strlit("ToggleSidebar");
            assert("TogglePresentationMode"@.len() != "ToggleSidebar"@.len());
        },
        MenuCommand::ToggleFullscreen => {
            reveal_strlit("ToggleFullscreen");
            reveal_strlit("OpenFileFinder");
            assert("ToggleFullscreen"@.len() != "OpenFileFinder"@.len());
            reveal_strlit("CloseActiveTab");
            assert("ToggleFullscreen"@.len() != "CloseActiveTab"@.len());
            reveal_strlit("ToggleDarkModeUi");
            assert("ToggleFullscreen"@[6] != "ToggleDarkModeUi"@[6]);
            reveal_strlit("ToggleDarkModePdf");
            assert("ToggleFullscreen"@.len() != "ToggleDarkModePdf"@.len());
            reveal_strlit("TogglePageBorders");
            assert("ToggleFullscreen"@.len() != "TogglePageBorders"@.len());
            reveal_strlit("ToggleSidebar");
            assert("ToggleFullscreen"@.len() != "ToggleSidebar"@.len());
            reveal_strlit("TogglePresentationMode");
            assert("ToggleFullscreen"@.len() != "TogglePresentationMode"@.len());
        },
        MenuCommand::PrintPdf => {
            reveal_strlit("PrintPdf");
            reveal_strlit("OpenFileFinder");
            assert("PrintPdf"@.len() != "OpenFileFinder"@.len());
            reveal_strlit("CloseActiveTab");
            assert("PrintPdf"@.len() != "CloseActiveTab"@.len());
            reveal_strlit("ToggleDarkModeUi");
            assert("PrintPdf"@.len() != "ToggleDarkModeUi"@.len());
            reveal_strlit("ToggleDarkModePdf");
            assert("PrintPdf"@.len() != "ToggleDarkModePdf"@.len());
            reveal_strlit("TogglePageBorders");
            assert("PrintPdf"@.len() != "TogglePageBorders"@.len());
            reveal_strlit("ToggleSidebar");
            assert("PrintPdf"@.len() != "ToggleSidebar"@.len());
            reveal_strlit("TogglePresentationMode");
            assert("PrintPdf"@.len() != "TogglePresentationMode"@.len());
            reveal_strlit("ToggleFullscreen");
            assert("PrintPdf"@.len() != "ToggleFullscreen"@.len());
        },
        MenuCommand::ZoomIn => {
            reveal_strlit("ZoomIn");
            reveal_strlit("OpenFileFinder");
            assert("ZoomIn"@.len() != "OpenFileFinder"@.len());
            reveal_strlit("CloseActiveTab");
            assert("ZoomIn"@.len() != "CloseActiveTab"@.len());
            reveal_strlit("ToggleDarkModeUi");
            assert("ZoomIn"@.len() != "ToggleDarkModeUi"@.len());
            reveal_strlit("ToggleDarkModePdf");
            assert("ZoomIn"@.len() != "ToggleDarkModePdf"@.len());
            reveal_strlit("TogglePageBorders");
            assert("ZoomIn"@.len() != "TogglePageBorders"@.len());
            reveal_strlit("ToggleSidebar");
            assert("ZoomIn"@.len() != "ToggleSidebar"@.len());
            reveal_strlit("TogglePresentationMode");
            assert("ZoomIn"@.len() != "TogglePresentationMode"@.len());
            reveal_strlit("ToggleFullscreen");
            assert("ZoomIn"@.len() != "ToggleFullscreen"@.len());
            reveal_strlit("PrintPdf");
            assert("ZoomIn"@.len() != "PrintPdf"@.len());
        },
        MenuCommand::ZoomOut => {
            reveal_strlit("ZoomOut");
            reveal_strlit("OpenFileFinder");
            assert("ZoomOut"@.len() != "OpenFileFinder"@.len());
            reveal_strlit("CloseActiveTab");
            assert("ZoomOut"@.len() != "CloseActiveTab"@.len());
            reveal_strlit("ToggleDarkModeUi");
            assert("ZoomOut"@.len() != "ToggleDarkModeUi"@.len());
            reveal_strlit("ToggleDarkModePdf");
            assert("ZoomOut"@.len() != "ToggleDarkModePdf"@.len());
            reveal_strlit("TogglePageBorders");
            assert("ZoomOut"@.len() != "TogglePageBorders"@.len());
            reveal_strlit("ToggleSidebar");
            assert("ZoomOut"@.len() != "ToggleSidebar"@.len());
            reveal_strlit("TogglePresentationMode");
            assert("ZoomOut"@.len() != "TogglePresentationMode"@.len());
            reveal_strlit("ToggleFullscreen");
            assert("ZoomOut"@.len() != "ToggleFullscreen"@.len());
            reveal_strlit("PrintPdf");
            assert("ZoomOut"@.len() != "PrintPdf"@.len());
            reveal_strlit("ZoomIn");
            assert("ZoomOut"@.len() != "ZoomIn"@.len());
        },
        MenuCommand::ZoomHome => {
            reveal_strlit("ZoomHome");
            reveal_strlit("OpenFileFinder");
            assert("ZoomHome"@.len() != "OpenFileFinder"@.len());
            reveal_strlit("CloseActiveTab");
            assert("ZoomHome"@.len() != "CloseActiveTab"@.len());
            reveal_strlit("ToggleDarkModeUi");
            assert("ZoomHome"@.len() != "ToggleDarkModeUi"@.len());
            reveal_strlit("ToggleDarkModePdf");
            assert("ZoomHome"@.len() != "ToggleDarkModePdf"@.len());
            reveal_strlit("TogglePageBorders");
            assert("ZoomHome"@.len() != "TogglePageBorders"@.len());
            reveal_strlit("ToggleSidebar");
            assert("ZoomHome"@.len() != "ToggleSidebar"@.len());
            reveal_strlit("TogglePresentationMode");
            assert("ZoomHome"@.len() != "TogglePresentationMode"@.len());
            reveal_strlit("ToggleFullscreen");
            assert("ZoomHome"@.len() != "ToggleFullscreen"@.len());
            reveal_strlit("PrintPdf");
            assert("ZoomHome"@[0] != "PrintPdf"@[0]);
            reveal_strlit("ZoomIn");
            assert("ZoomHome"@.len() != "ZoomIn"@.len());
            reveal_strlit("ZoomOut");
            assert("ZoomHome"@.len() != "ZoomOut"@.len());
        },
        MenuCommand::ZoomFit => {
            reveal_strlit("ZoomFit");
            reveal_strlit("OpenFileFinder");
            assert("ZoomFit"@.len() != "OpenFileFinder"@.len());
            reveal_strlit("CloseActiveTab");
            assert("ZoomFit"@.len() != "CloseActiveTab"@.len());
            reveal_strlit("ToggleDarkModeUi");
            assert("ZoomFit"@.len() != "ToggleDarkModeUi"@.len());
            reveal_strlit("ToggleDarkModePdf");
            assert("ZoomFit"@.len() != "ToggleDarkModePdf"@.len());
            reveal_strlit("TogglePageBorders");
            assert("ZoomFit"@.len() != "TogglePageBorders"@.len());
            reveal_strlit("ToggleSidebar");
            assert("ZoomFit"@.len() != "ToggleSidebar"@.len());
            reveal_strlit("TogglePresentationMode");
            assert("ZoomFit"@.len() != "TogglePresentationMode"@.len());
            reveal_strlit("ToggleFullscreen");
            assert("ZoomFit"@.len() != "ToggleFullscreen"@.len());
            reveal_strlit("PrintPdf");
            assert("ZoomFit"@.len() != "PrintPdf"@.len());
            reveal_strlit("ZoomIn");
            assert("ZoomFit"@.len() != "ZoomIn"@.len());
            reveal_strlit("ZoomOut");
            assert("ZoomFit"@[4] != "ZoomOut"@[4]);
            reveal_strlit("ZoomHome");
            assert("ZoomFit"@.len() != "ZoomHome"@.len());
        },
        MenuCommand::SetLayout(PageLayout::SinglePage) => {
            reveal_strlit("SinglePageLayout");
            reveal_strlit("OpenFileFinder");
            assert("SinglePageLayout"@.len() != "OpenFileFinder"@.len());
            reveal_strlit("CloseActiveTab");
            assert("SinglePageLayout"@.len() != "CloseActiveTab"@.len());
            reveal_strlit("ToggleDarkModeUi");
            assert("SinglePageLayout"@[0] != "ToggleDarkModeUi"@[0]);
            reveal_strlit("ToggleDarkModePdf");
            assert("SinglePageLayout"@.len() != "ToggleDarkModePdf"@.len());
            reveal_strlit("TogglePageBorders");
            assert("SinglePageLayout"@.len() != "TogglePageBorders"@.len());
            reveal_strlit("ToggleSidebar");
            assert("SinglePageLayout"@.len() != "ToggleSidebar"@.len());
            reveal_strlit("TogglePresentationMode");
            assert("SinglePageLayout"@.len() != "TogglePresentationMode"@.len());
            reveal_strlit("ToggleFullscreen");
            assert("SinglePageLayout"@[0] != "ToggleFullscreen"@[0]);
            reveal_strlit("PrintPdf");
            assert("SinglePageLayout"@.len() != "PrintPdf"@.len());
            reveal_strlit("ZoomIn");
            assert("SinglePageLayout"@.len() != "ZoomIn"@.len());
            reveal_strlit("ZoomOut");
            assert("SinglePageLayout"@.len() != "ZoomOut"@.len());
            reveal_strlit("ZoomHome");
            assert("SinglePageLayout"@.len() != "ZoomHome"@.len());
            reveal_strlit("ZoomFit");
            assert("SinglePageLayout"@.len() != "ZoomFit"@.len());
        },
        MenuCommand::SetLayout(PageLayout::DoublePage) => {
            reveal_strlit("DoublePageLayout");
            reveal_strlit("OpenFileFinder");
            assert("DoublePageLayout"@.len() != "OpenFileFinder"@.len());
            reveal_strlit("CloseActiveTab");
            assert("DoublePageLayout"@.len() != "CloseActiveTab"@.len());
            reveal_strlit("ToggleDarkModeUi");
            assert("DoublePageLayout"@[0] != "ToggleDarkModeUi"@[0]);
            reveal_strlit("ToggleDarkModePdf");
            assert("DoublePageLayout"@.len() != "ToggleDarkModePdf"@.len());
            reveal_strlit("TogglePageBorders");
            assert("DoublePageLayout"@.len() != "TogglePageBorders"@.len());
            reveal_strlit("ToggleSidebar");
            assert("DoublePageLayout"@.len() != "ToggleSidebar"@.len());
            reveal_strlit("TogglePresentationMode");
            assert("DoublePageLayout"@.len() != "TogglePresentationMode"@.len());
            reveal_strlit("ToggleFullscreen");
            assert("DoublePageLayout"@[0] != "ToggleFullscreen"@[0]);
            reveal_strlit("PrintPdf");
            assert("DoublePageLayout"@.len() != "PrintPdf"@.len());
            reveal_strlit("ZoomIn");
            assert("DoublePageLayout"@.len() != "ZoomIn"@.len());
            reveal_strlit("ZoomOut");
            assert("DoublePageLayout"@.len() != "ZoomOut"@.len());
            reveal_strlit("ZoomHome");
            assert("DoublePageLayout"@.len() != "ZoomHome"@.len());
            reveal_strlit("ZoomFit");
            assert("DoublePageLayout"@.len() != "ZoomFit"@.len());
            reveal_strlit("SinglePageLayout");
            assert("DoublePageLayout"@[0] != "SinglePageLayout"@[0]);
        },
        MenuCommand::SetLayout(PageLayout::DoublePageTitlePage) => {
            reveal_strlit("DoublePageTitlePageLayout");
            reveal_strlit("OpenFileFinder");
            assert("DoublePageTitlePageLayout"@.len() != "OpenFileFinder"@.len());
            reveal_strlit("CloseActiveTab");
            assert("DoublePageTitlePageLayout"@.len() != "CloseActiveTab"@.len());
            reveal_strlit("ToggleDarkModeUi");
            assert("DoublePageTitlePageLayout"@.len() != "ToggleDarkModeUi"@.len());
            reveal_strlit("ToggleDarkModePdf");
            assert("DoublePageTitlePageLayout"@.len() != "ToggleDarkModePdf"@.len());
            reveal_strlit("TogglePageBorders");
            assert("DoublePageTitlePageLayout"@.len() != "TogglePageBorders"@.len());
            reveal_strlit("ToggleSidebar");
            assert("DoublePageTitlePageLayout"@.len() != "ToggleSidebar"@.len());
            reveal_strlit("TogglePresentationMode");
            assert("DoublePageTitlePageLayout"@.len() != "TogglePresentationMode"@.len());
            reveal_strlit("ToggleFullscreen");
            assert("DoublePageTitlePageLayout"@.len() != "ToggleFullscreen"@.len());
            reveal_strlit("PrintPdf");
            assert("DoublePageTitlePageLayout"@.len() != "PrintPdf"@.len());
            reveal_strlit("ZoomIn");
            assert("DoublePageTitlePageLayout"@.len() != "ZoomIn"@.len());
            reveal_strlit("ZoomOut");
            assert("DoublePageTitlePageLayout"@.len() != "ZoomOut"@.len());
            reveal_strlit("ZoomHome");
            assert("DoublePageTitlePageLayout"@.len() != "ZoomHome"@.len());
            reveal_strlit("ZoomFit");
            assert("DoublePageTitlePageLayout"@.len() != "ZoomFit"@.len());
            reveal_strlit("SinglePageLayout");
            assert("DoublePageTitlePageLayout"@.len() != "SinglePageLayout"@.len());
            reveal_strlit("DoublePageLayout");
            assert("DoublePageTitlePageLayout"@.len() != "DoublePageLayout"@.len());
        },
        MenuCommand::SetLayout(PageLayout::Presentation) => {
            reveal_strlit("PresentationLayout");
            reveal_strlit("OpenFileFinder");
            assert("PresentationLayout"@.len() != "OpenFileFinder"@.len());
            reveal_strlit("CloseActiveTab");
            assert("PresentationLayout"@.len() != "CloseActiveTab"@.len());
            reveal_strlit("ToggleDarkModeUi");
            assert("PresentationLayout"@.len() != "ToggleDarkModeUi"@.len());
            reveal_strlit("ToggleDarkModePdf");
            assert("PresentationLayout"@.len() != "ToggleDarkModePdf"@.len());
            reveal_strlit("TogglePageBorders");
            assert("PresentationLayout"@.len() != "TogglePageBorders"@.len());
            reveal_strlit("ToggleSidebar");
            assert("PresentationLayout"@.len() != "ToggleSidebar"@.len());
            reveal_strlit("TogglePresentationMode");
            assert("PresentationLayout"@.len() != "TogglePresentationMode"@.len());
            reveal_strlit("ToggleFullscreen");
            assert("PresentationLayout"@.len() != "ToggleFullscreen"@.len());
            reveal_strlit("PrintPdf");
            assert("PresentationLayout"@.len() != "PrintPdf"@.len());
            reveal_strlit("ZoomIn");
            assert("PresentationLayout"@.len() != "ZoomIn"@.len());
            reveal_strlit("ZoomOut");
            assert("PresentationLayout"@.len() != "ZoomOut"@.len());
            reveal_strlit("ZoomHome");
            assert("PresentationLayout"@.len() != "ZoomHome"@.len());
            reveal_strlit("ZoomFit");
            assert("PresentationLayout"@.len() != "ZoomFit"@.len());
            reveal_strlit("SinglePageLayout");
            assert("PresentationLayout"@.len() != "SinglePageLayout"@.len());
            reveal_strlit("DoublePageLayout");
            assert("PresentationLayout"@.len() != "DoublePageLayout"@.len());
            reveal_strlit("DoublePageTitlePageLayout");
            assert("PresentationLayout"@.len() != "DoublePageTitlePageLayout"@.len());
        },
    }
}

/// The default labels of the menu entries, each naming what its command does: "Open" opens
/// the file finder, "Zoom In" zooms in and "Zoom Out" out, "Zoom 100%" goes back to the
/// natural size, "Fit To Screen" fits the page, and each layout entry names its layout.
pub proof fn lemma_default_labels()
    ensures
        label_of(MenuCommand::OpenNewFileFinder) == "Open"@,
        label_of(MenuCommand::PrintPdf) == "Print"@,
        label_of(MenuCommand::CloseActiveTab) == "Close"@,
        label_of(MenuCommand::ToggleDarkModeUi) == "Dark Interface"@,
        label_of(MenuCommand::ToggleDarkModePdf) == "Dark Pdf"@,
        label_of(MenuCommand::TogglePageBorders) == "Page Borders"@,
        label_of(MenuCommand::ZoomIn) == "Zoom In"@,
        label_of(MenuCommand::ZoomOut) == "Zoom Out"@,
        label_of(MenuCommand::ZoomHome) == "Zoom 100%"@,
        label_of(MenuCommand::ZoomFit) == "Fit To Screen"@,
        label_of(MenuCommand::ToggleSidebar) == "Sidebar"@,
        label_of(MenuCommand::TogglePresentationMode) == "Presentation Mode"@,
        label_of(MenuCommand::ToggleFullscreen) == "Fullscreen"@,
        label_of(MenuCommand::SetLayout(PageLayout::SinglePage)) == "Single Page"@,
        label_of(MenuCommand::SetLayout(PageLayout::DoublePage)) == "Double Page"@,
        label_of(MenuCommand::SetLayout(PageLayout::DoublePageTitlePage)) == "Double Page w/ Title"@,
        label_of(MenuCommand::SetLayout(PageLayout::Presentation)) == "Presentation"@,
{
}

/// The identifier of a menu entry is the configuration name of the bindable action its
/// command stands for; only closing the current tab, bound as `CloseTab`, has the entry
/// `CloseActiveTab`.
pub proof fn lemma_menu_ids_are_action_names(name: Seq<char>, b: BindableMessage)
    requires
        bindable_named(name) == Some(b),
    ensures
        command_of_bindable(b) matches Some(c) ==> menu_id_of(c) == (if b == BindableMessage::CloseTab {
            "CloseActiveTab"@
        } else {
            name
        }),
{
}

/// A command is found again from the bindable action it corresponds to.
pub proof fn lemma_bindable_round_trip(c: MenuCommand)
    ensures
        command_of_bindable(bindable_of(c)) == Some(c),
{
}

/// A bindable action that stands for a command in the menus is that command's action.
pub proof fn lemma_bindable_of_command(b: BindableMessage)
    ensures
        command_of_bindable(b) matches Some(c) ==> bindable_of(c) == b,
{
}

/// Every button of the menus triggers an action that stands for a menu command.
pub proof fn lemma_menu_buttons_have_commands(i: int, j: int)
    requires
        0 <= i < menu_layout().len(),
        0 <= j < menu_layout()[i].1.len(),
    ensures
        menu_layout()[i].1[j] matches CommonMenuItem::Button(b) ==> command_of_bindable(b) is Some,
{
}

} // verus!
