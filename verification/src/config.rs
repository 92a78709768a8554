//! The configuration file: its commands (`Bind`, `MouseBind`, `Set`), the mouse
//! bindings, the settings, and the parser that collects errors line by line.
use vstd::prelude::*;
use keybinds::Keybinds;
use keybinds::Keybind;
use crate::keys::{keybind_parts, keybind_actions, keybind_sequences, key_sequence_parse, bind_key, empty_keybinds, keybind_count, keybind_action_at, keybind_at, push_keybind_from};
use crate::numbers::{decimal, decimal_chars, parse_u32, parse_u32_spec, is_float_literal, is_float_literal_chars};
use crate::text::{push_str, push_all, lines, trim, split_lines, trim_chars, is_literal, to_chars, from_chars, Pieces, split, split_chars, starts_with, starts_with_literal};

verus! {

/// The buttons (and wheel directions) that mouse bindings name.
#[derive(Debug, Clone, Copy, PartialEq, Eq, Structural, Hash)]
pub enum MouseButton {
    Left,
    Middle,
    Right,
    Back,
    Forward,
    ScrollUp,
    ScrollDown,
}

/// The modifier keys held during a mouse input.
#[derive(Debug, Clone, Copy, PartialEq, Eq, Structural, Hash)]
pub struct MouseModifiers {
    pub ctrl: bool,
    pub shift: bool,
}

impl Default for MouseModifiers {
    fn default() -> (r: Self)
        ensures
            !r.ctrl,
            !r.shift,
    {
        MouseModifiers { ctrl: false, shift: false }
    }
}

/// A mouse button together with the modifiers held.
#[derive(Debug, Clone, Copy, PartialEq, Eq, Structural, Hash)]
pub struct MouseInput {
    pub button: MouseButton,
    pub modifiers: MouseModifiers,
}

/// What a mouse input does in the document view.
#[derive(Debug, Clone, Copy, PartialEq, Eq, Structural)]
pub enum MouseAction {
    Panning,
    Selection,
    NextPage,
    PreviousPage,
    ZoomIn,
    ZoomOut,
    MoveUp,
    MoveDown,
    MoveLeft,
    MoveRight,
}

/// A mouse binding: an input and the action it triggers.
pub type MouseBinding = (MouseInput, MouseAction);

/// The actions that keys can be bound to.
#[derive(Debug, Clone, Copy, PartialEq, Eq, Structural)]
pub enum BindableMessage {
    MoveUp,
    MoveDown,
    MoveLeft,
    MoveRight,
    NextPage,
    PreviousPage,
    ZoomHome,
    ZoomFit,
    ZoomIn,
    ZoomOut,
    NextTab,
    PreviousTab,
    ToggleDarkModePdf,
    ToggleDarkModeUi,
    TogglePageBorders,
    ToggleSidebar,
    ToggleLinkHitboxes,
    OpenFileFinder,
    CloseTab,
    PrintPdf,
    Exit,
    JumpBack,
    JumpForward,
    TogglePresentationMode,
    ToggleFullscreen,
    SinglePageLayout,
    DoublePageLayout,
    DoublePageTitlePageLayout,
    PresentationLayout,
}

/// The commands a configuration line can start with.
#[derive(Debug, Clone, Copy, PartialEq, Eq, Structural)]
pub enum Command {
    Bind,
    MouseBind,
    /// The `Set` command.
    Setting,
}

/// The mouse button named `s` (the variant's own name).
pub open spec fn mouse_button_named(s: Seq<char>) -> Option<MouseButton> {
    if s == "Left"@ {
        Some(MouseButton::Left)
    } else if s == "Middle"@ {
        Some(MouseButton::Middle)
    } else if s == "Right"@ {
        Some(MouseButton::Right)
    } else if s == "Back"@ {
        Some(MouseButton::Back)
    } else if s == "Forward"@ {
        Some(MouseButton::Forward)
    } else if s == "ScrollUp"@ {
        Some(MouseButton::ScrollUp)
    } else if s == "ScrollDown"@ {
        Some(MouseButton::ScrollDown)
    } else {
        None
    }
}

/// The mouse action named `s` (the variant's own name).
pub open spec fn mouse_action_named(s: Seq<char>) -> Option<MouseAction> {
    if s == "Panning"@ {
        Some(MouseAction::Panning)
    } else if s == "Selection"@ {
        Some(MouseAction::Selection)
    } else if s == "NextPage"@ {
        Some(MouseAction::NextPage)
    } else if s == "PreviousPage"@ {
        Some(MouseAction::PreviousPage)
    } else if s == "ZoomIn"@ {
        Some(MouseAction::ZoomIn)
    } else if s == "ZoomOut"@ {
        Some(MouseAction::ZoomOut)
    } else if s == "MoveUp"@ {
        Some(MouseAction::MoveUp)
    } else if s == "MoveDown"@ {
        Some(MouseAction::MoveDown)
    } else if s == "MoveLeft"@ {
        Some(MouseAction::MoveLeft)
    } else if s == "MoveRight"@ {
        Some(MouseAction::MoveRight)
    } else {
        None
    }
}

/// The bindable message named `s` (the variant's own name).
pub open spec fn bindable_named(s: Seq<char>) -> Option<BindableMessage> {
    if s == "MoveUp"@ {
        Some(BindableMessage::MoveUp)
    } else if s == "MoveDown"@ {
        Some(BindableMessage::MoveDown)
    } else if s == "MoveLeft"@ {
        Some(BindableMessage::MoveLeft)
    } else if s == "MoveRight"@ {
        Some(BindableMessage::MoveRight)
    } else if s == "NextPage"@ {
        Some(BindableMessage::NextPage)
    } else if s == "PreviousPage"@ {
        Some(BindableMessage::PreviousPage)
    } else if s == "ZoomHome"@ {
        Some(BindableMessage::ZoomHome)
    } else if s == "ZoomFit"@ {
        Some(BindableMessage::ZoomFit)
    } else if s == "ZoomIn"@ {
        Some(BindableMessage::ZoomIn)
    } else if s == "ZoomOut"@ {
        Some(BindableMessage::ZoomOut)
    } else if s == "NextTab"@ {
        Some(BindableMessage::NextTab)
    } else if s == "PreviousTab"@ {
        Some(BindableMessage::PreviousTab)
    } else if s == "ToggleDarkModePdf"@ {
        Some(BindableMessage::ToggleDarkModePdf)
    } else if s == "ToggleDarkModeUi"@ {
        Some(BindableMessage::ToggleDarkModeUi)
    } else if s == "TogglePageBorders"@ {
        Some(BindableMessage::TogglePageBorders)
    } else if s == "ToggleSidebar"@ {
        Some(BindableMessage::ToggleSidebar)
    } else if s == "ToggleLinkHitboxes"@ {
        Some(BindableMessage::ToggleLinkHitboxes)
    } else if s == "OpenFileFinder"@ {
        Some(BindableMessage::OpenFileFinder)
    } else if s == "CloseTab"@ {
        Some(BindableMessage::CloseTab)
    } else if s == "PrintPdf"@ {
        Some(BindableMessage::PrintPdf)
    } else if s == "Exit"@ {
        Some(BindableMessage::Exit)
    } else if s == "JumpBack"@ {
        Some(BindableMessage::JumpBack)
    } else if s == "JumpForward"@ {
        Some(BindableMessage::JumpForward)
    } else if s == "TogglePresentationMode"@ {
        Some(BindableMessage::TogglePresentationMode)
    } else if s == "ToggleFullscreen"@ {
        Some(BindableMessage::ToggleFullscreen)
    } else if s == "SinglePageLayout"@ {
        Some(BindableMessage::SinglePageLayout)
    } else if s == "DoublePageLayout"@ {
        Some(BindableMessage::DoublePageLayout)
    } else if s == "DoublePageTitlePageLayout"@ {
        Some(BindableMessage::DoublePageTitlePageLayout)
    } else if s == "PresentationLayout"@ {
        Some(BindableMessage::PresentationLayout)
    } else {
        None
    }
}

/// The command named `s`.
pub open spec fn command_named(s: Seq<char>) -> Option<Command> {
    if s == "Bind"@ {
        Some(Command::Bind)
    } else if s == "MouseBind"@ {
        Some(Command::MouseBind)
    } else if s == "Set"@ {
        Some(Command::Setting)
    } else {
        None
    }
}

impl MouseButton {
    /// The button named `s`, as its derived `FromStr` reads names.
    pub fn from_name(s: &[char]) -> (r: Option<MouseButton>)
        ensures
            r == mouse_button_named(s@),
    {
        if is_literal(s, "Left") {
            Some(MouseButton::Left)
        } else if is_literal(s, "Middle") {
            Some(MouseButton::Middle)
        } else if is_literal(s, "Right") {
            Some(MouseButton::Right)
        } else if is_literal(s, "Back") {
            Some(MouseButton::Back)
        } else if is_literal(s, "Forward") {
            Some(MouseButton::Forward)
        } else if is_literal(s, "ScrollUp") {
            Some(MouseButton::ScrollUp)
        } else if is_literal(s, "ScrollDown") {
            Some(MouseButton::ScrollDown)
        } else {
            None
        }
    }
}

impl MouseAction {
    /// The action named `s`, as its derived `FromStr` reads names.
    pub fn from_name(s: &[char]) -> (r: Option<MouseAction>)
        ensures
            r == mouse_action_named(s@),
    {
        if is_literal(s, "Panning") {
            Some(MouseAction::Panning)
        } else if is_literal(s, "Selection") {
            Some(MouseAction::Selection)
        } else if is_literal(s, "NextPage") {
            Some(MouseAction::NextPage)
        } else if is_literal(s, "PreviousPage") {
            Some(MouseAction::PreviousPage)
        } else if is_literal(s, "ZoomIn") {
            Some(MouseAction::ZoomIn)
        } else if is_literal(s, "ZoomOut") {
            Some(MouseAction::ZoomOut)
        } else if is_literal(s, "MoveUp") {
            Some(MouseAction::MoveUp)
        } else if is_literal(s, "MoveDown") {
            Some(MouseAction::MoveDown)
        } else if is_literal(s, "MoveLeft") {
            Some(MouseAction::MoveLeft)
        } else if is_literal(s, "MoveRight") {
            Some(MouseAction::MoveRight)
        } else {
            None
        }
    }
}

impl BindableMessage {
    /// The message named `s`, as its derived `FromStr` reads names.
    pub fn from_name(s: &[char]) -> (r: Option<BindableMessage>)
        ensures
            r == bindable_named(s@),
    {
        if is_literal(s, "MoveUp") {
            Some(BindableMessage::MoveUp)
        } else if is_literal(s, "MoveDown") {
            Some(BindableMessage::MoveDown)
        } else if is_literal(s, "MoveLeft") {
            Some(BindableMessage::MoveLeft)
        } else if is_literal(s, "MoveRight") {
            Some(BindableMessage::MoveRight)
        } else if is_literal(s, "NextPage") {
            Some(BindableMessage::NextPage)
        } else if is_literal(s, "PreviousPage") {
            Some(BindableMessage::PreviousPage)
        } else if is_literal(s, "ZoomHome") {
            Some(BindableMessage::ZoomHome)
        } else if is_literal(s, "ZoomFit") {
            Some(BindableMessage::ZoomFit)
        } else if is_literal(s, "ZoomIn") {
            Some(BindableMessage::ZoomIn)
        } else if is_literal(s, "ZoomOut") {
            Some(BindableMessage::ZoomOut)
        } else if is_literal(s, "NextTab") {
            Some(BindableMessage::NextTab)
        } else if is_literal(s, "PreviousTab") {
            Some(BindableMessage::PreviousTab)
        } else if is_literal(s, "ToggleDarkModePdf") {
            Some(BindableMessage::ToggleDarkModePdf)
        } else if is_literal(s, "ToggleDarkModeUi") {
            Some(BindableMessage::ToggleDarkModeUi)
        } else if is_literal(s, "TogglePageBorders") {
            Some(BindableMessage::TogglePageBorders)
        } else if is_literal(s, "ToggleSidebar") {
            Some(BindableMessage::ToggleSidebar)
        } else if is_literal(s, "ToggleLinkHitboxes") {
            Some(BindableMessage::ToggleLinkHitboxes)
        } else if is_literal(s, "OpenFileFinder") {
            Some(BindableMessage::OpenFileFinder)
        } else if is_literal(s, "CloseTab") {
            Some(BindableMessage::CloseTab)
        } else if is_literal(s, "PrintPdf") {
            Some(BindableMessage::PrintPdf)
        } else if is_literal(s, "Exit") {
            Some(BindableMessage::Exit)
        } else if is_literal(s, "JumpBack") {
            Some(BindableMessage::JumpBack)
        } else if is_literal(s, "JumpForward") {
            Some(BindableMessage::JumpForward)
        } else if is_literal(s, "TogglePresentationMode") {
            Some(BindableMessage::TogglePresentationMode)
        } else if is_literal(s, "ToggleFullscreen") {
            Some(BindableMessage::ToggleFullscreen)
        } else if is_literal(s, "SinglePageLayout") {
            Some(BindableMessage::SinglePageLayout)
        } else if is_literal(s, "DoublePageLayout") {
            Some(BindableMessage::DoublePageLayout)
        } else if is_literal(s, "DoublePageTitlePageLayout") {
            Some(BindableMessage::DoublePageTitlePageLayout)
        } else if is_literal(s, "PresentationLayout") {
            Some(BindableMessage::PresentationLayout)
        } else {
            None
        }
    }
}

impl Command {
    /// The command named `s`.
    pub fn from_name(s: &[char]) -> (r: Option<Command>)
        ensures
            r == command_named(s@),
    {
        if is_literal(s, "Bind") {
            Some(Command::Bind)
        } else if is_literal(s, "MouseBind") {
            Some(Command::MouseBind)
        } else if is_literal(s, "Set") {
            Some(Command::Setting)
        } else {
            None
        }
    }
}


/// The state of the tokenizer of a configuration line: the parts completed so far, the part
/// being read, and whether a quotation is open.
pub struct Tokens {
    pub pieces: Pieces,
    pub in_quotes: bool,
}

/// One character of `parse_line_parts`: a `"` opens or closes a quotation (and is dropped),
/// a space or tab outside quotes ends the current part (if it has characters), anything
/// else extends the current part.
pub open spec fn tokenize_step(t: Tokens, c: char) -> Tokens {
    if c == '"' {
        Tokens { pieces: t.pieces, in_quotes: !t.in_quotes }
    } else if (c == ' ' || c == '\t') && !t.in_quotes {
        if t.pieces.current.len() > 0 {
            Tokens {
                pieces: Pieces { done: t.pieces.done.push(t.pieces.current), current: Seq::empty() },
                in_quotes: false,
            }
        } else {
            t
        }
    } else {
        Tokens {
            pieces: Pieces { done: t.pieces.done, current: t.pieces.current.push(c) },
            in_quotes: t.in_quotes,
        }
    }
}

pub open spec fn tokenize_scan(line: Seq<char>) -> Tokens
    decreases line.len(),
{
    if line.len() == 0 {
        Tokens { pieces: Pieces { done: Seq::empty(), current: Seq::empty() }, in_quotes: false }
    } else {
        tokenize_step(tokenize_scan(line.drop_last()), line.last())
    }
}

/// The parts of a configuration line: words separated by spaces or tabs, where a quoted
/// stretch keeps its blanks; an unterminated quotation is an error.
pub open spec fn line_parts(line: Seq<char>) -> Result<Seq<Seq<char>>, Seq<char>> {
    let t = tokenize_scan(line);
    if t.in_quotes {
        Err("Unterminated quoted string"@)
    } else if t.pieces.current.len() > 0 {
        Ok(t.pieces.done.push(t.pieces.current))
    } else {
        Ok(t.pieces.done)
    }
}

/// Splits a configuration line into its parts (`line_parts`).
pub fn parse_line_parts(line: &[char]) -> (r: Result<Vec<Vec<char>>, String>)
    ensures
        match line_parts(line@) {
            Ok(parts) => r matches Ok(v) && v@.len() == parts.len() && forall|i: int|
                0 <= i < parts.len() ==> #[trigger] v@[i]@ == parts[i],
            Err(e) => r matches Err(m) && m@ == e,
        },
{
    let mut parts: Vec<Vec<char>> = Vec::new();
    let mut current: Vec<char> = Vec::new();
    let mut in_quotes = false;
    let mut i: usize = 0;
    while i < line.len()
        invariant
            i <= line@.len(),
            parts@.len() == tokenize_scan(line@.take(i as int)).pieces.done.len(),
            forall|k: int| 0 <= k < parts@.len() ==> #[trigger] parts@[k]@
                == tokenize_scan(line@.take(i as int)).pieces.done[k],
            current@ == tokenize_scan(line@.take(i as int)).pieces.current,
            in_quotes == tokenize_scan(line@.take(i as int)).in_quotes,
        decreases line@.len() - i,
    {
        let ch = line[i];
        assert(line@.take(i + 1).drop_last() =~= line@.take(i as int));
        if ch == '"' {
            in_quotes = !in_quotes;
        } else if (ch == ' ' || ch == '\t') && !in_quotes {
            if current.len() > 0 {
                parts.push(current);
                current = Vec::new();
            }
        } else {
            current.push(ch);
        }
        i = i + 1;
    }
    assert(line@.take(line@.len() as int) =~= line@);
    if in_quotes {
        return Err(String::from_str("Unterminated quoted string"));
    }
    if current.len() > 0 {
        parts.push(current);
    }
    Ok(parts)
}


/// No modifier held.
pub open spec fn no_modifiers() -> MouseModifiers {
    MouseModifiers { ctrl: false, shift: false }
}

/// Applies the modifier names `parts` in order: `Ctrl` and `Shift` set their flag, any other
/// name is an error.
pub open spec fn apply_modifiers(parts: Seq<Seq<char>>, m: MouseModifiers) -> Result<
    MouseModifiers,
    Seq<char>,
>
    decreases parts.len(),
{
    if parts.len() == 0 {
        Ok(m)
    } else if parts[0] == "Ctrl"@ {
        apply_modifiers(parts.drop_first(), MouseModifiers { ctrl: true, shift: m.shift })
    } else if parts[0] == "Shift"@ {
        apply_modifiers(parts.drop_first(), MouseModifiers { ctrl: m.ctrl, shift: true })
    } else {
        Err("Unknown modifier: "@ + parts[0])
    }
}

/// The message of a button name that names no button.
pub open spec fn unknown_variant_message() -> Seq<char> {
    "Matching variant not found"@
}

/// What `MouseInput::from_str` gives for `s`: `+`-separated modifiers (`Ctrl`, `Shift`)
/// before a button name, which may carry a `Mouse` prefix.
pub open spec fn mouse_input_parse(s: Seq<char>) -> Result<MouseInput, Seq<char>> {
    let parts = split(s, '+');
    let mods = if parts.len() > 1 { apply_modifiers(parts.drop_last(), no_modifiers()) } else { Ok(no_modifiers()) };
    let button_str = if parts.len() > 1 { parts.last() } else { s };
    let name = if starts_with(button_str, "Mouse"@) { button_str.skip("Mouse"@.len() as int) } else { button_str };
    match mods {
        Err(e) => Err(e),
        Ok(m) => match mouse_button_named(name) {
            Some(b) => Ok(MouseInput { button: b, modifiers: m }),
            None => Err(unknown_variant_message()),
        },
    }
}

/// `a` followed by `b`.
fn concat_chars(a: &str, b: &[char]) -> (r: Vec<char>)
    ensures
        r@ == a@ + b@,
{
    let mut r = to_chars(a);
    let mut i: usize = 0;
    let ghost start = r@;
    while i < b.len()
        invariant
            start == a@,
            i <= b@.len(),
            r@ == start + b@.take(i as int),
        decreases b@.len() - i,
    {
        r.push(b[i]);
        i = i + 1;
    }
    assert(b@.take(b@.len() as int) =~= b@);
    r
}

impl MouseInput {
    /// Parses a mouse input such as `Ctrl+Shift+Left` (`mouse_input_parse`).
    pub fn parse(s: &[char]) -> (r: Result<MouseInput, String>)
        ensures
            match mouse_input_parse(s@) {
                Ok(mi) => r == Ok::<MouseInput, String>(mi),
                Err(e) => r matches Err(m) && m@ == e,
            },
    {
        let parts = split_chars(s, '+');
        let mut modifiers = MouseModifiers { ctrl: false, shift: false };
        let ghost all = split(s@, '+');
        if parts.len() > 1 {
            let last = parts.len() - 1;
            let mut i: usize = 0;
            assert(all.drop_last().skip(0) =~= all.drop_last());
            while i < last
                invariant
                    last == parts@.len() - 1,
                    parts@.len() == all.len(),
                    all == split(s@, '+'),
                    forall|k: int| 0 <= k < parts@.len() ==> #[trigger] parts@[k]@ == all[k],
                    i <= last,
                    apply_modifiers(all.drop_last(), no_modifiers()) == apply_modifiers(
                        all.drop_last().skip(i as int),
                        modifiers,
                    ),
                decreases last - i,
            {
                let part = &parts[i];
                assert(all.drop_last().skip(i as int)[0] == part@);
                assert(all.drop_last().skip(i as int).drop_first() =~= all.drop_last().skip(
                    i + 1,
                ));
                if is_literal(part.as_slice(), "Ctrl") {
                    modifiers.ctrl = true;
                } else if is_literal(part.as_slice(), "Shift") {
                    modifiers.shift = true;
                } else {
                    let msg = concat_chars("Unknown modifier: ", part.as_slice());
                    return Err(from_chars(msg.as_slice()));
                }
                i = i + 1;
            }
            assert(all.drop_last().skip(last as int) =~= Seq::<Seq<char>>::empty());
        }
        let button_str: &[char] = if parts.len() > 1 { parts[parts.len() - 1].as_slice() } else { s };
        let prefix = to_chars("Mouse");
        let button = if starts_with_literal(button_str, "Mouse") {
            let mut name: Vec<char> = Vec::new();
            let mut j: usize = prefix.len();
            while j < button_str.len()
                invariant
                    prefix@ == "Mouse"@,
                    prefix@.len() <= j <= button_str@.len(),
                    name@ == button_str@.subrange(prefix@.len() as int, j as int),
                decreases button_str@.len() - j,
            {
                name.push(button_str[j]);
                j = j + 1;
            }
            MouseButton::from_name(name.as_slice())
        } else {
            MouseButton::from_name(button_str)
        };
        match button {
            Some(b) => Ok(MouseInput { button: b, modifiers }),
            None => Err(String::from_str("Matching variant not found")),
        }
    }
}

impl std::str::FromStr for MouseInput {
    type Err = String;

    fn from_str(s: &str) -> (r: Result<MouseInput, String>)
        ensures
            match mouse_input_parse(s@) {
                Ok(mi) => r == Ok::<MouseInput, String>(mi),
                Err(e) => r matches Err(m) && m@ == e,
            },
    {
        let chars = to_chars(s);
        MouseInput::parse(chars.as_slice())
    }
}



/// The configuration: key and mouse bindings and the settings.
#[derive(Debug)]
pub struct Config {
    pub keyboard: Keybinds<BindableMessage>,
    pub mouse: Vec<MouseBinding>,
    pub rpc_enabled: bool,
    pub rpc_port: u32,
    /// The trackpad sensitivity as written in the configuration: a decimal literal that
    /// `f32::from_str` accepts (the number itself is read where it is used).
    pub trackpad_sensitivity: String,
    pub page_borders: bool,
    pub dark_mode: bool,
    pub invert_pdf: bool,
    pub open_sidebar: bool,
}

/// What a configuration holds, as values.
pub struct ConfigModel {
    /// The actions of the key bindings, in order.
    pub actions: Seq<BindableMessage>,
    /// The key sequences of the key bindings (in canonical text), in order.
    pub sequences: Seq<Seq<char>>,
    pub mouse: Seq<MouseBinding>,
    pub rpc_enabled: bool,
    pub rpc_port: u32,
    pub trackpad_sensitivity: Seq<char>,
    pub page_borders: bool,
    pub dark_mode: bool,
    pub invert_pdf: bool,
    pub open_sidebar: bool,
}

impl View for Config {
    type V = ConfigModel;

    open spec fn view(&self) -> ConfigModel {
        ConfigModel {
            actions: keybind_actions(self.keyboard),
            sequences: keybind_sequences(self.keyboard),
            mouse: self.mouse@,
            rpc_enabled: self.rpc_enabled,
            rpc_port: self.rpc_port,
            trackpad_sensitivity: self.trackpad_sensitivity@,
            page_borders: self.page_borders,
            dark_mode: self.dark_mode,
            invert_pdf: self.invert_pdf,
            open_sidebar: self.open_sidebar,
        }
    }
}

/// The value of a boolean setting: `True`, `true`, `1` or `False`, `false`, `0`.
pub open spec fn boolean_value(v: Seq<char>) -> Option<bool> {
    if v == "True"@ || v == "true"@ || v == "1"@ {
        Some(true)
    } else if v == "False"@ || v == "false"@ || v == "0"@ {
        Some(false)
    } else {
        None
    }
}

/// The error for a boolean setting whose value is not a boolean.
pub open spec fn boolean_error(name: Seq<char>, v: Seq<char>) -> Seq<char> {
    "Invalid boolean value for "@ + name + ": '"@ + v + "'. Use True/False"@
}

/// Reads the value of the boolean setting `value_name`.
pub fn parse_boolean(value_name: &str, value: &[char]) -> (r: Result<bool, String>)
    ensures
        match boolean_value(value@) {
            Some(b) => r == Ok::<bool, String>(b),
            None => r matches Err(m) && m@ == boolean_error(value_name@, value@),
        },
{
    if is_literal(value, "True") || is_literal(value, "true") || is_literal(value, "1") {
        Ok(true)
    } else if is_literal(value, "False") || is_literal(value, "false") || is_literal(value, "0") {
        Ok(false)
    } else {
        let mut m: Vec<char> = Vec::new();
        push_str(&mut m, "Invalid boolean value for ");
        push_str(&mut m, value_name);
        push_str(&mut m, ": '");
        push_all(&mut m, value);
        push_str(&mut m, "'. Use True/False");
        Err(from_chars(m.as_slice()))
    }
}

/// The model `m` with one boolean setting replaced.
pub open spec fn set_flag(m: ConfigModel, setting: Seq<char>, b: bool) -> ConfigModel {
    if setting == "DarkModePdf"@ {
        ConfigModel { invert_pdf: b, ..m }
    } else if setting == "DarkModeUi"@ {
        ConfigModel { dark_mode: b, ..m }
    } else if setting == "OpenSidebar"@ {
        ConfigModel { open_sidebar: b, ..m }
    } else if setting == "PageBorders"@ {
        ConfigModel { page_borders: b, ..m }
    } else {
        ConfigModel { rpc_enabled: b, ..m }
    }
}

/// Whether `setting` names a boolean setting.
pub open spec fn is_flag_setting(setting: Seq<char>) -> bool {
    setting == "DarkModePdf"@ || setting == "DarkModeUi"@ || setting == "OpenSidebar"@
        || setting == "PageBorders"@ || setting == "Rpc"@
}

/// The effect of `Set <setting> <value>`.
pub open spec fn apply_setting(m: ConfigModel, setting: Seq<char>, value: Seq<char>) -> (
    ConfigModel,
    Option<Seq<char>>,
) {
    if is_flag_setting(setting) {
        match boolean_value(value) {
            Some(b) => (set_flag(m, setting, b), None),
            None => (m, Some(boolean_error(setting, value))),
        }
    } else if setting == "RpcPort"@ {
        match parse_u32_spec(value) {
            Some(p) => (ConfigModel { rpc_port: p, ..m }, None),
            None => (
                m,
                Some("Invalid port number: '"@ + value + "'. Must be a valid integer"@),
            ),
        }
    } else if setting == "TrackpadSensitivity"@ {
        if is_float_literal(value) {
            (ConfigModel { trackpad_sensitivity: value, ..m }, None)
        } else {
            (
                m,
                Some(
                    "Invalid float value for TrackpadSensitivity: '"@ + value
                        + "'. Must be a valid number"@,
                ),
            )
        }
    } else {
        (m, Some("Unknown setting: "@ + setting))
    }
}

/// The effect of a configuration line split into `parts`: the new model and the error, if
/// the line is refused (a refused line changes nothing).
pub open spec fn apply_parts(m: ConfigModel, parts: Seq<Seq<char>>) -> (
    ConfigModel,
    Option<Seq<char>>,
) {
    if parts.len() == 0 {
        (m, None)
    } else {
        match command_named(parts[0]) {
            None => (m, Some("Unknown command: "@ + parts[0])),
            Some(Command::Bind) => if parts.len() != 3 {
                (m, Some("Bind command requires exactly 2 arguments: <key> <action>"@))
            } else {
                match bindable_named(parts[2]) {
                    None => (m, Some("Unknown action: "@ + parts[2])),
                    Some(a) => match key_sequence_parse(parts[1]) {
                        Ok(text) => (
                            ConfigModel {
                                actions: m.actions.push(a),
                                sequences: m.sequences.push(text),
                                ..m
                            },
                            None,
                        ),
                        Err(e) => (m, Some("Failed to bind key '"@ + parts[1] + "': "@ + e)),
                    },
                }
            },
            Some(Command::MouseBind) => if parts.len() != 3 {
                (
                    m,
                    Some(
                        "MouseBind command requires exactly 2 arguments: <mouse_input> <action>"@,
                    ),
                )
            } else {
                match mouse_input_parse(parts[1]) {
                    Err(e) => (m, Some("Invalid mouse input '"@ + parts[1] + "': "@ + e)),
                    Ok(mi) => match mouse_action_named(parts[2]) {
                        None => (m, Some("Unknown mouse action: "@ + parts[2])),
                        Some(ma) => (ConfigModel { mouse: m.mouse.push((mi, ma)), ..m }, None),
                    },
                }
            },
            Some(Command::Setting) => if parts.len() != 3 {
                (m, Some("Set command requires exactly 2 arguments: <setting> <value>"@))
            } else {
                apply_setting(m, parts[1], parts[2])
            },
        }
    }
}

/// The effect of one (trimmed) configuration line.
pub open spec fn line_effect(m: ConfigModel, line: Seq<char>) -> (ConfigModel, Option<Seq<char>>) {
    match line_parts(line) {
        Err(e) => (m, Some(e)),
        Ok(parts) => apply_parts(m, parts),
    }
}


impl Config {
    /// Applies `Set <setting> <value>` to `self`.
    fn apply_setting(&mut self, setting: &[char], value: &[char]) -> (r: Result<(), String>)
        ensures
            final(self)@ == apply_setting(old(self)@, setting@, value@).0,
            match apply_setting(old(self)@, setting@, value@).1 {
                None => r is Ok,
                Some(e) => r matches Err(m) && m@ == e,
            },
    {
        if is_literal(setting, "DarkModePdf") {
            self.invert_pdf = parse_boolean("DarkModePdf", value)?;
        } else if is_literal(setting, "DarkModeUi") {
            self.dark_mode = parse_boolean("DarkModeUi", value)?;
        } else if is_literal(setting, "OpenSidebar") {
            self.open_sidebar = parse_boolean("OpenSidebar", value)?;
        } else if is_literal(setting, "PageBorders") {
            self.page_borders = parse_boolean("PageBorders", value)?;
        } else if is_literal(setting, "Rpc") {
            self.rpc_enabled = parse_boolean("Rpc", value)?;
        } else if is_literal(setting, "RpcPort") {
            match parse_u32(value) {
                Some(p) => {
                    self.rpc_port = p;
                },
                None => {
                    let mut m: Vec<char> = Vec::new();
                    push_str(&mut m, "Invalid port number: '");
                    push_all(&mut m, value);
                    push_str(&mut m, "'. Must be a valid integer");
                    return Err(from_chars(m.as_slice()));
                },
            }
        } else if is_literal(setting, "TrackpadSensitivity") {
            if is_float_literal_chars(value) {
                self.trackpad_sensitivity = from_chars(value);
            } else {
                let mut m: Vec<char> = Vec::new();
                push_str(&mut m, "Invalid float value for TrackpadSensitivity: '");
                push_all(&mut m, value);
                push_str(&mut m, "'. Must be a valid number");
                return Err(from_chars(m.as_slice()));
            }
        } else {
            let mut m: Vec<char> = Vec::new();
            push_str(&mut m, "Unknown setting: ");
            push_all(&mut m, setting);
            return Err(from_chars(m.as_slice()));
        }
        Ok(())
    }

    /// Applies the configuration line `line` (already trimmed) to `config`.
    pub fn parse_line_chars(line: &[char], config: &mut Config) -> (r: Result<(), String>)
        ensures
            final(config)@ == line_effect(old(config)@, line@).0,
            match line_effect(old(config)@, line@).1 {
                None => r is Ok,
                Some(e) => r matches Err(m) && m@ == e,
            },
    {
        let parts = parse_line_parts(line)?;
        let ghost ps = match line_parts(line@) {
            Ok(p) => p,
            Err(_) => Seq::empty(),
        };
        assert(parts@.len() == ps.len());
        if parts.len() == 0 {
            return Ok(());
        }
        assert(parts@[0]@ == ps[0]);
        let command = match Command::from_name(parts[0].as_slice()) {
            Some(cmd) => cmd,
            None => {
                let mut m: Vec<char> = Vec::new();
                push_str(&mut m, "Unknown command: ");
                push_all(&mut m, parts[0].as_slice());
                return Err(from_chars(m.as_slice()));
            },
        };
        match command {
            Command::Bind => {
                if parts.len() != 3 {
                    return Err(
                        String::from_str("Bind command requires exactly 2 arguments: <key> <action>"),
                    );
                }
                assert(parts@[1]@ == ps[1] && parts@[2]@ == ps[2]);
                let key_str = &parts[1];
                let action_str = &parts[2];
                let action = match BindableMessage::from_name(action_str.as_slice()) {
                    Some(a) => a,
                    None => {
                        let mut m: Vec<char> = Vec::new();
                        push_str(&mut m, "Unknown action: ");
                        push_all(&mut m, action_str.as_slice());
                        return Err(from_chars(m.as_slice()));
                    },
                };
                let key = from_chars(key_str.as_slice());
                match bind_key(&mut config.keyboard, key.as_str(), action) {
                    Ok(()) => {},
                    Err(e) => {
                        let mut m: Vec<char> = Vec::new();
                        push_str(&mut m, "Failed to bind key '");
                        push_all(&mut m, key_str.as_slice());
                        push_str(&mut m, "': ");
                        let ec = to_chars(e.as_str());
                        push_all(&mut m, ec.as_slice());
                        return Err(from_chars(m.as_slice()));
                    },
                }
            },
            Command::MouseBind => {
                if parts.len() != 3 {
                    return Err(
                        String::from_str(
                            "MouseBind command requires exactly 2 arguments: <mouse_input> <action>",
                        ),
                    );
                }
                assert(parts@[1]@ == ps[1] && parts@[2]@ == ps[2]);
                let mouse_input_str = &parts[1];
                let action_str = &parts[2];
                let mouse_input = match MouseInput::parse(mouse_input_str.as_slice()) {
                    Ok(mi) => mi,
                    Err(e) => {
                        let mut m: Vec<char> = Vec::new();
                        push_str(&mut m, "Invalid mouse input '");
                        push_all(&mut m, mouse_input_str.as_slice());
                        push_str(&mut m, "': ");
                        let ec = to_chars(e.as_str());
                        push_all(&mut m, ec.as_slice());
                        return Err(from_chars(m.as_slice()));
                    },
                };
                let mouse_action = match MouseAction::from_name(action_str.as_slice()) {
                    Some(a) => a,
                    None => {
                        let mut m: Vec<char> = Vec::new();
                        push_str(&mut m, "Unknown mouse action: ");
                        push_all(&mut m, action_str.as_slice());
                        return Err(from_chars(m.as_slice()));
                    },
                };
                config.mouse.push((mouse_input, mouse_action));
            },
            Command::Setting => {
                if parts.len() != 3 {
                    return Err(
                        String::from_str("Set command requires exactly 2 arguments: <setting> <value>"),
                    );
                }
                assert(parts@[1]@ == ps[1] && parts@[2]@ == ps[2]);
                config.apply_setting(parts[1].as_slice(), parts[2].as_slice())?;
            },
        }
        Ok(())
    }

    /// Applies the configuration line `line` (already trimmed) to `config`.
    pub fn parse_line(line: &str, config: &mut Config) -> (r: Result<(), String>)
        ensures
            final(config)@ == line_effect(old(config)@, line@).0,
            match line_effect(old(config)@, line@).1 {
                None => r is Ok,
                Some(e) => r matches Err(m) && m@ == e,
            },
    {
        let chars = to_chars(line);
        Self::parse_line_chars(chars.as_slice(), config)
    }
}


/// A refused configuration line: its number (from 1) and why it was refused.
#[derive(Debug, Clone)]
pub struct ConfigError {
    pub line_number: usize,
    pub message: String,
}

impl ConfigError {
    pub fn new(line_number: usize, message: String) -> (r: Self)
        ensures
            r.line_number == line_number,
            r.message == message,
    {
        Self { line_number, message }
    }
}

/// The configuration read from a text, with the errors of the lines it refused.
pub struct ConfigParseResult {
    pub config: Config,
    pub errors: Vec<ConfigError>,
}

/// The errors `errs` as (line number, message) pairs.
pub open spec fn error_views(errs: Seq<ConfigError>) -> Seq<(int, Seq<char>)> {
    errs.map_values(|e: ConfigError| (e.line_number as int, e.message@))
}

/// The settings of `Config::new`: no bindings, default settings.
pub open spec fn new_model() -> ConfigModel {
    ConfigModel {
        actions: Seq::empty(),
        sequences: Seq::empty(),
        mouse: Seq::empty(),
        rpc_enabled: false,
        rpc_port: 7890,
        trackpad_sensitivity: "1.0"@,
        page_borders: true,
        dark_mode: true,
        invert_pdf: false,
        open_sidebar: false,
    }
}

/// Whether a trimmed line is skipped: empty, or a comment starting with `#`.
pub open spec fn is_skipped(t: Seq<char>) -> bool {
    t.len() == 0 || t[0] == '#'
}

/// Reads the lines `lines` (numbered from 1) on top of `m0`: every line that is neither
/// empty nor a comment (after trimming) is applied; each refused line adds an error.
pub open spec fn parse_lines(m0: ConfigModel, lines: Seq<Seq<char>>) -> (
    ConfigModel,
    Seq<(int, Seq<char>)>,
)
    decreases lines.len(),
{
    if lines.len() == 0 {
        (m0, Seq::empty())
    } else {
        let (m, errs) = parse_lines(m0, lines.drop_last());
        let t = trim(lines.last());
        if is_skipped(t) {
            (m, errs)
        } else {
            let (m2, e) = line_effect(m, t);
            match e {
                Some(msg) => (m2, errs.push((lines.len() as int, msg))),
                None => (m2, errs),
            }
        }
    }
}

/// What reading the text `s` gives: the configuration and the errors.
pub open spec fn parse_text(s: Seq<char>) -> (ConfigModel, Seq<(int, Seq<char>)>) {
    parse_lines(new_model(), lines(s))
}

impl ConfigParseResult {
    pub fn new() -> (r: Self)
        ensures
            r.config@ == new_model(),
            r.errors@.len() == 0,
    {
        Self { config: Config::new(), errors: Vec::new() }
    }

    pub fn add_error(&mut self, line_number: usize, message: String)
        ensures
            final(self).config == old(self).config,
            final(self).errors@ == old(self).errors@.push(ConfigError { line_number, message }),
    {
        self.errors.push(ConfigError::new(line_number, message));
    }

    pub fn has_errors(&self) -> (r: bool)
        ensures
            r == (self.errors@.len() > 0),
    {
        self.errors.len() > 0
    }
}

impl Config {
    /// A configuration without bindings and with the default settings.
    pub fn new() -> (r: Self)
        ensures
            r@ == new_model(),
    {
        Config {
            keyboard: empty_keybinds(),
            mouse: Vec::new(),
            rpc_enabled: false,
            rpc_port: 7890,
            trackpad_sensitivity: String::from_str("1.0"),
            page_borders: true,
            dark_mode: true,
            invert_pdf: false,
            open_sidebar: false,
        }
    }

    /// Reads a configuration text line by line; lines that are refused are reported with
    /// their numbers and otherwise skipped.
    pub fn parse_with_errors(s: &str) -> (r: ConfigParseResult)
        ensures
            r.config@ == parse_text(s@).0,
            error_views(r.errors@) == parse_text(s@).1,
    {
        let mut result = ConfigParseResult::new();
        let chars = to_chars(s);
        let lines_v = split_lines(chars.as_slice());
        let ghost all = lines(s@);
        let mut i: usize = 0;
        while i < lines_v.len()
            invariant
                i <= lines_v@.len(),
                lines_v@.len() == all.len(),
                all == lines(s@),
                forall|k: int| 0 <= k < lines_v@.len() ==> #[trigger] lines_v@[k]@ == all[k],
                result.config@ == parse_lines(new_model(), all.take(i as int)).0,
                error_views(result.errors@) == parse_lines(new_model(), all.take(i as int)).1,
            decreases lines_v@.len() - i,
        {
            let line_num = i + 1;
            let trimmed = trim_chars(lines_v[i].as_slice());
            assert(all.take(i + 1).drop_last() =~= all.take(i as int));
            assert(all.take(i + 1).last() == lines_v@[i as int]@);
            if trimmed.len() == 0 || trimmed[0] == '#' {
                i = i + 1;
                continue;
            }
            match Self::parse_line_chars(trimmed.as_slice(), &mut result.config) {
                Ok(()) => {},
                Err(error) => {
                    let ghost before = result.errors@;
                    result.add_error(line_num, error);
                    assert(error_views(result.errors@) =~= error_views(before).push(
                        (line_num as int, error@),
                    ));
                },
            }
            i = i + 1;
        }
        assert(all.take(lines_v@.len() as int) =~= all);
        result
    }

    /// The mouse action bound to `input`: that of the first binding for it.
    pub fn get_mouse_action(&self, input: MouseInput) -> (r: Option<MouseAction>)
        ensures
            r == first_mouse_action(self.mouse@, input),
    {
        let mut i: usize = 0;
        assert(self.mouse@.skip(0) =~= self.mouse@);
        while i < self.mouse.len()
            invariant
                i <= self.mouse@.len(),
                first_mouse_action(self.mouse@, input) == first_mouse_action(
                    self.mouse@.skip(i as int),
                    input,
                ),
            decreases self.mouse@.len() - i,
        {
            assert(self.mouse@.skip(i as int).drop_first() =~= self.mouse@.skip(i + 1));
            let (mouse_input, action) = self.mouse[i];
            if mouse_input == input {
                return Some(action);
            }
            i = i + 1;
        }
        None
    }

    /// The first key binding whose action is `msg`, if any.
    pub fn get_binding_for_msg(&self, msg: BindableMessage) -> (r: Option<Keybind<BindableMessage>>)
        ensures
            r is Some <==> self@.actions.contains(msg),
            r matches Some(b) ==> exists|j: int|
                0 <= j < self@.actions.len() && self@.actions[j] == msg && (forall|k: int|
                    0 <= k < j ==> self@.actions[k] != msg) && keybind_parts(b) == (
                    msg,
                    self@.sequences[j],
                ),
    {
        let n = keybind_count(&self.keyboard);
        let mut i: usize = 0;
        while i < n
            invariant
                n == self@.actions.len(),
                n == self@.sequences.len(),
                i <= n,
                forall|j: int| 0 <= j < i ==> self@.actions[j] != msg,
            decreases n - i,
        {
            if keybind_action_at(&self.keyboard, i) == msg {
                let b = keybind_at(&self.keyboard, i);
                assert(self@.actions[i as int] == msg);
                return Some(b);
            }
            i = i + 1;
        }
        None
    }

    /// `base` with the key and mouse bindings of `overrider` added after its own, and all
    /// settings taken from `overrider`.
    pub fn merge_configs(base: Config, overrider: &Config) -> (r: Config)
        ensures
            r@ == merged(base@, overrider@),
    {
        let mut base = base;
        let n = keybind_count(&overrider.keyboard);
        let mut i: usize = 0;
        let ghost start = base@;
        while i < n
            invariant
                n == overrider@.actions.len(),
                n == overrider@.sequences.len(),
                i <= n,
                base@.actions == start.actions + overrider@.actions.take(i as int),
                base@.sequences == start.sequences + overrider@.sequences.take(i as int),
                base.mouse@ == start.mouse,
            decreases n - i,
        {
            push_keybind_from(&mut base.keyboard, &overrider.keyboard, i);
            assert(overrider@.actions.take(i + 1) =~= overrider@.actions.take(i as int).push(
                overrider@.actions[i as int],
            ));
            assert(overrider@.sequences.take(i + 1) =~= overrider@.sequences.take(i as int).push(
                overrider@.sequences[i as int],
            ));
            i = i + 1;
        }
        assert(overrider@.actions.take(n as int) =~= overrider@.actions);
        assert(overrider@.sequences.take(n as int) =~= overrider@.sequences);
        let mut j: usize = 0;
        while j < overrider.mouse.len()
            invariant
                j <= overrider.mouse@.len(),
                base@.actions == start.actions + overrider@.actions,
                base@.sequences == start.sequences + overrider@.sequences,
                base.mouse@ == start.mouse + overrider.mouse@.take(j as int),
            decreases overrider.mouse@.len() - j,
        {
            base.mouse.push(overrider.mouse[j]);
            assert(overrider.mouse@.take(j + 1) =~= overrider.mouse@.take(j as int).push(
                overrider.mouse@[j as int],
            ));
            j = j + 1;
        }
        assert(overrider.mouse@.take(overrider.mouse@.len() as int) =~= overrider.mouse@);
        base.rpc_enabled = overrider.rpc_enabled;
        base.rpc_port = overrider.rpc_port;
        base.trackpad_sensitivity = overrider.trackpad_sensitivity.clone();
        base.page_borders = overrider.page_borders;
        base.dark_mode = overrider.dark_mode;
        base.invert_pdf = overrider.invert_pdf;
        base.open_sidebar = overrider.open_sidebar;
        base
    }
}

/// The action of the first binding in `bindings` whose input is `input`.
pub open spec fn first_mouse_action(bindings: Seq<MouseBinding>, input: MouseInput) -> Option<
    MouseAction,
>
    decreases bindings.len(),
{
    if bindings.len() == 0 {
        None
    } else if bindings[0].0 == input {
        Some(bindings[0].1)
    } else {
        first_mouse_action(bindings.drop_first(), input)
    }
}

/// `base` with the bindings of `over` appended and the settings of `over`.
pub open spec fn merged(base: ConfigModel, over: ConfigModel) -> ConfigModel {
    ConfigModel {
        actions: base.actions + over.actions,
        sequences: base.sequences + over.sequences,
        mouse: base.mouse + over.mouse,
        ..over
    }
}


/// The key bindings of the default configuration, as (key sequence, action).
pub open spec fn default_key_bindings() -> Seq<(Seq<char>, BindableMessage)> {
    seq![
        ("j"@, BindableMessage::MoveDown),
        ("k"@, BindableMessage::MoveUp),
        ("h"@, BindableMessage::MoveLeft),
        ("l"@, BindableMessage::MoveRight),
        ("J"@, BindableMessage::NextPage),
        ("K"@, BindableMessage::PreviousPage),
        ("H"@, BindableMessage::PreviousTab),
        ("L"@, BindableMessage::NextTab),
        ("Alt+Left"@, BindableMessage::JumpBack),
        ("Alt+Right"@, BindableMessage::JumpForward),
        ("0"@, BindableMessage::ZoomHome),
        ("_"@, BindableMessage::ZoomFit),
        ("-"@, BindableMessage::ZoomOut),
        ("Plus"@, BindableMessage::ZoomIn),
        ("Ctrl+r"@, BindableMessage::ToggleDarkModePdf),
        ("Ctrl+i"@, BindableMessage::ToggleDarkModeUi),
        ("Ctrl+b"@, BindableMessage::ToggleSidebar),
        ("Ctrl+l"@, BindableMessage::ToggleLinkHitboxes),
        ("Ctrl+k"@, BindableMessage::TogglePageBorders),
        ("Ctrl+o"@, BindableMessage::OpenFileFinder),
        ("Ctrl+p"@, BindableMessage::PrintPdf),
        ("Z Z"@, BindableMessage::CloseTab),
        ("q"@, BindableMessage::Exit),
    ]
}

/// The mouse input of `button` with the given modifiers.
pub open spec fn mouse_input(button: MouseButton, ctrl: bool, shift: bool) -> MouseInput {
    MouseInput { button, modifiers: MouseModifiers { ctrl, shift } }
}

/// The mouse bindings of the default configuration.
pub open spec fn default_mouse_bindings() -> Seq<MouseBinding> {
    seq![
        (mouse_input(MouseButton::Left, false, false), MouseAction::Panning),
        (mouse_input(MouseButton::Left, false, true), MouseAction::Selection),
        (mouse_input(MouseButton::Middle, false, false), MouseAction::Panning),
        (mouse_input(MouseButton::Right, false, false), MouseAction::Selection),
        (mouse_input(MouseButton::Forward, false, false), MouseAction::NextPage),
        (mouse_input(MouseButton::Back, false, false), MouseAction::PreviousPage),
        (mouse_input(MouseButton::ScrollUp, false, false), MouseAction::MoveUp),
        (mouse_input(MouseButton::ScrollDown, false, false), MouseAction::MoveDown),
        (mouse_input(MouseButton::ScrollUp, true, false), MouseAction::ZoomIn),
        (mouse_input(MouseButton::ScrollDown, true, false), MouseAction::ZoomOut),
        (mouse_input(MouseButton::ScrollUp, false, true), MouseAction::MoveLeft),
        (mouse_input(MouseButton::ScrollDown, false, true), MouseAction::MoveRight),
    ]
}

/// The key bindings that binding each of `pairs` in order leaves: the actions and the
/// canonical key sequences of those whose key sequence parses.
pub open spec fn bound(pairs: Seq<(Seq<char>, BindableMessage)>) -> (
    Seq<BindableMessage>,
    Seq<Seq<char>>,
)
    decreases pairs.len(),
{
    if pairs.len() == 0 {
        (Seq::empty(), Seq::empty())
    } else {
        let (actions, sequences) = bound(pairs.drop_last());
        match key_sequence_parse(pairs.last().0) {
            Ok(text) => (actions.push(pairs.last().1), sequences.push(text)),
            Err(_) => (actions, sequences),
        }
    }
}

/// The default configuration: vim-like key bindings, the usual mouse bindings, dark
/// interface and page borders on, remote control off on port 7890.
pub open spec fn default_model() -> ConfigModel {
    ConfigModel {
        actions: bound(default_key_bindings()).0,
        sequences: bound(default_key_bindings()).1,
        mouse: default_mouse_bindings(),
        ..new_model()
    }
}

fn mouse_binding(button: MouseButton, ctrl: bool, shift: bool, action: MouseAction) -> (r:
    MouseBinding)
    ensures
        r == (mouse_input(button, ctrl, shift), action),
{
    (MouseInput { button, modifiers: MouseModifiers { ctrl, shift } }, action)
}

impl Default for Config {
    fn default() -> (r: Config)
        ensures
            r@ == default_model(),
    {
        let keys: Vec<(&str, BindableMessage)> = vec![
            ("j", BindableMessage::MoveDown),
            ("k", BindableMessage::MoveUp),
            ("h", BindableMessage::MoveLeft),
            ("l", BindableMessage::MoveRight),
            ("J", BindableMessage::NextPage),
            ("K", BindableMessage::PreviousPage),
            ("H", BindableMessage::PreviousTab),
            ("L", BindableMessage::NextTab),
            ("Alt+Left", BindableMessage::JumpBack),
            ("Alt+Right", BindableMessage::JumpForward),
            ("0", BindableMessage::ZoomHome),
            ("_", BindableMessage::ZoomFit),
            ("-", BindableMessage::ZoomOut),
            ("Plus", BindableMessage::ZoomIn),
            ("Ctrl+r", BindableMessage::ToggleDarkModePdf),
            ("Ctrl+i", BindableMessage::ToggleDarkModeUi),
            ("Ctrl+b", BindableMessage::ToggleSidebar),
            ("Ctrl+l", BindableMessage::ToggleLinkHitboxes),
            ("Ctrl+k", BindableMessage::TogglePageBorders),
            ("Ctrl+o", BindableMessage::OpenFileFinder),
            ("Ctrl+p", BindableMessage::PrintPdf),
            ("Z Z", BindableMessage::CloseTab),
            ("q", BindableMessage::Exit),
        ];
        let ghost pairs = keys@.map_values(|p: (&str, BindableMessage)| (p.0@, p.1));
        assert(pairs =~= default_key_bindings());
        let mut keyboard = empty_keybinds();
        let mut i: usize = 0;
        while i < keys.len()
            invariant
                i <= keys@.len(),
                pairs == keys@.map_values(|p: (&str, BindableMessage)| (p.0@, p.1)),
                keybind_actions(keyboard) == bound(pairs.take(i as int)).0,
                keybind_sequences(keyboard) == bound(pairs.take(i as int)).1,
            decreases keys@.len() - i,
        {
            let (key, action) = keys[i];
            assert(pairs.take(i + 1).drop_last() =~= pairs.take(i as int));
            let _ = bind_key(&mut keyboard, key, action);
            i = i + 1;
        }
        assert(pairs.take(keys@.len() as int) =~= pairs);
        let mouse = vec![
            mouse_binding(MouseButton::Left, false, false, MouseAction::Panning),
            mouse_binding(MouseButton::Left, false, true, MouseAction::Selection),
            mouse_binding(MouseButton::Middle, false, false, MouseAction::Panning),
            mouse_binding(MouseButton::Right, false, false, MouseAction::Selection),
            mouse_binding(MouseButton::Forward, false, false, MouseAction::NextPage),
            mouse_binding(MouseButton::Back, false, false, MouseAction::PreviousPage),
            mouse_binding(MouseButton::ScrollUp, false, false, MouseAction::MoveUp),
            mouse_binding(MouseButton::ScrollDown, false, false, MouseAction::MoveDown),
            mouse_binding(MouseButton::ScrollUp, true, false, MouseAction::ZoomIn),
            mouse_binding(MouseButton::ScrollDown, true, false, MouseAction::ZoomOut),
            mouse_binding(MouseButton::ScrollUp, false, true, MouseAction::MoveLeft),
            mouse_binding(MouseButton::ScrollDown, false, true, MouseAction::MoveRight),
        ];
        assert(mouse@ =~= default_mouse_bindings());
        Config {
            keyboard,
            mouse,
            rpc_enabled: false,
            rpc_port: 7890,
            trackpad_sensitivity: String::from_str("1.0"),
            page_borders: true,
            dark_mode: true,
            invert_pdf: false,
            open_sidebar: false,
        }
    }
}

/// `Line <n>: <message>`.
pub open spec fn error_line(e: (int, Seq<char>)) -> Seq<char> {
    "Line "@ + decimal(e.0 as nat) + ": "@ + e.1
}

/// The report lines of `errs`, each indented by two spaces and ended by a newline.
pub open spec fn error_report_lines(errs: Seq<(int, Seq<char>)>) -> Seq<char>
    decreases errs.len(),
{
    if errs.len() == 0 {
        Seq::empty()
    } else {
        error_report_lines(errs.drop_last()) + "  "@ + error_line(errs.last()) + "\n"@
    }
}

/// The report of `errs`: nothing when there are none, else a heading and one line per error.
pub open spec fn error_report(errs: Seq<(int, Seq<char>)>) -> Seq<char> {
    if errs.len() == 0 {
        Seq::empty()
    } else {
        "Configuration parsing errors:"@ + "\n"@ + error_report_lines(errs)
    }
}

impl ConfigError {
    /// `Line <n>: <message>`, the text of the error.
    pub fn text(&self) -> (r: String)
        ensures
            r@ == error_line((self.line_number as int, self.message@)),
    {
        let mut m: Vec<char> = Vec::new();
        push_str(&mut m, "Line ");
        let n = decimal_chars(self.line_number);
        push_all(&mut m, n.as_slice());
        push_str(&mut m, ": ");
        let msg = to_chars(self.message.as_str());
        push_all(&mut m, msg.as_slice());
        from_chars(m.as_slice())
    }
}

impl ConfigParseResult {
    /// The report of the errors (empty when there are none).
    pub fn format_errors(&self) -> (r: String)
        ensures
            r@ == error_report(error_views(self.errors@)),
    {
        if self.errors.len() == 0 {
            return String::new();
        }
        let ghost errs = error_views(self.errors@);
        let mut out: Vec<char> = Vec::new();
        push_str(&mut out, "Configuration parsing errors:");
        push_str(&mut out, "\n");
        let ghost head = out@;
        let mut i: usize = 0;
        while i < self.errors.len()
            invariant
                i <= self.errors@.len(),
                errs == error_views(self.errors@),
                out@ == head + error_report_lines(errs.take(i as int)),
            decreases self.errors@.len() - i,
        {
            push_str(&mut out, "  ");
            let t = self.errors[i].text();
            let tc = to_chars(t.as_str());
            push_all(&mut out, tc.as_slice());
            push_str(&mut out, "\n");
            assert(errs.take(i + 1).drop_last() =~= errs.take(i as int));
            assert(out@ =~= head + error_report_lines(errs.take(i + 1)));
            i = i + 1;
        }
        assert(errs.take(self.errors@.len() as int) =~= errs);
        from_chars(out.as_slice())
    }
}

impl Config {
    /// Reads a configuration text; refuses it, with the report of its errors, if any line
    /// is refused.
    pub fn from_text(s: &str) -> (r: Result<Config, String>)
        ensures
            parse_text(s@).1.len() == 0 ==> (r matches Ok(c) && c@ == parse_text(s@).0),
            parse_text(s@).1.len() > 0 ==> (r matches Err(m) && m@ == error_report(
                parse_text(s@).1,
            )),
    {
        let parse_result = Self::parse_with_errors(s);
        if parse_result.has_errors() {
            return Err(parse_result.format_errors());
        }
        Ok(parse_result.config)
    }
}

impl std::str::FromStr for Config {
    type Err = String;

    fn from_str(s: &str) -> (r: Result<Config, String>)
        ensures
            parse_text(s@).1.len() == 0 ==> (r matches Ok(c) && c@ == parse_text(s@).0),
            parse_text(s@).1.len() > 0 ==> (r matches Err(m) && m@ == error_report(
                parse_text(s@).1,
            )),
    {
        Config::from_text(s)
    }
}


/// A refused configuration line changes nothing: its effect is all or nothing.
pub proof fn lemma_refused_line_changes_nothing(m: ConfigModel, line: Seq<char>)
    ensures
        line_effect(m, line).1 is Some ==> line_effect(m, line).0 == m,
{
}

/// Every reported error names a line of the text (numbered from 1), and the errors come in
/// the order of their lines, one per refused line at most.
pub proof fn lemma_error_lines_ordered(m0: ConfigModel, lines: Seq<Seq<char>>)
    ensures
        forall|k: int| 0 <= k < parse_lines(m0, lines).1.len() ==> 1 <= #[trigger] parse_lines(m0, lines).1[k].0 <= lines.len(),
        forall|k: int, l: int| 0 <= k < l < parse_lines(m0, lines).1.len() ==> #[trigger] parse_lines(m0, lines).1[k].0 < #[trigger] parse_lines(m0, lines).1[l].0,
    decreases lines.len(),
{
    if lines.len() > 0 {
        let prefix = lines.drop_last();
        lemma_error_lines_ordered(m0, prefix);
        let (m, errs) = parse_lines(m0, prefix);
        let t = trim(lines.last());
        let out = parse_lines(m0, lines).1;
        assert(forall|k: int| 0 <= k < errs.len() ==> 1 <= #[trigger] errs[k].0 <= prefix.len());
        if !is_skipped(t) && line_effect(m, t).1 is Some {
            let e = (lines.len() as int, line_effect(m, t).1->0);
            assert(out == errs.push(e));
            assert forall|k: int| 0 <= k < out.len() implies 1 <= #[trigger] out[k].0 <= lines.len() by {
                if k < errs.len() {
                    assert(out[k] == errs[k]);
                }
            }
            assert forall|k: int, l: int| 0 <= k < l < out.len() implies #[trigger] out[k].0 < #[trigger] out[l].0 by {
                assert(out[k] == errs[k]);
                if l < errs.len() {
                    assert(out[l] == errs[l]);
                }
            }
        } else {
            assert(out == errs);
        }
    }
}

/// Lines that are empty or comments once trimmed leave the configuration as it was and
/// report nothing.
pub proof fn lemma_skipped_lines_change_nothing(m0: ConfigModel, lines: Seq<Seq<char>>)
    requires
        forall|k: int| 0 <= k < lines.len() ==> is_skipped(trim(#[trigger] lines[k])),
    ensures
        parse_lines(m0, lines) == (m0, Seq::<(int, Seq<char>)>::empty()),
    decreases lines.len(),
{
    if lines.len() > 0 {
        assert(is_skipped(trim(lines[lines.len() - 1])));
        lemma_skipped_lines_change_nothing(m0, lines.drop_last());
    }
}

/// Looking up a mouse input in bindings followed by more bindings finds it in the first
/// ones if it is there, else in the others.
pub proof fn lemma_mouse_lookup_concat(a: Seq<MouseBinding>, b: Seq<MouseBinding>, input: MouseInput)
    ensures
        first_mouse_action(a + b, input) == match first_mouse_action(a, input) {
            Some(x) => Some(x),
            None => first_mouse_action(b, input),
        },
    decreases a.len(),
{
    if a.len() > 0 {
        assert((a + b).drop_first() =~= a.drop_first() + b);
        assert((a + b)[0] == a[0]);
        lemma_mouse_lookup_concat(a.drop_first(), b, input);
    } else {
        assert(a + b =~= b);
    }
}

/// In a merged configuration the settings are those of the overriding one, and a mouse
/// input does what the base binds it to, or else what the overriding one binds it to.
pub proof fn lemma_merge_configs(base: ConfigModel, over: ConfigModel, input: MouseInput)
    ensures
        merged(base, over).rpc_enabled == over.rpc_enabled,
        merged(base, over).rpc_port == over.rpc_port,
        merged(base, over).trackpad_sensitivity == over.trackpad_sensitivity,
        merged(base, over).page_borders == over.page_borders,
        merged(base, over).dark_mode == over.dark_mode,
        merged(base, over).invert_pdf == over.invert_pdf,
        merged(base, over).open_sidebar == over.open_sidebar,
        first_mouse_action(merged(base, over).mouse, input) == match first_mouse_action(
            base.mouse,
            input,
        ) {
            Some(x) => Some(x),
            None => first_mouse_action(over.mouse, input),
        },
{
    lemma_mouse_lookup_concat(base.mouse, over.mouse, input);
}

} // verus!
