//! How the document viewer reacts to mouse actions: which interaction (panning, selecting)
//! a press starts, what a release finishes, and what a pointer move does meanwhile.
use vstd::prelude::*;
use crate::app_state::{viewer_command_name, ViewerCommand};
use crate::config::{mouse_action_named, MouseAction};
use crate::document::MouseInteraction;

verus! {

/// What the viewer does with a mouse action, besides changing its interaction.
#[derive(Debug, Clone, Copy, PartialEq, Eq, Structural)]
pub enum MouseEffect {
    /// Remember where the press happened and clear the selection.
    StartPanning,
    /// Remember where the press happened, start a selection there and clear the selected
    /// text.
    StartSelecting,
    /// Handle this request next.
    Then(ViewerCommand),
    /// Activate the hovered link if the pointer barely moved since the press; then clear the
    /// selection.
    ClickLink,
    /// Take the text under the selection if it is large enough; then clear the selection.
    FinishSelection,
}

/// What a pointer move does in the current interaction.
#[derive(Debug, Clone, Copy, PartialEq, Eq, Structural)]
pub enum MoveEffect {
    Nothing,
    /// Move the document by the distance the pointer moved.
    Pan,
    /// Move the end of the selection to the pointer.
    ExtendSelection,
}

/// The interaction after a mouse action, and its effect: a press of `Panning` or
/// `Selection` starts that interaction, the other presses ask for a page, zoom or move
/// request, and a release ends the interaction.
pub open spec fn mouse_action_step(
    interaction: MouseInteraction,
    action: MouseAction,
    pressed: bool,
) -> (MouseInteraction, MouseEffect) {
    if pressed {
        match action {
            MouseAction::Panning => (MouseInteraction::Panning, MouseEffect::StartPanning),
            MouseAction::Selection => (MouseInteraction::Selecting, MouseEffect::StartSelecting),
            MouseAction::NextPage => (interaction, MouseEffect::Then(ViewerCommand::NextPage)),
            MouseAction::PreviousPage => (interaction, MouseEffect::Then(ViewerCommand::PreviousPage)),
            MouseAction::ZoomIn => (interaction, MouseEffect::Then(ViewerCommand::ZoomIn)),
            MouseAction::ZoomOut => (interaction, MouseEffect::Then(ViewerCommand::ZoomOut)),
            MouseAction::MoveUp => (interaction, MouseEffect::Then(ViewerCommand::MoveUp)),
            MouseAction::MoveDown => (interaction, MouseEffect::Then(ViewerCommand::MoveDown)),
            MouseAction::MoveLeft => (interaction, MouseEffect::Then(ViewerCommand::MoveLeft)),
            MouseAction::MoveRight => (interaction, MouseEffect::Then(ViewerCommand::MoveRight)),
        }
    } else {
        match interaction {
            MouseInteraction::Selecting => (MouseInteraction::Idle, MouseEffect::FinishSelection),
            _ => (MouseInteraction::Idle, MouseEffect::ClickLink),
        }
    }
}

/// What a pointer move does: panning moves the document, selecting extends the selection.
pub open spec fn pointer_move_effect(interaction: MouseInteraction) -> MoveEffect {
    match interaction {
        MouseInteraction::Idle => MoveEffect::Nothing,
        MouseInteraction::Panning => MoveEffect::Pan,
        MouseInteraction::Selecting => MoveEffect::ExtendSelection,
    }
}

/// The interaction after a mouse action, and what the viewer must do.
pub fn mouse_action_effect(interaction: MouseInteraction, action: MouseAction, pressed: bool) -> (r: (
    MouseInteraction,
    MouseEffect,
))
    ensures
        r == mouse_action_step(interaction, action, pressed),
{
    if pressed {
        match action {
            MouseAction::Panning => (MouseInteraction::Panning, MouseEffect::StartPanning),
            MouseAction::Selection => (MouseInteraction::Selecting, MouseEffect::StartSelecting),
            MouseAction::NextPage => (interaction, MouseEffect::Then(ViewerCommand::NextPage)),
            MouseAction::PreviousPage => (interaction, MouseEffect::Then(ViewerCommand::PreviousPage)),
            MouseAction::ZoomIn => (interaction, MouseEffect::Then(ViewerCommand::ZoomIn)),
            MouseAction::ZoomOut => (interaction, MouseEffect::Then(ViewerCommand::ZoomOut)),
            MouseAction::MoveUp => (interaction, MouseEffect::Then(ViewerCommand::MoveUp)),
            MouseAction::MoveDown => (interaction, MouseEffect::Then(ViewerCommand::MoveDown)),
            MouseAction::MoveLeft => (interaction, MouseEffect::Then(ViewerCommand::MoveLeft)),
            MouseAction::MoveRight => (interaction, MouseEffect::Then(ViewerCommand::MoveRight)),
        }
    } else {
        match interaction {
            MouseInteraction::Selecting => (MouseInteraction::Idle, MouseEffect::FinishSelection),
            _ => (MouseInteraction::Idle, MouseEffect::ClickLink),
        }
    }
}

/// What a pointer move does in the current interaction.
pub fn pointer_moved(interaction: MouseInteraction) -> (r: MoveEffect)
    ensures
        r == pointer_move_effect(interaction),
{
    match interaction {
        MouseInteraction::Idle => MoveEffect::Nothing,
        MouseInteraction::Panning => MoveEffect::Pan,
        MouseInteraction::Selecting => MoveEffect::ExtendSelection,
    }
}

/// Releasing a button always ends the interaction: it finishes a selection when one was being
/// made and otherwise checks for a link click; so pressing and then releasing the selection
/// button finishes a selection, and the panning button checks for a link click.
pub proof fn lemma_press_release(interaction: MouseInteraction, action: MouseAction)
    ensures
        mouse_action_step(interaction, action, false).0 == MouseInteraction::Idle,
        interaction == MouseInteraction::Selecting ==> mouse_action_step(interaction, action, false).1
            == MouseEffect::FinishSelection,
        interaction != MouseInteraction::Selecting ==> mouse_action_step(interaction, action, false).1
            == MouseEffect::ClickLink,
        action == MouseAction::Selection ==> mouse_action_step(
            mouse_action_step(interaction, action, true).0,
            action,
            false,
        ).1 == MouseEffect::FinishSelection,
        action == MouseAction::Panning ==> mouse_action_step(
            mouse_action_step(interaction, action, true).0,
            action,
            false,
        ).1 == MouseEffect::ClickLink,
        (action != MouseAction::Panning && action != MouseAction::Selection) ==> mouse_action_step(
            interaction,
            action,
            true,
        ).0 == interaction,
{
}

/// A pressed mouse action does what its name says: the action a configuration names `name`
/// starts panning or selecting when it is `Panning` or `Selection`, and otherwise asks the
/// viewer for the request of that same name (`NextPage` goes to the next page, `ZoomIn`
/// zooms in), leaving the interaction as it was.
pub proof fn lemma_mouse_actions_keep_their_names(
    interaction: MouseInteraction,
    name: Seq<char>,
    action: MouseAction,
)
    requires
        mouse_action_named(name) == Some(action),
    ensures
        action == MouseAction::Panning ==> mouse_action_step(interaction, action, true) == (
        MouseInteraction::Panning, MouseEffect::StartPanning),
        action == MouseAction::Selection ==> mouse_action_step(interaction, action, true) == (
        MouseInteraction::Selecting, MouseEffect::StartSelecting),
        (action != MouseAction::Panning && action != MouseAction::Selection) ==> (mouse_action_step(
            interaction,
            action,
            true,
        ).0 == interaction && (mouse_action_step(interaction, action, true).1 matches MouseEffect::Then(c)
            && viewer_command_name(c) == name)),
{
}

} // verus!
