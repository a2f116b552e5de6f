//! The decisions of a window's run loop: what to do with the state that processing the
//! window's messages gave, and when to draw.

use vstd::prelude::*;

use super::keycode::KeyCode;
use super::vulkan::{
    INSTANCE_EXTENSION_NAME_DEBUG, INSTANCE_EXTENSION_NAME_SURFACE, LAYER_NAME_VALIDATION,
};

verus! {

/// The state of a window after its pending messages were processed.
#[derive(Debug, Clone, Copy, PartialEq, Eq)]
pub enum WindowState {
    Normal,
    CloseAttempt,
    Closing,
    ShouldDrop,
    KeyPressed(KeyCode),
}

/// What the run loop does next.
#[derive(Debug, Clone, Copy, PartialEq, Eq)]
pub enum MessageAction {
    /// Go on with the rest of the iteration.
    Proceed,
    /// Close the window, then go on with the rest of the iteration.
    CloseAndProceed,
    /// Leave the loop.
    Stop,
    /// Hand the key to the callback, close the window if the callback asks for it, and
    /// start the next iteration.
    HandleKey(KeyCode),
}

/// The action for a window state: a close attempt closes the window, a window that should
/// be dropped ends the loop, and a key goes to the callback where the loop takes keys; any
/// other state goes on.
pub open spec fn message_action(state: WindowState, takes_keys: bool) -> MessageAction {
    match state {
        WindowState::CloseAttempt => MessageAction::CloseAndProceed,
        WindowState::ShouldDrop => MessageAction::Stop,
        WindowState::KeyPressed(k) => if takes_keys {
            MessageAction::HandleKey(k)
        } else {
            MessageAction::Proceed
        },
        _ => MessageAction::Proceed,
    }
}

/// The loop stops exactly for a window that should be dropped, closes the window exactly
/// on a close attempt, and hands a key to its callback exactly where a key was pressed and
/// the loop takes keys, the key being the one pressed.
pub proof fn law_message_actions(state: WindowState, takes_keys: bool)
    ensures
        (message_action(state, takes_keys) == MessageAction::Stop) <==> state
            == WindowState::ShouldDrop,
        (message_action(state, takes_keys) == MessageAction::CloseAndProceed) <==> state
            == WindowState::CloseAttempt,
        (message_action(state, takes_keys) is HandleKey) <==> (state is KeyPressed && takes_keys),
        message_action(state, takes_keys) matches MessageAction::HandleKey(k) ==> state
            == WindowState::KeyPressed(k),
{
}

/// Decides what the run loop does with a window state; `takes_keys` tells whether the
/// loop hands keys to its callback.
pub fn get_message_action(state: WindowState, takes_keys: bool) -> (r: MessageAction)
    ensures
        r == message_action(state, takes_keys),
{
    match state {
        WindowState::CloseAttempt => MessageAction::CloseAndProceed,
        WindowState::ShouldDrop => MessageAction::Stop,
        WindowState::KeyPressed(k) => {
            if takes_keys {
                MessageAction::HandleKey(k)
            } else {
                MessageAction::Proceed
            }
        },
        _ => MessageAction::Proceed,
    }
}

/// Whether a loop draws when its external trigger fires: only where it did not draw on
/// this tick already.
pub fn draws_on_trigger(triggered: bool, drew_on_tick: bool) -> (r: bool)
    ensures
        r == (triggered && !drew_on_tick),
{
    triggered && !drew_on_tick
}

/// The window messages that the run loop tells apart: a key pressed (0x0100), the quit
/// message (0x0012), and the message that the window posts to itself when asked to close
/// (0x0400).
pub const WM_KEYDOWN: u32 = 0x0100;

pub const WM_QUIT: u32 = 0x0012;

pub const WM_USER: u32 = 0x0400;

/// What processing one window message comes to.
#[derive(Debug, Clone, Copy, PartialEq, Eq, Structural)]
pub enum MessageStep {
    /// The window was asked to close.
    CloseAttempt,
    /// The window is gone.
    ShouldDrop,
    /// A key went down that was up: its virtual-key code and its scan code.
    KeyDown { virtual_key_code: u32, scan_code: u32 },
    /// A key that was down already: the message is passed over.
    Skip,
    /// Any other message goes to the window's procedure.
    Dispatch,
}

/// The step for a message with its two parameters: a key message is a key going down only
/// where bit 30 of `lparam` (the key's previous state) is clear; its scan code is bits 16
/// to 23 of `lparam`.
pub open spec fn message_step(message: u32, wparam: usize, lparam: isize) -> MessageStep {
    if message == WM_USER {
        MessageStep::CloseAttempt
    } else if message == WM_KEYDOWN {
        if lparam & 0x4000_0000 == 0 {
            MessageStep::KeyDown {
                virtual_key_code: wparam as u32,
                scan_code: ((lparam >> 16) & 0xFF) as u32,
            }
        } else {
            MessageStep::Skip
        }
    } else if message == WM_QUIT {
        MessageStep::ShouldDrop
    } else {
        MessageStep::Dispatch
    }
}

/// A key-down message (WM_KEYDOWN, 0x0100) is a key going down exactly where bit 30 of
/// `lparam` (the key's previous state) is clear; the step then gives `wparam` as the
/// virtual-key code and, as the scan code, the byte at bits 16 to 23 of `lparam`, whatever
/// its other bits (the repeat count below, the extended-key, context and transition flags
/// above). The close request (WM_USER, 0x0400) is a close attempt, WM_QUIT (0x0012) ends
/// the window, and any other message is dispatched.
pub proof fn law_message_steps(message: u32, wparam: usize, lparam: isize)
    ensures
        (message_step(0x0100, wparam, lparam) is KeyDown) <==> ((lparam as usize) / 0x4000_0000)
            % 2 == 0,
        (message_step(0x0100, wparam, lparam) is Skip) <==> ((lparam as usize) / 0x4000_0000) % 2
            == 1,
        message_step(0x0100, wparam, lparam) matches MessageStep::KeyDown {
            virtual_key_code,
            scan_code,
        } ==> virtual_key_code == wparam as u32 && scan_code < 256 && scan_code == ((
        lparam as usize) / 0x1_0000) % 0x100,
        message_step(0x0400, wparam, lparam) == MessageStep::CloseAttempt,
        message_step(0x0012, wparam, lparam) == MessageStep::ShouldDrop,
        message != 0x0100 && message != 0x0400 && message != 0x0012 ==> message_step(
            message,
            wparam,
            lparam,
        ) == MessageStep::Dispatch,
{
    let u: usize = lparam as usize;
    assert(((lparam & 0x4000_0000) == 0) == ((u / 0x4000_0000) % 2 == 0)) by (bit_vector)
        requires
            u == lparam as usize,
    ;
    assert(((lparam >> 16) & 0xFF) as u32 == ((u / 0x1_0000) % 0x100) as u32) by (bit_vector)
        requires
            u == lparam as usize,
    ;
    assert((u / 0x1_0000) % 0x100 < 0x100);
}

/// Tells what a window message comes to.
pub fn get_message_step(message: u32, wparam: usize, lparam: isize) -> (r: MessageStep)
    ensures
        r == message_step(message, wparam, lparam),
{
    if message == WM_USER {
        MessageStep::CloseAttempt
    } else if message == WM_KEYDOWN {
        if lparam & 0x4000_0000 == 0 {
            MessageStep::KeyDown {
                virtual_key_code: wparam as u32,
                scan_code: ((lparam >> 16) & 0xFF) as u32,
            }
        } else {
            MessageStep::Skip
        }
    } else if message == WM_QUIT {
        MessageStep::ShouldDrop
    } else {
        MessageStep::Dispatch
    }
}

/// How a window for 2D drawing sets up Vulkan: plainly, or with validation and debug output.
#[derive(Debug, Clone, Copy, PartialEq, Eq, Structural)]
pub enum Vulkan2dWindowMode {
    Normal,
    ValidationDebug,
}

/// The layers and the instance extensions of a 2D window: the surface extensions (the
/// generic one and `os_surface_extension`, the one of the window system), and for
/// validation the validation layer and the debug extension as well.
pub fn get_layer_and_extension_names(
    mode: Vulkan2dWindowMode,
    os_surface_extension: &'static str,
) -> (r: (Vec<&'static str>, Vec<&'static str>))
    ensures
        mode == Vulkan2dWindowMode::Normal ==> r.0@ == Seq::<&str>::empty() && r.1@ == seq![
            INSTANCE_EXTENSION_NAME_SURFACE,
            os_surface_extension,
        ],
        mode == Vulkan2dWindowMode::ValidationDebug ==> r.0@ == seq![LAYER_NAME_VALIDATION]
            && r.1@ == seq![
            INSTANCE_EXTENSION_NAME_SURFACE,
            os_surface_extension,
            INSTANCE_EXTENSION_NAME_DEBUG,
        ],
{
    match mode {
        Vulkan2dWindowMode::Normal => {
            let layers: Vec<&'static str> = Vec::new();
            let mut extensions: Vec<&'static str> = Vec::new();
            extensions.push(INSTANCE_EXTENSION_NAME_SURFACE);
            extensions.push(os_surface_extension);
            assert(extensions@ =~= seq![INSTANCE_EXTENSION_NAME_SURFACE, os_surface_extension]);
            (layers, extensions)
        },
        Vulkan2dWindowMode::ValidationDebug => {
            let mut layers: Vec<&'static str> = Vec::new();
            layers.push(LAYER_NAME_VALIDATION);
            let mut extensions: Vec<&'static str> = Vec::new();
            extensions.push(INSTANCE_EXTENSION_NAME_SURFACE);
            extensions.push(os_surface_extension);
            extensions.push(INSTANCE_EXTENSION_NAME_DEBUG);
            assert(layers@ =~= seq![LAYER_NAME_VALIDATION]);
            assert(extensions@ =~= seq![
                INSTANCE_EXTENSION_NAME_SURFACE,
                os_surface_extension,
                INSTANCE_EXTENSION_NAME_DEBUG,
            ]);
            (layers, extensions)
        },
    }
}

/// Where a line of glyphs goes relative to its anchor.
#[derive(Debug, Clone, Copy, PartialEq, Eq, Structural)]
pub enum DrawJustification {
    Left,
    Center,
    Right,
}

} // verus!
