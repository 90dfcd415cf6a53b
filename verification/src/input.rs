//! Keys, buttons and the flags that they set.

use vstd::prelude::*;

verus! {

/// The keys the simulation reacts to; every other key is `Other`.
#[derive(Clone, Copy, Debug, PartialEq, Eq, Structural)]
pub enum KeyCode {
    /// Toggles between batched and one-by-one drawing.
    Space,
    /// Clears the population.
    Back,
    /// Quits.
    Escape,
    LControl,
    RControl,
    Other,
}

/// The pointer buttons; every button but the first two is `Other`.
#[derive(Clone, Copy, Debug, PartialEq, Eq, Structural)]
pub enum MouseButton {
    /// The primary button: held, it adds bunnies.
    Left,
    /// The secondary button: held, it deletes bunnies.
    Right,
    Other,
}

/// What a key press asks of the owner of the flags.
#[derive(Clone, Copy, Debug, PartialEq, Eq, Structural)]
pub enum Command {
    Nothing,
    /// Empty the population.
    Clear,
    /// End the program.
    Quit,
}

/// The flags that input events set and that ticks and frames read.
#[derive(Clone, Copy, Debug, PartialEq, Eq, Structural)]
pub struct InputState {
    pub delete_held: bool,
    pub add_held: bool,
    pub ctrl_held: bool,
    pub batched_drawing: bool,
}

impl KeyCode {
    /// Either control key.
    pub open spec fn is_control(self) -> bool {
        self == KeyCode::LControl || self == KeyCode::RControl
    }
}

/// The command that pressing `keycode` gives.
pub open spec fn command_of(keycode: KeyCode) -> Command {
    match keycode {
        KeyCode::Back => Command::Clear,
        KeyCode::Escape => Command::Quit,
        _ => Command::Nothing,
    }
}

impl InputState {
    /// The flags after `keycode` went down.
    pub open spec fn after_key_down(self, keycode: KeyCode) -> InputState {
        InputState {
            batched_drawing: if keycode == KeyCode::Space {
                !self.batched_drawing
            } else {
                self.batched_drawing
            },
            ctrl_held: self.ctrl_held || keycode.is_control(),
            ..self
        }
    }

    /// The flags after `keycode` came up.
    pub open spec fn after_key_up(self, keycode: KeyCode) -> InputState {
        InputState { ctrl_held: self.ctrl_held && !keycode.is_control(), ..self }
    }

    /// The flags after `button` went down.
    pub open spec fn after_button_down(self, button: MouseButton) -> InputState {
        InputState {
            add_held: self.add_held || button == MouseButton::Left,
            delete_held: self.delete_held || button == MouseButton::Right,
            ..self
        }
    }

    /// The flags after `button` came up.
    pub open spec fn after_button_up(self, button: MouseButton) -> InputState {
        InputState {
            add_held: self.add_held && button != MouseButton::Left,
            delete_held: self.delete_held && button != MouseButton::Right,
            ..self
        }
    }

    /// Nothing held, batched drawing on.
    pub fn new() -> (s: InputState)
        ensures
            s == (InputState {
                delete_held: false,
                add_held: false,
                ctrl_held: false,
                batched_drawing: true,
            }),
    {
        InputState { delete_held: false, add_held: false, ctrl_held: false, batched_drawing: true }
    }

    /// A key went down: space flips the drawing mode, a control key sets
    /// `ctrl_held`. The command of the key is handed back for the caller to
    /// carry out.
    pub fn key_down(&mut self, keycode: KeyCode) -> (command: Command)
        ensures
            *final(self) == old(self).after_key_down(keycode),
            command == command_of(keycode),
    {
        let mut command = Command::Nothing;
        if keycode == KeyCode::Space {
            self.batched_drawing = !self.batched_drawing;
        }
        if keycode == KeyCode::Back {
            command = Command::Clear;
        }
        if keycode == KeyCode::Escape {
            command = Command::Quit;
        }
        if keycode == KeyCode::LControl || keycode == KeyCode::RControl {
            self.ctrl_held = true;
        }
        command
    }

    /// A key came up: a control key clears `ctrl_held`.
    pub fn key_up(&mut self, keycode: KeyCode)
        ensures
            *final(self) == old(self).after_key_up(keycode),
    {
        if keycode == KeyCode::LControl || keycode == KeyCode::RControl {
            self.ctrl_held = false;
        }
    }

    /// A pointer button went down: the primary sets `add_held`, the
    /// secondary `delete_held`.
    pub fn button_down(&mut self, button: MouseButton)
        ensures
            *final(self) == old(self).after_button_down(button),
    {
        if button == MouseButton::Left {
            self.add_held = true;
        }
        if button == MouseButton::Right {
            self.delete_held = true;
        }
    }

    /// A pointer button came up: the primary clears `add_held`, the
    /// secondary `delete_held`.
    pub fn button_up(&mut self, button: MouseButton)
        ensures
            *final(self) == old(self).after_button_up(button),
    {
        if button == MouseButton::Right {
            self.delete_held = false;
        }
        if button == MouseButton::Left {
            self.add_held = false;
        }
    }
}

/// Two presses of the space key leave every flag as it was.
pub proof fn lemma_toggle_twice(s: InputState)
    ensures
        s.after_key_down(KeyCode::Space).after_key_down(KeyCode::Space) == s,
        s.after_key_down(KeyCode::Space).batched_drawing == !s.batched_drawing,
{
}

} // verus!
