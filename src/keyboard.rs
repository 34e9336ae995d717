//! Keys, modifier keys, and the platform rules that map them to actions.
use vstd::prelude::*;

verus! {

/// The platform family the host runs on, which decides the command and
/// word-jump modifiers.
#[derive(Clone, Copy, Debug, PartialEq, Eq, Structural)]
pub enum Platform {
    /// macOS: command is the logo key, word jumps use Alt.
    Mac,
    /// Every other platform: command and word jumps both use Control.
    Other,
}

/// The modifier keys held down.
#[derive(Clone, Copy, Debug, PartialEq, Eq, Structural)]
pub struct Modifiers {
    pub shift: bool,
    pub control: bool,
    pub alt: bool,
    pub logo: bool,
}

/// The keys the text field reacts to; `Other` stands for the rest.
#[derive(Clone, Copy, Debug, PartialEq, Eq, Structural)]
pub enum KeyCode {
    Enter,
    Backspace,
    Delete,
    Left,
    Right,
    Home,
    End,
    Escape,
    A,
    C,
    V,
    X,
    Other,
}

impl Default for Modifiers {
    fn default() -> (r: Modifiers)
        ensures
            r == Modifiers::none(),
    {
        Modifiers { shift: false, control: false, alt: false, logo: false }
    }
}

impl Modifiers {
    /// No modifier held.
    pub open spec fn none() -> Modifiers {
        Modifiers { shift: false, control: false, alt: false, logo: false }
    }

    /// Whether the command modifier is held on `platform`.
    pub open spec fn command_spec(self, platform: Platform) -> bool {
        match platform {
            Platform::Mac => self.logo,
            Platform::Other => self.control,
        }
    }

    /// Whether the command modifier is held on `platform`: the logo key on
    /// macOS, Control elsewhere.
    pub fn command(&self, platform: Platform) -> (r: bool)
        ensures
            r == self.command_spec(platform),
    {
        match platform {
            Platform::Mac => self.logo,
            Platform::Other => self.control,
        }
    }

    /// Whether Shift is held.
    pub fn shift(&self) -> (r: bool)
        ensures
            r == self.shift,
    {
        self.shift
    }
}

/// Whether the word-jump modifier is held on `platform`.
pub open spec fn jump_spec(modifiers: Modifiers, platform: Platform) -> bool {
    match platform {
        Platform::Mac => modifiers.alt,
        Platform::Other => modifiers.control,
    }
}

/// Whether the modifier that makes the arrows and deletions act on whole words
/// is held: Alt on macOS, Control elsewhere.
pub fn is_jump_modifier_pressed(modifiers: Modifiers, platform: Platform) -> (r: bool)
    ensures
        r == jump_spec(modifiers, platform),
{
    match platform {
        Platform::Mac => modifiers.alt,
        Platform::Other => modifiers.control,
    }
}

} // verus!
