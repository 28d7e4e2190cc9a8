//! The state of up to 32 buttons, one bit each, with the edges since the
//! state before.

use vstd::prelude::*;

verus! {

/// Three masks over the same 32 buttons: those released since the state
/// before (`up`), those pressed since then (`down`), and those held now
/// (`hold`).
pub struct Buttons {
    up: u32,
    down: u32,
    hold: u32,
}

/// The buttons that `old_state` held and `new_state` does not.
pub open spec fn released(new_state: u32, old_state: u32) -> u32 {
    !new_state & old_state
}

/// The buttons that `new_state` holds and `old_state` did not.
pub open spec fn pressed(new_state: u32, old_state: u32) -> u32 {
    new_state & !old_state
}

/// Whether button number `bit` is set in `mask`.
pub open spec fn has_button(mask: u32, bit: u32) -> bool {
    mask & (1u32 << bit) != 0
}

impl Clone for Buttons {
    /// The same three masks.
    fn clone(&self) -> (copy: Buttons)
        ensures
            copy.up() == self.up(),
            copy.down() == self.down(),
            copy.hold() == self.hold(),
    {
        Buttons { up: self.up, down: self.down, hold: self.hold }
    }
}

impl Default for Buttons {
    /// No button held, none pressed, none released.
    fn default() -> (buttons: Buttons)
        ensures
            buttons.up() == 0,
            buttons.down() == 0,
            buttons.hold() == 0,
    {
        Buttons { up: 0, down: 0, hold: 0 }
    }
}

impl Buttons {
    /// The mask of released buttons.
    pub closed spec fn spec_up(&self) -> u32 {
        self.up
    }

    /// The mask of pressed buttons.
    pub closed spec fn spec_down(&self) -> u32 {
        self.down
    }

    /// The mask of held buttons.
    pub closed spec fn spec_hold(&self) -> u32 {
        self.hold
    }

    /// The buttons released since the state before.
    #[verifier::when_used_as_spec(spec_up)]
    pub fn up(&self) -> (mask: u32)
        ensures
            mask == self.spec_up(),
    {
        self.up
    }

    /// The buttons pressed since the state before.
    #[verifier::when_used_as_spec(spec_down)]
    pub fn down(&self) -> (mask: u32)
        ensures
            mask == self.spec_down(),
    {
        self.down
    }

    /// The buttons held now.
    #[verifier::when_used_as_spec(spec_hold)]
    pub fn hold(&self) -> (mask: u32)
        ensures
            mask == self.spec_hold(),
    {
        self.hold
    }

    /// Whether any of `actions` was released.
    pub fn is_up(&self, actions: u32) -> (any: bool)
        ensures
            any <==> self.up() & actions != 0,
    {
        self.up & actions != 0
    }

    /// Whether any of `actions` was pressed.
    pub fn is_down(&self, actions: u32) -> (any: bool)
        ensures
            any <==> self.down() & actions != 0,
    {
        self.down & actions != 0
    }

    /// Whether any of `actions` is held.
    pub fn is_hold(&self, actions: u32) -> (any: bool)
        ensures
            any <==> self.hold() & actions != 0,
    {
        self.hold & actions != 0
    }

    /// Takes `new_state` as what is held, with the edges from `old_state`.
    pub fn set(&mut self, new_state: &u32, old_state: &u32)
        ensures
            final(self).up() == released(*new_state, *old_state),
            final(self).down() == pressed(*new_state, *old_state),
            final(self).hold() == *new_state,
    {
        self.up = !*new_state & *old_state;
        self.down = *new_state & !*old_state;
        self.hold = *new_state;
    }

    /// Takes `new_state` as what is held, with the edges from what was held
    /// before.
    pub fn update(&mut self, new_state: &u32)
        ensures
            final(self).up() == released(*new_state, old(self).hold()),
            final(self).down() == pressed(*new_state, old(self).hold()),
            final(self).hold() == *new_state,
    {
        self.up = !*new_state & self.hold;
        self.down = *new_state & !self.hold;
        self.hold = *new_state;
    }
}

/// A button is released exactly if it was held and is held no more, and
/// pressed exactly if it is held and was not.
pub proof fn lemma_edges_by_button(new_state: u32, old_state: u32, bit: u32)
    requires
        bit < 32,
    ensures
        has_button(released(new_state, old_state), bit) <==> has_button(old_state, bit)
            && !has_button(new_state, bit),
        has_button(pressed(new_state, old_state), bit) <==> has_button(new_state, bit)
            && !has_button(old_state, bit),
{
    assert(((!new_state & old_state) & (1u32 << bit) != 0) <==> ((old_state & (1u32 << bit) != 0)
        && !(new_state & (1u32 << bit) != 0))) by (bit_vector)
        requires
            bit < 32,
    ;
    assert(((new_state & !old_state) & (1u32 << bit) != 0) <==> ((new_state & (1u32 << bit) != 0)
        && !(old_state & (1u32 << bit) != 0))) by (bit_vector)
        requires
            bit < 32,
    ;
}

/// No button is pressed and released at once; a pressed button is held and
/// a released one is not.
pub proof fn lemma_edges_disjoint(new_state: u32, old_state: u32)
    ensures
        released(new_state, old_state) & pressed(new_state, old_state) == 0,
        released(new_state, old_state) & new_state == 0,
        pressed(new_state, old_state) & !new_state == 0,
{
    assert((!new_state & old_state) & (new_state & !old_state) == 0) by (bit_vector);
    assert((!new_state & old_state) & new_state == 0) by (bit_vector);
    assert((new_state & !old_state) & !new_state == 0) by (bit_vector);
}

} // verus!
