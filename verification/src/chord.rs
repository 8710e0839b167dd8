//! Key chords, as far as the modal reads them.

use vstd::prelude::*;
use vstd::string::*;

verus! {

/// The key that, held together with control, toggles following.
pub open spec fn toggle_key() -> Seq<char> {
    seq!['e']
}

/// A released key with the state of the control modifier at that moment.
///
/// Other modifiers are not recorded: they play no part in what the modal
/// decides.
#[derive(Clone, Debug)]
pub struct KeyChord {
    /// Whether the control modifier was held.
    pub control: bool,
    /// The key's name, as the toolkit reports it (`"e"`, `"enter"`, `"f1"`).
    pub key: String,
}

impl KeyChord {
    /// Whether this chord is control together with the toggle key.
    pub open spec fn is_follow_toggle(&self) -> bool {
        self.control && self.key@ == toggle_key()
    }

    /// Builds a chord from the modifier state and the key's name.
    pub fn new(control: bool, key: &str) -> (chord: KeyChord)
        ensures
            chord.control == control,
            chord.key@ == key@,
    {
        KeyChord { control, key: key.to_owned() }
    }

    /// Tells whether the chord is the one that toggles following.
    ///
    /// Any chord without control, and any chord with another key (a longer
    /// name, an empty one, a bare modifier), is not.
    pub fn matches_follow_toggle(&self) -> (hit: bool)
        ensures
            hit == self.is_follow_toggle(),
    {
        if !self.control {
            return false;
        }
        let name = self.key.as_str();
        if name.unicode_len() != 1 {
            return false;
        }
        let first = name.get_char(0);
        proof {
            if first == 'e' {
                assert(self.key@ =~= toggle_key());
            } else {
                assert(toggle_key()[0] == 'e');
            }
        }
        first == 'e'
    }
}

} // verus!
