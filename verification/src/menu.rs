//! The choices of the interactive menu.

use vstd::prelude::*;

verus! {

/// What the user asks of the menu.
#[derive(Clone, Copy, Debug, PartialEq, Eq, Structural)]
pub enum MenuChoice {
    /// Convert a value between two units.
    Convert,
    /// Leave the program.
    Quit,
    /// Anything else that was entered.
    Invalid,
}

/// The choice that an entry stands for: `1` converts, `2` quits, and every
/// other entry is invalid.
pub open spec fn menu_choice_of(entry: Seq<char>) -> MenuChoice {
    if entry == "1"@ {
        MenuChoice::Convert
    } else if entry == "2"@ {
        MenuChoice::Quit
    } else {
        MenuChoice::Invalid
    }
}

/// Reads the user's choice from an entry, taken as it stands: the caller
/// strips the surrounding white space.
pub fn menu_choice(entry: &str) -> (choice: MenuChoice)
    ensures
        choice == menu_choice_of(entry@),
{
    let entered = entry.to_owned();
    if entered == "1".to_owned() {
        MenuChoice::Convert
    } else if entered == "2".to_owned() {
        MenuChoice::Quit
    } else {
        MenuChoice::Invalid
    }
}

} // verus!
