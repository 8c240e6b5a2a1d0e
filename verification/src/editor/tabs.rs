//! Requests that concern the tabs.

use crate::app_state::{Tab, TabManager};
use vstd::prelude::*;

verus! {

/// The requests that concern the tabs.
pub struct TabCommands;

impl TabCommands {
    /// Marks a tab as open and active. `payload` is the tab that the request
    /// named, or `None` if the request named none that could be read.
    ///
    /// With a tab, it is stored under its identifier (at the end if the
    /// identifier is new, in place if it is already open) and becomes the
    /// active tab; the result is `true`, and the caller then tells the
    /// presentation layer. Without one, nothing changes and the result is
    /// `false`.
    pub fn load_tab(tab_switcher: &mut TabManager, payload: Option<Tab>) -> (notify: bool)
        ensures
            match payload {
                Some(tab) => notify && final(tab_switcher)@ == old(tab_switcher)@.opened(tab@),
                None => !notify && *final(tab_switcher) == *old(tab_switcher),
            },
    {
        match payload {
            Some(tab) => {
                tab_switcher.open(tab);
                true
            },
            None => false,
        }
    }
}

} // verus!
