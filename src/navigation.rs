//! Moving between the dashboard's screens and through a list's rows.
use vstd::prelude::*;

verus! {

/// The dashboard's screens, in tab order.
#[derive(Clone, Copy, Debug, PartialEq, Eq, Structural)]
pub enum Screen {
    Dashboard,
    Accounts,
    Operations,
    Settings,
}

impl Screen {
    /// The screen after this one, wrapping around.
    pub fn next_screen(self) -> (r: Screen)
        ensures
            r == match self {
                Screen::Dashboard => Screen::Accounts,
                Screen::Accounts => Screen::Operations,
                Screen::Operations => Screen::Settings,
                Screen::Settings => Screen::Dashboard,
            },
    {
        match self {
            Screen::Dashboard => Screen::Accounts,
            Screen::Accounts => Screen::Operations,
            Screen::Operations => Screen::Settings,
            Screen::Settings => Screen::Dashboard,
        }
    }

    /// The screen before this one, wrapping around.
    pub fn previous_screen(self) -> (r: Screen)
        ensures
            r.next_screen_spec() == self,
    {
        match self {
            Screen::Dashboard => Screen::Settings,
            Screen::Settings => Screen::Operations,
            Screen::Operations => Screen::Accounts,
            Screen::Accounts => Screen::Dashboard,
        }
    }

    pub open spec fn next_screen_spec(self) -> Screen {
        match self {
            Screen::Dashboard => Screen::Accounts,
            Screen::Accounts => Screen::Operations,
            Screen::Operations => Screen::Settings,
            Screen::Settings => Screen::Dashboard,
        }
    }
}

/// The row after `index` in a list of `len` rows, wrapping around; unchanged
/// in an empty list.
pub fn next_item(index: usize, len: usize) -> (r: usize)
    ensures
        r == if len == 0 {
            index as int
        } else {
            (index + 1) % (len as int)
        },
{
    if len == 0 {
        return index;
    }
    let rem = index % len;
    proof {
        vstd::arithmetic::div_mod::lemma_add_mod_noop(index as int, 1, len as int);
        vstd::arithmetic::div_mod::lemma_mod_bound(index as int, len as int);
        if len > 1 {
            vstd::arithmetic::div_mod::lemma_small_mod(1, len as nat);
            if rem + 1 < len {
                vstd::arithmetic::div_mod::lemma_small_mod((rem + 1) as nat, len as nat);
            } else {
                vstd::arithmetic::div_mod::lemma_mod_self_0(len as int);
            }
        } else {
            vstd::arithmetic::div_mod::lemma_mod_self_0(1);
        }
    }
    if rem + 1 == len {
        0
    } else {
        rem + 1
    }
}

/// The row before `index` in a list of `len` rows, wrapping from the first to
/// the last; unchanged in an empty list.
pub fn previous_item(index: usize, len: usize) -> (r: usize)
    ensures
        r == if len == 0 {
            index as int
        } else if index == 0 {
            len - 1
        } else {
            index - 1
        },
{
    if len == 0 {
        index
    } else if index == 0 {
        len - 1
    } else {
        index - 1
    }
}

} // verus!
