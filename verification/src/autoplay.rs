use vstd::prelude::*;

use std::collections::HashMap;

verus! {

broadcast use vstd::std_specs::hash::group_hash_axioms;

/// The autoplay setting of each guild, as far as it has been read or set.
pub struct AutoplayManager {
    autoplay_settings: HashMap<u64, bool>,
}

impl AutoplayManager {
    /// The known settings, by guild.
    pub closed spec fn settings(&self) -> Map<u64, bool> {
        self.autoplay_settings@
    }

    /// A manager that knows no setting.
    pub fn new() -> (m: Self)
        ensures
            m.settings() == Map::<u64, bool>::empty(),
    {
        AutoplayManager { autoplay_settings: HashMap::new() }
    }

    /// Records guild `g`'s setting (the caller also stores it).
    pub fn set_autoplay(&mut self, g: u64, enabled: bool)
        ensures
            final(self).settings() == old(self).settings().insert(g, enabled),
    {
        self.autoplay_settings.insert(g, enabled);
    }

    /// Guild `g`'s setting, where it is known.
    pub fn cached(&self, g: u64) -> (r: Option<bool>)
        ensures
            r == (if self.settings().contains_key(g) {
                Some(self.settings()[g])
            } else {
                None
            }),
    {
        match self.autoplay_settings.get(&g) {
            Some(b) => Some(*b),
            None => None,
        }
    }

    /// Whether autoplay is on for guild `g`: the known setting, else `stored` (the
    /// stored setting, which the caller reads where none is known), which becomes
    /// known.
    pub fn is_autoplay_enabled(&mut self, g: u64, stored: bool) -> (b: bool)
        ensures
            old(self).settings().contains_key(g) ==> {
                &&& b == old(self).settings()[g]
                &&& final(self).settings() == old(self).settings()
            },
            !old(self).settings().contains_key(g) ==> {
                &&& b == stored
                &&& final(self).settings() == old(self).settings().insert(g, stored)
            },
    {
        match self.autoplay_settings.get(&g) {
            Some(b) => *b,
            None => {
                self.autoplay_settings.insert(g, stored);
                stored
            },
        }
    }
}

/// The autoplay setting the command asks for: the given one, else the opposite of the
/// current one.
pub fn autoplay_target(enabled: Option<bool>, current: bool) -> (b: bool)
    ensures
        b == match enabled {
            Some(e) => e,
            None => !current,
        },
{
    match enabled {
        Some(e) => e,
        None => !current,
    }
}

/// Whether the end of a track calls for autoplay: the guild has a queue, it is now
/// empty, and autoplay is on.
pub fn should_autoplay(queue_len: Option<usize>, autoplay_enabled: bool) -> (b: bool)
    ensures
        b == (queue_len == Some(0usize) && autoplay_enabled),
{
    match queue_len {
        Some(n) => n == 0 && autoplay_enabled,
        None => false,
    }
}

} // verus!
