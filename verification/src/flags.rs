use vstd::prelude::*;

use std::collections::HashMap;

verus! {

broadcast use vstd::std_specs::hash::group_hash_axioms;

/// The per-guild marks that steer playback: whether the user stopped playback by hand,
/// whether a "previous track" action is under way, and where the player message is.
pub struct GuildFlags {
    manual_stop: HashMap<u64, bool>,
    channel_ids: HashMap<u64, u64>,
    message_ids: HashMap<u64, u64>,
    previous_action: HashMap<u64, bool>,
}

/// The marks of one guild, with the defaults of absent entries filled in.
pub struct FlagState {
    pub manual_stop: bool,
    pub channel_id: Option<u64>,
    pub message_id: Option<u64>,
    pub previous_action: bool,
}

impl FlagState {
    /// These marks with the previous-track mark set to `b`.
    pub open spec fn with_previous_action(self, b: bool) -> FlagState {
        FlagState { previous_action: b, ..self }
    }
}

impl GuildFlags {
    /// The marks of guild `g`.
    pub closed spec fn guild(&self, g: u64) -> FlagState {
        FlagState {
            manual_stop: self.manual_stop@.contains_key(g) && self.manual_stop@[g],
            channel_id: if self.channel_ids@.contains_key(g) {
                Some(self.channel_ids@[g])
            } else {
                None
            },
            message_id: if self.message_ids@.contains_key(g) {
                Some(self.message_ids@[g])
            } else {
                None
            },
            previous_action: self.previous_action@.contains_key(g) && self.previous_action@[g],
        }
    }

    /// Every guild but `g` is as in `other`.
    pub open spec fn same_except(&self, other: &Self, g: u64) -> bool {
        forall|h: u64| h != g ==> #[trigger] self.guild(h) == other.guild(h)
    }

    /// No marks for any guild.
    pub fn new() -> (f: Self)
        ensures
            forall|g: u64|
                #[trigger] f.guild(g) == (FlagState {
                    manual_stop: false,
                    channel_id: None,
                    message_id: None,
                    previous_action: false,
                }),
    {
        GuildFlags {
            manual_stop: HashMap::new(),
            channel_ids: HashMap::new(),
            message_ids: HashMap::new(),
            previous_action: HashMap::new(),
        }
    }

    /// Sets whether playback of guild `g` was stopped by hand.
    pub fn set_manual_stop_flag(&mut self, g: u64, value: bool)
        ensures
            final(self).guild(g) == (FlagState { manual_stop: value, ..old(self).guild(g) }),
            final(self).same_except(old(self), g),
    {
        let ghost before = *self;
        self.manual_stop.insert(g, value);
        proof {
            assert forall|h: u64| h != g implies #[trigger] self.guild(h) == before.guild(h) by {}
        }
    }

    /// Whether playback of guild `g` was stopped by hand.
    pub fn is_manual_stop_flag_set(&self, g: u64) -> (b: bool)
        ensures
            b == self.guild(g).manual_stop,
    {
        match self.manual_stop.get(&g) {
            Some(b) => *b,
            None => false,
        }
    }

    /// Forgets that playback of guild `g` was stopped by hand.
    pub fn clear_manual_stop_flag(&mut self, g: u64)
        ensures
            final(self).guild(g) == (FlagState { manual_stop: false, ..old(self).guild(g) }),
            final(self).same_except(old(self), g),
    {
        let ghost before = *self;
        self.manual_stop.remove(&g);
        proof {
            assert forall|h: u64| h != g implies #[trigger] self.guild(h) == before.guild(h) by {}
        }
    }

    /// Stores the channel of guild `g`'s player message.
    pub fn store_channel_id(&mut self, g: u64, channel_id: u64)
        ensures
            final(self).guild(g) == (FlagState { channel_id: Some(channel_id), ..old(self).guild(g) }),
            final(self).same_except(old(self), g),
    {
        let ghost before = *self;
        self.channel_ids.insert(g, channel_id);
        proof {
            assert forall|h: u64| h != g implies #[trigger] self.guild(h) == before.guild(h) by {}
        }
    }

    /// The channel of guild `g`'s player message, if stored.
    pub fn get_channel_id(&self, g: u64) -> (r: Option<u64>)
        ensures
            r == self.guild(g).channel_id,
    {
        match self.channel_ids.get(&g) {
            Some(c) => Some(*c),
            None => None,
        }
    }

    /// Stores guild `g`'s player message.
    pub fn store_message_id(&mut self, g: u64, message_id: u64)
        ensures
            final(self).guild(g) == (FlagState { message_id: Some(message_id), ..old(self).guild(g) }),
            final(self).same_except(old(self), g),
    {
        let ghost before = *self;
        self.message_ids.insert(g, message_id);
        proof {
            assert forall|h: u64| h != g implies #[trigger] self.guild(h) == before.guild(h) by {}
        }
    }

    /// Guild `g`'s player message, if stored.
    pub fn get_message_id(&self, g: u64) -> (r: Option<u64>)
        ensures
            r == self.guild(g).message_id,
    {
        match self.message_ids.get(&g) {
            Some(m) => Some(*m),
            None => None,
        }
    }

    /// Sets whether a "previous track" action is under way in guild `g`.
    pub fn set_previous_action_flag(&mut self, g: u64, value: bool)
        ensures
            final(self).guild(g) == (FlagState { previous_action: value, ..old(self).guild(g) }),
            final(self).same_except(old(self), g),
    {
        let ghost before = *self;
        self.previous_action.insert(g, value);
        proof {
            assert forall|h: u64| h != g implies #[trigger] self.guild(h) == before.guild(h) by {}
        }
    }

    /// Whether a "previous track" action is under way in guild `g`.
    pub fn is_previous_action_flag_set(&self, g: u64) -> (b: bool)
        ensures
            b == self.guild(g).previous_action,
    {
        match self.previous_action.get(&g) {
            Some(b) => *b,
            None => false,
        }
    }

    /// Marks the "previous track" action of guild `g` as over.
    pub fn clear_previous_action_flag(&mut self, g: u64)
        ensures
            final(self).guild(g) == (FlagState { previous_action: false, ..old(self).guild(g) }),
            final(self).same_except(old(self), g),
    {
        let ghost before = *self;
        self.previous_action.remove(&g);
        proof {
            assert forall|h: u64| h != g implies #[trigger] self.guild(h) == before.guild(h) by {}
        }
    }
}

} // verus!
