use vstd::prelude::*;

use std::collections::HashMap;
use std::collections::VecDeque;

use crate::queue::{deque_into_vec, shuffle_vec, vec_into_deque, RepeatState};

verus! {

broadcast use {
    vstd::std_specs::hash::group_hash_axioms,
    vstd::std_specs::vecdeque::group_vec_dequeue_axioms,
};

/// What the music manager knows of one guild, with the defaults of absent entries
/// filled in.
pub struct PlayerState<Q, T> {
    /// The guild's track queue.
    pub queue: Option<Q>,
    /// The channel of the player message.
    pub channel_id: Option<u64>,
    /// The player message.
    pub message_id: Option<u64>,
    /// Whether the player message lists the queue.
    pub show_queue: bool,
    /// The task that refreshes the player message.
    pub task: Option<T>,
    /// The repeat mode.
    pub repeat: RepeatState,
}

impl<Q, T> PlayerState<Q, T> {
    /// The state of a guild that nothing has happened to.
    pub open spec fn initial() -> PlayerState<Q, T> {
        PlayerState {
            queue: None,
            channel_id: None,
            message_id: None,
            show_queue: true,
            task: None,
            repeat: RepeatState::Disabled,
        }
    }

    /// After the guild's playback state was dropped: queue, message, channel and
    /// repeat mode are forgotten; the queue view and the refresh task stay.
    pub open spec fn dropped(self) -> PlayerState<Q, T> {
        PlayerState {
            queue: None,
            channel_id: None,
            message_id: None,
            repeat: RepeatState::Disabled,
            ..self
        }
    }
}

/// The data the player message is built from.
pub struct PlayerMessageData<'a, Q> {
    /// The guild's track queue, if it has one.
    pub queue: Option<&'a Q>,
    /// Whether the queue is listed.
    pub show_queue: bool,
    /// The repeat mode.
    pub repeat_state: RepeatState,
}

/// The playback state of every guild, keyed by the guild's id: its track queue `Q`,
/// where its player message stands, its settings, and the task `T` that refreshes the
/// message.
pub struct MusicManager<Q, T> {
    queues: HashMap<u64, Q>,
    channel_ids: HashMap<u64, u64>,
    message_ids: HashMap<u64, u64>,
    show_queue: HashMap<u64, bool>,
    update_tasks: HashMap<u64, T>,
    repeat_state: HashMap<u64, RepeatState>,
}

impl<Q, T> MusicManager<Q, T> {
    /// What the manager knows of guild `g`.
    pub closed spec fn guild(&self, g: u64) -> PlayerState<Q, T> {
        PlayerState {
            queue: if self.queues@.contains_key(g) {
                Some(self.queues@[g])
            } else {
                None
            },
            channel_id: if self.channel_ids@.contains_key(g) {
                Some(self.channel_ids@[g])
            } else {
                None
            },
            message_id: if self.message_ids@.contains_key(g) {
                Some(self.message_ids@[g])
            } else {
                None
            },
            show_queue: if self.show_queue@.contains_key(g) {
                self.show_queue@[g]
            } else {
                true
            },
            task: if self.update_tasks@.contains_key(g) {
                Some(self.update_tasks@[g])
            } else {
                None
            },
            repeat: if self.repeat_state@.contains_key(g) {
                self.repeat_state@[g]
            } else {
                RepeatState::Disabled
            },
        }
    }

    /// Every guild but `g` is as in `other`.
    pub open spec fn same_except(&self, other: &Self, g: u64) -> bool {
        forall|h: u64| h != g ==> #[trigger] self.guild(h) == other.guild(h)
    }

    /// A manager that knows of no guild.
    pub fn new() -> (m: Self)
        ensures
            forall|g: u64| #[trigger] m.guild(g) == PlayerState::<Q, T>::initial(),
    {
        MusicManager {
            queues: HashMap::new(),
            channel_ids: HashMap::new(),
            message_ids: HashMap::new(),
            show_queue: HashMap::new(),
            update_tasks: HashMap::new(),
            repeat_state: HashMap::new(),
        }
    }

    /// The track queue of guild `g`, if it has one.
    pub fn get_queue(&self, g: u64) -> (r: Option<&Q>)
        ensures
            match r {
                Some(q) => self.guild(g).queue == Some(*q),
                None => self.guild(g).queue is None,
            },
    {
        self.queues.get(&g)
    }

    /// Stores `queue` as guild `g`'s track queue.
    pub fn store_queue(&mut self, g: u64, queue: Q)
        ensures
            final(self).guild(g) == (PlayerState { queue: Some(queue), ..old(self).guild(g) }),
            final(self).same_except(old(self), g),
    {
        let ghost before = *self;
        self.queues.insert(g, queue);
        proof {
            assert forall|h: u64| h != g implies #[trigger] self.guild(h) == before.guild(h) by {}
        }
    }

    /// The player message of guild `g`, if one was stored.
    pub fn get_message_id(&self, g: u64) -> (r: Option<u64>)
        ensures
            r == self.guild(g).message_id,
    {
        match self.message_ids.get(&g) {
            Some(id) => Some(*id),
            None => None,
        }
    }

    /// Stores `message_id` as guild `g`'s player message.
    pub fn store_message_id(&mut self, g: u64, message_id: u64)
        ensures
            final(self).guild(g) == (PlayerState {
                message_id: Some(message_id),
                ..old(self).guild(g)
            }),
            final(self).same_except(old(self), g),
    {
        let ghost before = *self;
        self.message_ids.insert(g, message_id);
        proof {
            assert forall|h: u64| h != g implies #[trigger] self.guild(h) == before.guild(h) by {}
        }
    }

    /// The channel of guild `g`'s player message, if one was stored.
    pub fn get_channel_id(&self, g: u64) -> (r: Option<u64>)
        ensures
            r == self.guild(g).channel_id,
    {
        match self.channel_ids.get(&g) {
            Some(id) => Some(*id),
            None => None,
        }
    }

    /// Stores `channel_id` as the channel of guild `g`'s player message.
    pub fn store_channel_id(&mut self, g: u64, channel_id: u64)
        ensures
            final(self).guild(g) == (PlayerState {
                channel_id: Some(channel_id),
                ..old(self).guild(g)
            }),
            final(self).same_except(old(self), g),
    {
        let ghost before = *self;
        self.channel_ids.insert(g, channel_id);
        proof {
            assert forall|h: u64| h != g implies #[trigger] self.guild(h) == before.guild(h) by {}
        }
    }

    /// Stores `task` as guild `g`'s refresh task and gives back the one it replaces.
    pub fn store_update_task(&mut self, g: u64, task: T) -> (replaced: Option<T>)
        ensures
            replaced == old(self).guild(g).task,
            final(self).guild(g) == (PlayerState { task: Some(task), ..old(self).guild(g) }),
            final(self).same_except(old(self), g),
    {
        let ghost before = *self;
        let replaced = self.update_tasks.insert(g, task);
        proof {
            assert forall|h: u64| h != g implies #[trigger] self.guild(h) == before.guild(h) by {}
        }
        replaced
    }

    /// Takes guild `g`'s refresh task out of the manager.
    pub fn drop_update_task(&mut self, g: u64) -> (task: Option<T>)
        ensures
            task == old(self).guild(g).task,
            final(self).guild(g) == (PlayerState { task: None, ..old(self).guild(g) }),
            final(self).same_except(old(self), g),
    {
        let ghost before = *self;
        let task = self.update_tasks.remove(&g);
        proof {
            assert forall|h: u64| h != g implies #[trigger] self.guild(h) == before.guild(h) by {}
        }
        task
    }

    /// The repeat mode of guild `g` (by default off).
    pub fn get_repeat_state(&self, g: u64) -> (r: RepeatState)
        ensures
            r == self.guild(g).repeat,
    {
        match self.repeat_state.get(&g) {
            Some(r) => *r,
            None => RepeatState::Disabled,
        }
    }

    /// Sets the repeat mode of guild `g`.
    pub fn set_repeat_state(&mut self, g: u64, state: RepeatState)
        ensures
            final(self).guild(g) == (PlayerState { repeat: state, ..old(self).guild(g) }),
            final(self).same_except(old(self), g),
    {
        let ghost before = *self;
        self.repeat_state.insert(g, state);
        proof {
            assert forall|h: u64| h != g implies #[trigger] self.guild(h) == before.guild(h) by {}
        }
    }

    /// Forgets guild `g`'s queue, player message, channel and repeat mode.
    pub fn drop_all(&mut self, g: u64)
        ensures
            final(self).guild(g) == old(self).guild(g).dropped(),
            final(self).same_except(old(self), g),
    {
        let ghost before = *self;
        self.queues.remove(&g);
        self.message_ids.remove(&g);
        self.channel_ids.remove(&g);
        self.repeat_state.remove(&g);
        proof {
            assert forall|h: u64| h != g implies #[trigger] self.guild(h) == before.guild(h) by {}
        }
    }

    /// Switches whether guild `g`'s player message lists the queue.
    pub fn toggle_queue_view(&mut self, g: u64)
        ensures
            final(self).guild(g) == (PlayerState {
                show_queue: !old(self).guild(g).show_queue,
                ..old(self).guild(g)
            }),
            final(self).same_except(old(self), g),
    {
        let ghost before = *self;
        let current = match self.show_queue.get(&g) {
            Some(b) => *b,
            None => true,
        };
        self.show_queue.insert(g, !current);
        proof {
            assert forall|h: u64| h != g implies #[trigger] self.guild(h) == before.guild(h) by {}
        }
    }

    /// The data guild `g`'s player message is built from.
    pub fn get_player_message_data(&self, g: u64) -> (d: PlayerMessageData<'_, Q>)
        ensures
            match d.queue {
                Some(q) => self.guild(g).queue == Some(*q),
                None => self.guild(g).queue is None,
            },
            d.show_queue == self.guild(g).show_queue,
            d.repeat_state == self.guild(g).repeat,
    {
        let show_queue = match self.show_queue.get(&g) {
            Some(b) => *b,
            None => true,
        };
        PlayerMessageData {
            queue: self.queues.get(&g),
            show_queue,
            repeat_state: self.get_repeat_state(g),
        }
    }
}

/// Puts every track of `queue` but the first (the playing one) in a random order; a
/// queue of fewer than two tracks stays as it is.
pub fn shuffle_keeping_head<X>(queue: &mut VecDeque<X>)
    ensures
        final(queue)@.len() == old(queue)@.len(),
        final(queue)@.to_multiset() == old(queue)@.to_multiset(),
        old(queue)@.len() > 0 ==> final(queue)@[0] == old(queue)@[0],
        old(queue)@.len() > 0 ==> final(queue)@.drop_first().to_multiset() == old(
            queue,
        )@.drop_first().to_multiset(),
        old(queue)@.len() <= 1 ==> final(queue)@ == old(queue)@,
{
    if queue.len() <= 1 {
        return ;
    }
    let ghost orig = queue@;
    let current = queue.pop_front();
    let mut rest: VecDeque<X> = VecDeque::new();
    rest.append(queue);
    let mut items = deque_into_vec(rest);
    shuffle_vec(&mut items);
    let ghost shuffled = items@;
    let mut tail = vec_into_deque(items);
    match current {
        Some(c) => {
            queue.push_back(c);
        },
        None => {},
    }
    queue.append(&mut tail);
    proof {
        assert(queue@ =~= seq![orig[0]] + shuffled);
        assert(queue@.drop_first() =~= shuffled);
        assert(orig =~= seq![orig[0]] + orig.drop_first());
        vstd::seq_lib::lemma_multiset_commutative(seq![orig[0]], orig.drop_first());
        vstd::seq_lib::lemma_multiset_commutative(seq![orig[0]], shuffled);
    }
}

} // verus!
