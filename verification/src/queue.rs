use vstd::prelude::*;

use std::collections::HashMap;
use std::collections::VecDeque;

use rand::seq::SliceRandom;

use crate::track::{metadata_views, TrackMetadata};

verus! {

broadcast use {
    vstd::std_specs::hash::group_hash_axioms,
    vstd::std_specs::vecdeque::group_vec_dequeue_axioms,
};

/// How many finished tracks the history of a guild keeps.
pub const HISTORY_LIMIT: usize = 50;

/// The repeat mode of a guild's player.
#[derive(Clone, Copy, Debug, PartialEq, Eq, Structural)]
pub enum RepeatState {
    /// Repeat is off.
    Disabled,
    /// The current track is played again.
    Track,
}

/// The repeat mode that follows `r` when the mode is cycled.
pub open spec fn next_repeat(r: RepeatState) -> RepeatState {
    match r {
        RepeatState::Disabled => RepeatState::Track,
        RepeatState::Track => RepeatState::Disabled,
    }
}

/// Everything the queue manager knows of one guild, with the defaults of absent
/// entries filled in.
pub struct GuildState<H, T> {
    /// Tracks waiting to be played, next one first.
    pub queue: Seq<TrackMetadata>,
    /// The playing track: its handle and its metadata.
    pub current: Option<(H, TrackMetadata)>,
    /// Finished tracks, most recent first.
    pub history: Seq<TrackMetadata>,
    /// Whether the player message lists the queue.
    pub show_queue: bool,
    /// The repeat mode.
    pub repeat: RepeatState,
    /// Whether shuffle is on.
    pub shuffle: bool,
    /// The task that refreshes the player message.
    pub task: Option<T>,
}

/// The history after the track `m` has finished: `m` goes in front, and the oldest
/// entry leaves when the history is full.
pub open spec fn pushed_history(history: Seq<TrackMetadata>, m: TrackMetadata) -> Seq<
    TrackMetadata,
> {
    if history.len() >= HISTORY_LIMIT {
        seq![m] + history.drop_last()
    } else {
        seq![m] + history
    }
}

impl<H, T> GuildState<H, T> {
    /// The state of a guild that nothing has happened to (or that was cleared).
    pub open spec fn initial() -> GuildState<H, T> {
        GuildState {
            queue: Seq::empty(),
            current: None,
            history: Seq::empty(),
            show_queue: true,
            repeat: RepeatState::Disabled,
            shuffle: false,
            task: None,
        }
    }

    /// After `m` joined the end of the queue.
    pub open spec fn added(self, m: TrackMetadata) -> GuildState<H, T> {
        GuildState { queue: self.queue.push(m), ..self }
    }

    /// What taking the next track gives back.
    pub open spec fn next_track(self) -> Option<TrackMetadata> {
        if self.queue.len() > 0 {
            Some(self.queue[0])
        } else {
            None
        }
    }

    /// After the next track left the queue.
    pub open spec fn taken(self) -> GuildState<H, T> {
        if self.queue.len() > 0 {
            GuildState { queue: self.queue.drop_first(), ..self }
        } else {
            self
        }
    }

    /// After `(handle, m)` became the playing track; the one it replaces goes to the
    /// history.
    pub open spec fn with_current(self, handle: H, m: TrackMetadata) -> GuildState<H, T> {
        GuildState {
            current: Some((handle, m)),
            history: match self.current {
                Some(p) => pushed_history(self.history, p.1),
                None => self.history,
            },
            ..self
        }
    }

    /// What taking the most recent history entry gives back.
    pub open spec fn previous_track(self) -> Option<TrackMetadata> {
        if self.history.len() > 0 {
            Some(self.history[0])
        } else {
            None
        }
    }

    /// After the most recent history entry was taken.
    pub open spec fn history_taken(self) -> GuildState<H, T> {
        if self.history.len() > 0 {
            GuildState { history: self.history.drop_first(), ..self }
        } else {
            self
        }
    }

    /// After the track at `position` left the queue, where there is one.
    pub open spec fn removed_at(self, position: int) -> GuildState<H, T> {
        if 0 <= position < self.queue.len() {
            GuildState { queue: self.queue.remove(position), ..self }
        } else {
            self
        }
    }

    /// After the queue view was switched.
    pub open spec fn view_toggled(self) -> GuildState<H, T> {
        GuildState { show_queue: !self.show_queue, ..self }
    }

    /// After shuffle was switched.
    pub open spec fn shuffle_toggled(self) -> GuildState<H, T> {
        GuildState { shuffle: !self.shuffle, ..self }
    }

    /// After the repeat mode was cycled.
    pub open spec fn repeat_cycled(self) -> GuildState<H, T> {
        GuildState { repeat: next_repeat(self.repeat), ..self }
    }

    /// After `task` became the refresh task.
    pub open spec fn with_task(self, task: Option<T>) -> GuildState<H, T> {
        GuildState { task, ..self }
    }

    /// The history holds no more than its limit.
    pub open spec fn wf(self) -> bool {
        self.history.len() <= HISTORY_LIMIT
    }
}

/// Tracks leave a queue in the order they joined it: a track added to an empty queue
/// is the next one, and adding to a queue that has tracks changes neither which track
/// is next nor what follows it.
pub proof fn lemma_queue_is_fifo<H, T>(s: GuildState<H, T>, m: TrackMetadata)
    ensures
        s.queue.len() == 0 ==> s.added(m).next_track() == Some(m),
        s.queue.len() > 0 ==> s.added(m).next_track() == s.next_track(),
        s.queue.len() > 0 ==> s.added(m).taken() == s.taken().added(m),
{
    if s.queue.len() > 0 {
        assert(s.added(m).taken().queue =~= s.taken().added(m).queue);
    }
}

/// The track that a new playing track replaces is the one that going back gives, and
/// while the history is not full, going back leaves the history as it was before.
pub proof fn lemma_previous_gives_back_replaced<H, T>(s: GuildState<H, T>, handle: H, m: TrackMetadata)
    requires
        s.current is Some,
    ensures
        s.with_current(handle, m).previous_track() == Some(s.current.unwrap().1),
        s.history.len() < HISTORY_LIMIT ==> s.with_current(handle, m).history_taken().history
            == s.history,
{
    let t = s.with_current(handle, m);
    assert(t.history[0] == s.current.unwrap().1);
    if s.history.len() < HISTORY_LIMIT {
        assert(t.history_taken().history =~= s.history);
    }
}

/// A history never grows past its limit, whatever track starts playing.
pub proof fn lemma_history_stays_bounded<H, T>(s: GuildState<H, T>, handle: H, m: TrackMetadata)
    requires
        s.wf(),
    ensures
        s.with_current(handle, m).wf(),
{
}

/// Switching the queue view or shuffle twice, or cycling the repeat mode twice, comes
/// back to where it started.
pub proof fn lemma_switches_undo_themselves<H, T>(s: GuildState<H, T>)
    ensures
        s.view_toggled().view_toggled() == s,
        s.shuffle_toggled().shuffle_toggled() == s,
        s.repeat_cycled().repeat_cycled() == s,
{
}

/// Removing the track at a position of the queue shortens the queue by one and keeps
/// the order of the others; at a position past the end nothing changes.
pub proof fn lemma_remove_keeps_order<H, T>(s: GuildState<H, T>, position: int)
    ensures
        0 <= position < s.queue.len() ==> {
            let q = s.removed_at(position).queue;
            &&& q.len() == s.queue.len() - 1
            &&& forall|j: int| 0 <= j < position ==> #[trigger] q[j] == s.queue[j]
            &&& forall|j: int| position <= j < q.len() ==> #[trigger] q[j] == s.queue[j + 1]
        },
        !(0 <= position < s.queue.len()) ==> s.removed_at(position) == s,
{
}

/// The queues, playing tracks, histories and player settings of every guild, keyed by
/// the guild's id. `H` is the handle of a playing track, `T` the handle of a task that
/// refreshes a guild's player message.
pub struct QueueManager<H, T> {
    queues: HashMap<u64, VecDeque<TrackMetadata>>,
    current_tracks: HashMap<u64, (H, TrackMetadata)>,
    history: HashMap<u64, VecDeque<TrackMetadata>>,
    show_queue: HashMap<u64, bool>,
    update_tasks: HashMap<u64, T>,
    repeat_state: HashMap<u64, RepeatState>,
    shuffle_enabled: HashMap<u64, bool>,
}

/// Moves the elements of `q` into a `Vec`, in order.
pub(crate) fn deque_into_vec<X>(q: VecDeque<X>) -> (v: Vec<X>)
    ensures
        v@ == q@,
{
    let mut q = q;
    let ghost orig = q@;
    let mut v: Vec<X> = Vec::new();
    loop
        invariant
            v@ + q@ == orig,
        ensures
            v@ == orig,
        decreases q@.len(),
    {
        match q.pop_front() {
            Some(x) => {
                proof {
                    assert(v@.push(x) + q@ =~= orig);
                }
                v.push(x);
            },
            None => {
                assert(v@ =~= orig);
                break ;
            },
        }
    }
    v
}

/// Moves the elements of `v` into a `VecDeque`, in order.
pub(crate) fn vec_into_deque<X>(v: Vec<X>) -> (q: VecDeque<X>)
    ensures
        q@ == v@,
{
    let mut v = v;
    let ghost orig = v@;
    let mut q: VecDeque<X> = VecDeque::new();
    loop
        invariant
            v@ + q@ == orig,
        ensures
            q@ == orig,
        decreases v@.len(),
    {
        match v.pop() {
            Some(x) => {
                proof {
                    assert(v@ + (seq![x] + q@) =~= orig);
                }
                q.push_front(x);
            },
            None => {
                assert(q@ =~= orig);
                break ;
            },
        }
    }
    q
}

/// Puts `items` in a random order with `rand`'s `SliceRandom::shuffle` and the
/// thread-local generator.
///
/// Claimed of it: the result is a rearrangement of the input, as the crate's shuffle
/// only swaps elements. Which order comes out is chance and is left unsaid.
#[verifier::external_body]
pub(crate) fn shuffle_vec<X>(items: &mut Vec<X>)
    ensures
        final(items)@.len() == old(items)@.len(),
        final(items)@.to_multiset() == old(items)@.to_multiset(),
{
    let mut rng = rand::thread_rng();
    items.shuffle(&mut rng);
}

impl<H, T> QueueManager<H, T> {
    /// What the manager knows of guild `g`.
    pub closed spec fn guild(&self, g: u64) -> GuildState<H, T> {
        GuildState {
            queue: if self.queues@.contains_key(g) {
                self.queues@[g]@
            } else {
                Seq::empty()
            },
            current: if self.current_tracks@.contains_key(g) {
                Some(self.current_tracks@[g])
            } else {
                None
            },
            history: if self.history@.contains_key(g) {
                self.history@[g]@
            } else {
                Seq::empty()
            },
            show_queue: if self.show_queue@.contains_key(g) {
                self.show_queue@[g]
            } else {
                true
            },
            repeat: if self.repeat_state@.contains_key(g) {
                self.repeat_state@[g]
            } else {
                RepeatState::Disabled
            },
            shuffle: if self.shuffle_enabled@.contains_key(g) {
                self.shuffle_enabled@[g]
            } else {
                false
            },
            task: if self.update_tasks@.contains_key(g) {
                Some(self.update_tasks@[g])
            } else {
                None
            },
        }
    }

    /// Every guild's history holds no more than its limit.
    pub open spec fn wf(&self) -> bool {
        forall|g: u64| #[trigger] self.guild(g).wf()
    }

    /// Every guild but `g` is as in `other`.
    pub open spec fn same_except(&self, other: &Self, g: u64) -> bool {
        forall|h: u64| h != g ==> #[trigger] self.guild(h) == other.guild(h)
    }

    /// A manager that knows of no guild.
    pub fn new() -> (m: Self)
        ensures
            m.wf(),
            forall|g: u64| #[trigger] m.guild(g) == GuildState::<H, T>::initial(),
    {
        let m = QueueManager {
            queues: HashMap::new(),
            current_tracks: HashMap::new(),
            history: HashMap::new(),
            show_queue: HashMap::new(),
            update_tasks: HashMap::new(),
            repeat_state: HashMap::new(),
            shuffle_enabled: HashMap::new(),
        };
        assert forall|g: u64| #[trigger] m.guild(g) == GuildState::<H, T>::initial() by {
            assert(m.guild(g).queue =~= Seq::<TrackMetadata>::empty());
            assert(m.guild(g).history =~= Seq::<TrackMetadata>::empty());
        }
        m
    }

    /// Puts `metadata` at the end of guild `g`'s queue.
    pub fn add(&mut self, g: u64, metadata: TrackMetadata)
        requires
            old(self).wf(),
        ensures
            final(self).wf(),
            final(self).guild(g) == old(self).guild(g).added(metadata),
            final(self).same_except(old(self), g),
    {
        let ghost before = *self;
        let mut q = match self.queues.remove(&g) {
            Some(q) => q,
            None => VecDeque::new(),
        };
        q.push_back(metadata);
        self.queues.insert(g, q);
        proof {
            assert(self.guild(g) =~= before.guild(g).added(metadata));
            assert forall|h: u64| h != g implies #[trigger] self.guild(h) == before.guild(h) by {}
            assert forall|h: u64| #[trigger] self.guild(h).wf() by {
                assert(before.guild(h).wf());
            }
        }
    }

    /// Takes the next track of guild `g`'s queue, if there is one.
    pub fn next(&mut self, g: u64) -> (r: Option<TrackMetadata>)
        requires
            old(self).wf(),
        ensures
            final(self).wf(),
            r == old(self).guild(g).next_track(),
            final(self).guild(g) == old(self).guild(g).taken(),
            final(self).same_except(old(self), g),
    {
        let ghost before = *self;
        match self.queues.remove(&g) {
            Some(q) => {
                let mut q = q;
                let r = q.pop_front();
                self.queues.insert(g, q);
                proof {
                    assert(self.guild(g) =~= before.guild(g).taken());
                    assert forall|h: u64| h != g implies #[trigger] self.guild(h) == before.guild(
                        h,
                    ) by {}
                    assert forall|h: u64| #[trigger] self.guild(h).wf() by {
                        assert(before.guild(h).wf());
                    }
                }
                r
            },
            None => {
                proof {
                    assert(self.queues@ =~= before.queues@);
                    assert forall|h: u64| #[trigger] self.guild(h) == before.guild(h) by {}
                    assert forall|h: u64| #[trigger] self.guild(h).wf() by {
                        assert(before.guild(h).wf());
                    }
                }
                None
            },
        }
    }

    /// Forgets everything of guild `g`: its queue, playing track, history and
    /// settings. Gives back the refresh task of the guild, which the caller stops.
    pub fn clear(&mut self, g: u64) -> (task: Option<T>)
        requires
            old(self).wf(),
        ensures
            final(self).wf(),
            task == old(self).guild(g).task,
            final(self).guild(g) == GuildState::<H, T>::initial(),
            final(self).same_except(old(self), g),
    {
        let ghost before = *self;
        self.queues.remove(&g);
        self.current_tracks.remove(&g);
        self.history.remove(&g);
        self.show_queue.remove(&g);
        self.repeat_state.remove(&g);
        self.shuffle_enabled.remove(&g);
        let task = self.update_tasks.remove(&g);
        proof {
            assert(self.guild(g).queue =~= Seq::<TrackMetadata>::empty());
            assert(self.guild(g).history =~= Seq::<TrackMetadata>::empty());
            assert forall|h: u64| h != g implies #[trigger] self.guild(h) == before.guild(h) by {}
            assert forall|h: u64| #[trigger] self.guild(h).wf() by {
                assert(before.guild(h).wf());
            }
        }
        task
    }

    /// A copy of guild `g`'s queue, next track first.
    pub fn get_queue(&self, g: u64) -> (r: Vec<TrackMetadata>)
        ensures
            metadata_views(r@) == metadata_views(self.guild(g).queue),
    {
        match self.queues.get(&g) {
            Some(q) => {
                let mut r: Vec<TrackMetadata> = Vec::new();
                let mut i: usize = 0;
                while i < q.len()
                    invariant
                        i <= q@.len(),
                        q@ == self.guild(g).queue,
                        r@.len() == i,
                        forall|j: int| 0 <= j < i ==> (#[trigger] r@[j])@ == q@[j]@,
                    decreases q@.len() - i,
                {
                    r.push(q[i].copy());
                    i = i + 1;
                }
                assert(metadata_views(r@) =~= metadata_views(self.guild(g).queue));
                r
            },
            None => {
                let r: Vec<TrackMetadata> = Vec::new();
                assert(metadata_views(r@) =~= metadata_views(self.guild(g).queue));
                r
            },
        }
    }

    /// Makes `(handle, metadata)` the playing track of guild `g`. The track it replaces,
    /// if any, goes to the front of the history, which drops its oldest entry when full.
    pub fn set_current_track(&mut self, g: u64, handle: H, metadata: TrackMetadata)
        requires
            old(self).wf(),
        ensures
            final(self).wf(),
            final(self).guild(g) == old(self).guild(g).with_current(handle, metadata),
            final(self).same_except(old(self), g),
    {
        let ghost before = *self;
        match self.current_tracks.remove(&g) {
            Some(previous) => {
                let (_old_handle, old_metadata) = previous;
                let mut hist = match self.history.remove(&g) {
                    Some(h) => h,
                    None => VecDeque::new(),
                };
                proof {
                    assert(before.guild(g).wf());
                }
                if hist.len() >= HISTORY_LIMIT {
                    hist.pop_back();
                }
                hist.push_front(old_metadata);
                self.history.insert(g, hist);
            },
            None => {},
        }
        self.current_tracks.insert(g, (handle, metadata));
        proof {
            assert(self.guild(g).history =~= before.guild(g).with_current(handle, metadata).history);
            assert(self.guild(g) =~= before.guild(g).with_current(handle, metadata));
            assert forall|h: u64| h != g implies #[trigger] self.guild(h) == before.guild(h) by {}
            assert forall|h: u64| #[trigger] self.guild(h).wf() by {
                assert(before.guild(h).wf());
            }
        }
    }

    /// The playing track of guild `g`, if any.
    pub fn get_current_track(&self, g: u64) -> (r: Option<&(H, TrackMetadata)>)
        ensures
            match r {
                Some(p) => self.guild(g).current == Some(*p),
                None => self.guild(g).current is None,
            },
    {
        self.current_tracks.get(&g)
    }

    /// Whether guild `g` has a playing track.
    pub fn has_current_track(&self, g: u64) -> (b: bool)
        ensures
            b == self.guild(g).current is Some,
    {
        self.current_tracks.contains_key(&g)
    }

    /// Takes the most recently finished track of guild `g` from its history, if any.
    /// The queue and the playing track stay as they are.
    pub fn previous(&mut self, g: u64) -> (r: Option<TrackMetadata>)
        requires
            old(self).wf(),
        ensures
            final(self).wf(),
            r == old(self).guild(g).previous_track(),
            final(self).guild(g) == old(self).guild(g).history_taken(),
            final(self).same_except(old(self), g),
    {
        let ghost before = *self;
        match self.history.remove(&g) {
            Some(h) => {
                let mut h = h;
                let r = h.pop_front();
                self.history.insert(g, h);
                proof {
                    assert(self.guild(g) =~= before.guild(g).history_taken());
                    assert forall|k: u64| k != g implies #[trigger] self.guild(k) == before.guild(
                        k,
                    ) by {}
                    assert forall|k: u64| #[trigger] self.guild(k).wf() by {
                        assert(before.guild(k).wf());
                    }
                }
                r
            },
            None => {
                proof {
                    assert(self.history@ =~= before.history@);
                    assert forall|k: u64| #[trigger] self.guild(k) == before.guild(k) by {}
                }
                None
            },
        }
    }

    /// Whether guild `g` has finished tracks in its history.
    pub fn has_history(&self, g: u64) -> (b: bool)
        ensures
            b == (self.guild(g).history.len() > 0),
    {
        match self.history.get(&g) {
            Some(h) => h.len() > 0,
            None => false,
        }
    }

    /// Switches whether guild `g`'s player message lists the queue.
    pub fn toggle_queue_view(&mut self, g: u64)
        requires
            old(self).wf(),
        ensures
            final(self).wf(),
            final(self).guild(g) == old(self).guild(g).view_toggled(),
            final(self).same_except(old(self), g),
    {
        let ghost before = *self;
        let current = self.is_queue_view_enabled(g);
        self.show_queue.insert(g, !current);
        proof {
            assert(self.guild(g) =~= before.guild(g).view_toggled());
            assert forall|h: u64| h != g implies #[trigger] self.guild(h) == before.guild(h) by {}
            assert forall|h: u64| #[trigger] self.guild(h).wf() by {
                assert(before.guild(h).wf());
            }
        }
    }

    /// Whether guild `g`'s player message lists the queue (by default it does).
    pub fn is_queue_view_enabled(&self, g: u64) -> (b: bool)
        ensures
            b == self.guild(g).show_queue,
    {
        match self.show_queue.get(&g) {
            Some(b) => *b,
            None => true,
        }
    }

    /// The repeat mode of guild `g` (by default off).
    pub fn get_repeat_state(&self, g: u64) -> (r: RepeatState)
        ensures
            r == self.guild(g).repeat,
    {
        match self.repeat_state.get(&g) {
            Some(r) => *r,
            None => RepeatState::Disabled,
        }
    }

    /// Moves guild `g` to the next repeat mode and gives it back.
    pub fn cycle_repeat_state(&mut self, g: u64) -> (r: RepeatState)
        requires
            old(self).wf(),
        ensures
            final(self).wf(),
            r == next_repeat(old(self).guild(g).repeat),
            final(self).guild(g) == old(self).guild(g).repeat_cycled(),
            final(self).same_except(old(self), g),
    {
        let ghost before = *self;
        let next = match self.get_repeat_state(g) {
            RepeatState::Disabled => RepeatState::Track,
            RepeatState::Track => RepeatState::Disabled,
        };
        self.repeat_state.insert(g, next);
        proof {
            assert(self.guild(g) =~= before.guild(g).repeat_cycled());
            assert forall|h: u64| h != g implies #[trigger] self.guild(h) == before.guild(h) by {}
            assert forall|h: u64| #[trigger] self.guild(h).wf() by {
                assert(before.guild(h).wf());
            }
        }
        next
    }

    /// Whether shuffle is on for guild `g` (by default it is off).
    pub fn is_shuffle_enabled(&self, g: u64) -> (b: bool)
        ensures
            b == self.guild(g).shuffle,
    {
        match self.shuffle_enabled.get(&g) {
            Some(b) => *b,
            None => false,
        }
    }

    /// Switches shuffle for guild `g` and gives back the new setting.
    pub fn toggle_shuffle(&mut self, g: u64) -> (b: bool)
        requires
            old(self).wf(),
        ensures
            final(self).wf(),
            b == !old(self).guild(g).shuffle,
            final(self).guild(g) == old(self).guild(g).shuffle_toggled(),
            final(self).same_except(old(self), g),
    {
        let ghost before = *self;
        let next = !self.is_shuffle_enabled(g);
        self.shuffle_enabled.insert(g, next);
        proof {
            assert(self.guild(g) =~= before.guild(g).shuffle_toggled());
            assert forall|h: u64| h != g implies #[trigger] self.guild(h) == before.guild(h) by {}
            assert forall|h: u64| #[trigger] self.guild(h).wf() by {
                assert(before.guild(h).wf());
            }
        }
        next
    }

    /// Puts guild `g`'s queue in a random order; a queue of fewer than two tracks
    /// stays as it is.
    pub fn shuffle_queue(&mut self, g: u64)
        requires
            old(self).wf(),
        ensures
            final(self).wf(),
            final(self).guild(g).queue.to_multiset() == old(self).guild(g).queue.to_multiset(),
            old(self).guild(g).queue.len() < 2 ==> final(self).guild(g).queue == old(self).guild(g).queue,
            final(self).guild(g) == (GuildState { queue: final(self).guild(g).queue, ..old(self).guild(g) }),
            final(self).same_except(old(self), g),
    {
        let ghost before = *self;
        match self.queues.remove(&g) {
            Some(q) => {
                if q.len() > 1 {
                    let mut items = deque_into_vec(q);
                    shuffle_vec(&mut items);
                    let q2 = vec_into_deque(items);
                    self.queues.insert(g, q2);
                } else {
                    self.queues.insert(g, q);
                }
                proof {
                    assert forall|h: u64| h != g implies #[trigger] self.guild(h) == before.guild(
                        h,
                    ) by {}
                    assert forall|h: u64| #[trigger] self.guild(h).wf() by {
                        assert(before.guild(h).wf());
                    }
                }
            },
            None => {
                proof {
                    assert(self.queues@ =~= before.queues@);
                    assert forall|h: u64| #[trigger] self.guild(h) == before.guild(h) by {}
                }
            },
        }
    }

    /// Records `task` as guild `g`'s refresh task and gives back the one it replaces,
    /// which the caller stops.
    pub fn start_update_task(&mut self, g: u64, task: T) -> (replaced: Option<T>)
        requires
            old(self).wf(),
        ensures
            final(self).wf(),
            replaced == old(self).guild(g).task,
            final(self).guild(g) == old(self).guild(g).with_task(Some(task)),
            final(self).same_except(old(self), g),
    {
        let ghost before = *self;
        let replaced = self.update_tasks.insert(g, task);
        proof {
            assert(self.guild(g) =~= before.guild(g).with_task(Some(task)));
            assert forall|h: u64| h != g implies #[trigger] self.guild(h) == before.guild(h) by {}
            assert forall|h: u64| #[trigger] self.guild(h).wf() by {
                assert(before.guild(h).wf());
            }
        }
        replaced
    }

    /// Takes guild `g`'s refresh task out of the manager, which the caller stops.
    pub fn stop_update_task(&mut self, g: u64) -> (task: Option<T>)
        requires
            old(self).wf(),
        ensures
            final(self).wf(),
            task == old(self).guild(g).task,
            final(self).guild(g) == old(self).guild(g).with_task(None),
            final(self).same_except(old(self), g),
    {
        let ghost before = *self;
        let task = self.update_tasks.remove(&g);
        proof {
            assert(self.guild(g) =~= before.guild(g).with_task(None));
            assert forall|h: u64| h != g implies #[trigger] self.guild(h) == before.guild(h) by {}
            assert forall|h: u64| #[trigger] self.guild(h).wf() by {
                assert(before.guild(h).wf());
            }
        }
        task
    }

    /// Takes the track at `position` (counted from 0) out of guild `g`'s queue, if the
    /// queue is that long.
    pub fn remove_track(&mut self, g: u64, position: usize) -> (r: Option<TrackMetadata>)
        requires
            old(self).wf(),
        ensures
            final(self).wf(),
            r == (if position < old(self).guild(g).queue.len() {
                Some(old(self).guild(g).queue[position as int])
            } else {
                None
            }),
            final(self).guild(g) == old(self).guild(g).removed_at(position as int),
            final(self).same_except(old(self), g),
    {
        let ghost before = *self;
        match self.queues.remove(&g) {
            Some(q) => {
                let mut q = q;
                let r = if position < q.len() {
                    q.remove(position)
                } else {
                    None
                };
                self.queues.insert(g, q);
                proof {
                    assert(self.guild(g) =~= before.guild(g).removed_at(position as int));
                    assert forall|h: u64| h != g implies #[trigger] self.guild(h) == before.guild(
                        h,
                    ) by {}
                    assert forall|h: u64| #[trigger] self.guild(h).wf() by {
                        assert(before.guild(h).wf());
                    }
                }
                r
            },
            None => {
                proof {
                    assert(self.queues@ =~= before.queues@);
                    assert forall|h: u64| #[trigger] self.guild(h) == before.guild(h) by {}
                }
                None
            },
        }
    }
}

} // verus!
