//! The sessions of the node's guilds and what queueing, controls and track ends do to them.
use vstd::prelude::*;
use dashmap::DashMap;
use crate::collections::{find_session, guild_sessions, new_sessions, no_sessions, put_session};
use crate::model::{
    ActionRequest, GuildId, GuildSessionState, NodeInfo, QueueItem, QueueItemView, SessionView,
    StateResponse, Track, TrackView,
};
use crate::text::same;

verus! {

/// The loudest volume that can be set.
pub const MAX_VOLUME: u8 = 150;

/// The volume of a new session.
pub const DEFAULT_VOLUME: u8 = 100;

/// The session of a guild that the node has not met yet.
pub open spec fn fresh_session(guild_id: GuildId) -> SessionView {
    SessionView {
        guild_id,
        queue: Seq::empty(),
        current: None,
        paused: false,
        volume: DEFAULT_VOLUME,
        position_ms: 0,
        is_finished: false,
        node: None,
    }
}

/// The session of a guild: the recorded one, or a fresh one.
pub open spec fn session_of(sessions: Map<GuildId, SessionView>, guild_id: GuildId) -> SessionView {
    if sessions.contains_key(guild_id) {
        sessions[guild_id]
    } else {
        fresh_session(guild_id)
    }
}

/// Every session is recorded under its own guild.
pub open spec fn keyed(sessions: Map<GuildId, SessionView>) -> bool {
    forall|g: GuildId| #[trigger] sessions.contains_key(g) ==> sessions[g].guild_id == g
}

/// The track at the head of the queue.
pub open spec fn head_track(queue: Seq<QueueItemView>) -> Option<TrackView> {
    if queue.len() > 0 {
        Some(queue[0].track)
    } else {
        None
    }
}

/// The queue without its head.
pub open spec fn tail_queue(queue: Seq<QueueItemView>) -> Seq<QueueItemView> {
    if queue.len() > 0 {
        queue.skip(1)
    } else {
        queue
    }
}

/// The queue with the items put in at a position inside it, or else after it.
pub open spec fn queue_with(
    queue: Seq<QueueItemView>,
    items: Seq<QueueItemView>,
    position: Option<usize>,
) -> Seq<QueueItemView> {
    match position {
        Some(pos) if pos < queue.len() => queue.take(pos as int) + items + queue.skip(pos as int),
        _ => queue + items,
    }
}

/// The session after items were queued. With no items it stays as it was; with some, it is
/// no longer finished, and the head of the queue becomes the current track if there was none.
pub open spec fn enqueued(
    session: SessionView,
    items: Seq<QueueItemView>,
    position: Option<usize>,
) -> SessionView {
    if items.len() == 0 {
        session
    } else {
        let queue = queue_with(session.queue, items, position);
        SessionView {
            queue,
            current: if session.current is None {
                head_track(queue)
            } else {
                session.current
            },
            is_finished: false,
            ..session
        }
    }
}

/// What a control changes, before the finished mark is set anew.
pub open spec fn controlled(session: SessionView, action: ActionRequest) -> SessionView {
    match action {
        ActionRequest::Play => if session.current is Some {
            SessionView { paused: false, ..session }
        } else if session.queue.len() > 0 {
            SessionView {
                current: head_track(session.queue),
                position_ms: 0,
                paused: false,
                ..session
            }
        } else {
            session
        },
        ActionRequest::Pause => SessionView { paused: true, ..session },
        ActionRequest::Resume => SessionView { paused: false, ..session },
        ActionRequest::Skip => SessionView {
            queue: tail_queue(session.queue),
            current: head_track(tail_queue(session.queue)),
            position_ms: 0,
            ..session
        },
        ActionRequest::Stop => SessionView {
            queue: Seq::empty(),
            current: None,
            position_ms: 0,
            paused: false,
            ..session
        },
        ActionRequest::Clear => SessionView { queue: Seq::empty(), ..session },
        ActionRequest::SetVolume { volume } => SessionView {
            volume: if volume > MAX_VOLUME {
                MAX_VOLUME
            } else {
                volume
            },
            ..session
        },
    }
}

/// The session after a control. A stop finishes it, a clear does not; any other control
/// leaves it finished exactly when nothing plays and nothing is queued.
pub open spec fn acted(session: SessionView, action: ActionRequest) -> SessionView {
    let after = controlled(session, action);
    SessionView {
        is_finished: match action {
            ActionRequest::Stop => true,
            ActionRequest::Clear => false,
            _ => after.current is None && after.queue.len() == 0,
        },
        ..after
    }
}

/// The session after its track came to an end: the head of the queue leaves and the next
/// item plays. With nothing left the session is finished.
pub open spec fn advanced(session: SessionView) -> SessionView {
    let queue = tail_queue(session.queue);
    SessionView {
        queue,
        current: head_track(queue),
        is_finished: session.is_finished || queue.len() == 0,
        ..session
    }
}

/// The sum of two times, at most the greatest that can be held.
pub open spec fn saturated_sum(a: u64, b: u64) -> u64 {
    if a + b > u64::MAX {
        u64::MAX
    } else {
        (a + b) as u64
    }
}

/// The node's record of its guilds. The map is out of its place only while a session is being
/// recorded.
#[derive(Debug)]
pub struct AstralinkState {
    guilds: Option<DashMap<GuildId, GuildSessionState>>,
    node_id: String,
}

/// The track at the head of a queue.
fn first_track(queue: &Vec<QueueItem>) -> (r: Option<Track>)
    ensures
        r.deep_view() == head_track(queue.deep_view()),
{
    if queue.len() > 0 {
        assert(queue.deep_view()[0] == queue@[0]@);
        Some(queue[0].track.clone())
    } else {
        None
    }
}

/// Takes the head off a queue, if there is one.
fn drop_head(queue: &mut Vec<QueueItem>)
    ensures
        final(queue).deep_view() == tail_queue(old(queue).deep_view()),
{
    let ghost before = queue.deep_view();
    if queue.len() > 0 {
        queue.remove(0);
        assert(queue.deep_view() =~= before.skip(1));
    }
}

impl AstralinkState {
    /// Every session is recorded under its own guild.
    #[verifier::type_invariant]
    spec fn well_kept(self) -> bool {
        keyed(self.sessions())
    }

    /// The recorded sessions, by guild.
    pub closed spec fn sessions(&self) -> Map<GuildId, SessionView> {
        match self.guilds {
            Some(guilds) => guild_sessions(guilds),
            None => no_sessions(),
        }
    }

    /// The identifier of this node.
    pub closed spec fn own_id(&self) -> Seq<char> {
        self.node_id@
    }

    /// A record with no guilds.
    pub fn new(node_id: String) -> (r: Self)
        ensures
            r.sessions() == no_sessions(),
            r.own_id() == node_id@,
            keyed(r.sessions()),
    {
        AstralinkState { guilds: Some(new_sessions()), node_id }
    }

    /// The recorded session of the guild.
    fn find(&self, guild_id: GuildId) -> (r: Option<GuildSessionState>)
        ensures
            match r {
                Some(s) => self.sessions().contains_key(guild_id) && s@
                    == self.sessions()[guild_id] && s.guild_id == guild_id,
                None => !self.sessions().contains_key(guild_id),
            },
    {
        proof {
            use_type_invariant(self);
        }
        match &self.guilds {
            Some(guilds) => find_session(guilds, guild_id),
            None => None,
        }
    }

    /// Records the session under its own guild.
    fn record(&mut self, state: GuildSessionState)
        ensures
            final(self).sessions() == old(self).sessions().insert(state.guild_id, state@),
            final(self).own_id() == old(self).own_id(),
            keyed(final(self).sessions()),
    {
        proof {
            use_type_invariant(&*self);
        }
        let mut held: Option<DashMap<GuildId, GuildSessionState>> = None;
        std::mem::swap(&mut held, &mut self.guilds);
        let mut guilds = match held {
            Some(guilds) => guilds,
            None => new_sessions(),
        };
        put_session(&mut guilds, state.guild_id, state);
        self.guilds = Some(guilds);
    }

    /// The session of the guild; a fresh one is recorded first if there is none.
    pub fn get_or_init(&mut self, guild_id: GuildId) -> (r: GuildSessionState)
        ensures
            r@ == session_of(old(self).sessions(), guild_id),
            r.guild_id == guild_id,
            final(self).sessions() == old(self).sessions().insert(guild_id, r@),
            final(self).own_id() == old(self).own_id(),
            keyed(final(self).sessions()),
    {
        proof {
            use_type_invariant(&*self);
        }
        if let Some(state) = self.find(guild_id) {
            assert(self.sessions() =~= self.sessions().insert(guild_id, state@));
            return state;
        }
        let state = GuildSessionState {
            guild_id,
            queue: Vec::new(),
            current: None,
            paused: false,
            volume: DEFAULT_VOLUME,
            position_ms: 0,
            is_finished: false,
            node: None,
        };
        assert(state@ =~= fresh_session(guild_id));
        self.record(state.clone());
        state
    }

    /// Records the session under its own guild.
    pub fn set_state_async(&mut self, state: &GuildSessionState)
        ensures
            final(self).sessions() == old(self).sessions().insert(state.guild_id, state@),
            final(self).own_id() == old(self).own_id(),
            keyed(final(self).sessions()),
    {
        self.record(state.clone());
    }

    /// Notes which node serves the guild, if the guild is known.
    pub fn assign_node(&mut self, guild_id: GuildId, node: NodeInfo)
        ensures
            final(self).sessions() == (if old(self).sessions().contains_key(guild_id) {
                old(self).sessions().insert(
                    guild_id,
                    (SessionView { node: Some(node@), ..old(self).sessions()[guild_id] }),
                )
            } else {
                old(self).sessions()
            }),
            final(self).own_id() == old(self).own_id(),
            keyed(final(self).sessions()),
    {
        proof {
            use_type_invariant(&*self);
        }
        if let Some(mut state) = self.find(guild_id) {
            state.node = Some(node);
            self.record(state);
        }
    }

    /// Whether the guild is known and is served by this node.
    pub fn is_assigned_to_me(&self, guild_id: GuildId) -> (r: bool)
        ensures
            r == (self.sessions().contains_key(guild_id) && (
            self.sessions()[guild_id].node matches Some(n) && n.id == self.own_id())),
    {
        match self.find(guild_id) {
            Some(state) => match &state.node {
                Some(n) => same(n.id.as_str(), self.node_id.as_str()),
                None => false,
            },
            None => false,
        }
    }

    /// Forgets which node serves the guild, if the guild is known.
    pub fn unassign_node(&mut self, guild_id: GuildId)
        ensures
            final(self).sessions() == unassigned(old(self).sessions(), guild_id),
            final(self).own_id() == old(self).own_id(),
            keyed(final(self).sessions()),
    {
        proof {
            use_type_invariant(&*self);
        }
        if let Some(mut state) = self.find(guild_id) {
            state.node = None;
            self.record(state);
        }
    }

    /// Queues the items at the position, or after all others if it is not inside the queue.
    pub fn enqueue(
        &mut self,
        guild_id: GuildId,
        tracks: Vec<QueueItem>,
        position: Option<usize>,
    ) -> (r: GuildSessionState)
        ensures
            r@ == enqueued(
                session_of(old(self).sessions(), guild_id),
                tracks.deep_view(),
                position,
            ),
            final(self).sessions() == old(self).sessions().insert(guild_id, r@),
            final(self).own_id() == old(self).own_id(),
            keyed(final(self).sessions()),
    {
        let mut state = self.get_or_init(guild_id);
        let ghost before = state@;
        if tracks.len() == 0 {
            return state;
        }
        let at: usize = match position {
            Some(pos) if pos < state.queue.len() => pos,
            _ => state.queue.len(),
        };
        insert_items(&mut state.queue, tracks, at);
        proof {
            assert(queue_with(before.queue, tracks.deep_view(), position)
                =~= before.queue.take(at as int) + tracks.deep_view() + before.queue.skip(
                at as int,
            ));
        }
        if state.current.is_none() {
            state.current = first_track(&state.queue);
        }
        state.is_finished = false;
        self.record(state.clone());
        state
    }

    /// Applies a control and tells what the session is then.
    pub fn apply_action(&mut self, guild_id: GuildId, action: ActionRequest) -> (r: StateResponse)
        ensures
            final(self).sessions() == old(self).sessions().insert(
                guild_id,
                acted(session_of(old(self).sessions(), guild_id), action),
            ),
            r@ == acted(session_of(old(self).sessions(), guild_id), action).response(),
            final(self).own_id() == old(self).own_id(),
            keyed(final(self).sessions()),
    {
        let mut state = self.get_or_init(guild_id);
        match action {
            ActionRequest::Play => {
                if state.current.is_none() {
                    if state.queue.len() > 0 {
                        state.current = first_track(&state.queue);
                        state.position_ms = 0;
                        state.paused = false;
                    }
                } else {
                    state.paused = false;
                }
            },
            ActionRequest::Pause => {
                state.paused = true;
            },
            ActionRequest::Resume => {
                state.paused = false;
            },
            ActionRequest::Skip => {
                drop_head(&mut state.queue);
                state.current = first_track(&state.queue);
                state.position_ms = 0;
            },
            ActionRequest::Stop => {
                state.current = None;
                state.queue.clear();
                state.position_ms = 0;
                state.paused = false;
            },
            ActionRequest::Clear => {
                state.queue.clear();
            },
            ActionRequest::SetVolume { volume } => {
                state.volume = if volume > MAX_VOLUME {
                    MAX_VOLUME
                } else {
                    volume
                };
            },
        }
        state.is_finished = match action {
            ActionRequest::Stop => true,
            ActionRequest::Clear => false,
            _ => state.current.is_none() && state.queue.len() == 0,
        };
        assert(state@ =~= acted(session_of(old(self).sessions(), guild_id), action));
        self.record(state.clone());
        StateResponse::from(&state)
    }

    /// What a client is told of the guild's session; a fresh one is recorded first if there
    /// is none.
    pub fn as_response(&mut self, guild_id: GuildId) -> (r: StateResponse)
        ensures
            r@ == session_of(old(self).sessions(), guild_id).response(),
            final(self).sessions() == old(self).sessions().insert(
                guild_id,
                session_of(old(self).sessions(), guild_id),
            ),
            final(self).own_id() == old(self).own_id(),
            keyed(final(self).sessions()),
    {
        let state = self.get_or_init(guild_id);
        StateResponse::from(&state)
    }

    /// Moves the playing position on.
    pub fn increment_position_ms(&mut self, guild_id: GuildId, delta_ms: u64)
        ensures
            final(self).sessions() == old(self).sessions().insert(
                guild_id,
                moved_on(session_of(old(self).sessions(), guild_id), delta_ms),
            ),
            final(self).own_id() == old(self).own_id(),
            keyed(final(self).sessions()),
    {
        let mut state = self.get_or_init(guild_id);
        state.position_ms = state.position_ms.saturating_add(delta_ms);
        self.record(state);
    }

    /// The track that the guild plays.
    pub fn current_for(&mut self, guild_id: GuildId) -> (r: Option<Track>)
        ensures
            r.deep_view() == session_of(old(self).sessions(), guild_id).current,
            final(self).sessions() == old(self).sessions().insert(
                guild_id,
                session_of(old(self).sessions(), guild_id),
            ),
            final(self).own_id() == old(self).own_id(),
            keyed(final(self).sessions()),
    {
        let state = self.get_or_init(guild_id);
        state.current.clone()
    }

    /// Moves the guild on to the next item of its queue and gives the track that plays then.
    pub fn advance_after_track_end(&mut self, guild_id: GuildId) -> (r: Option<Track>)
        ensures
            r.deep_view() == advanced(session_of(old(self).sessions(), guild_id)).current,
            final(self).sessions() == old(self).sessions().insert(
                guild_id,
                advanced(session_of(old(self).sessions(), guild_id)),
            ),
            final(self).own_id() == old(self).own_id(),
            keyed(final(self).sessions()),
    {
        let mut state = self.get_or_init(guild_id);
        drop_head(&mut state.queue);
        state.current = first_track(&state.queue);
        if state.current.is_none() {
            state.is_finished = true;
        }
        assert(state@ =~= advanced(session_of(old(self).sessions(), guild_id)));
        self.record(state.clone());
        state.current.clone()
    }
}

/// The sessions after the guild's node is forgotten.
pub open spec fn unassigned(sessions: Map<GuildId, SessionView>, guild_id: GuildId) -> Map<
    GuildId,
    SessionView,
> {
    if sessions.contains_key(guild_id) {
        sessions.insert(guild_id, SessionView { node: None, ..sessions[guild_id] })
    } else {
        sessions
    }
}

/// The session with its playing position moved on.
pub open spec fn moved_on(session: SessionView, delta_ms: u64) -> SessionView {
    SessionView { position_ms: saturated_sum(session.position_ms, delta_ms), ..session }
}

/// Puts the items into the queue from position `at` on, in their order.
fn insert_items(queue: &mut Vec<QueueItem>, items: Vec<QueueItem>, at: usize)
    requires
        at <= old(queue)@.len(),
    ensures
        final(queue).deep_view() == old(queue).deep_view().take(at as int) + items.deep_view()
            + old(queue).deep_view().skip(at as int),
{
    let ghost before = queue.deep_view();
    let mut offset: usize = 0;
    while offset < items.len()
        invariant
            offset <= items@.len(),
            at <= before.len(),
            queue.len() == before.len() + offset,
            queue.deep_view() == before.take(at as int) + items.deep_view().take(offset as int)
                + before.skip(at as int),
        decreases items@.len() - offset,
    {
        let ghost mid = queue.deep_view();
        queue.insert(at + offset, items[offset].clone());
        assert(queue.deep_view() =~= mid.insert(at + offset, items.deep_view()[offset as int]));
        assert(queue.deep_view() =~= before.take(at as int) + items.deep_view().take(offset + 1)
            + before.skip(at as int));
        offset += 1;
    }
    assert(items.deep_view().take(items@.len() as int) =~= items.deep_view());
}

/// What was recorded last for a guild is what is read, and no other guild's session changes.
pub proof fn law_read_gives_what_was_written(
    sessions: Map<GuildId, SessionView>,
    guild_id: GuildId,
    session: SessionView,
    other: GuildId,
)
    ensures
        session_of(sessions.insert(guild_id, session), guild_id) == session,
        other != guild_id ==> session_of(sessions.insert(guild_id, session), other) == session_of(
            sessions,
            other,
        ),
{
}

/// Reading a session twice gives the same session and the same record.
pub proof fn law_reading_is_idempotent(sessions: Map<GuildId, SessionView>, guild_id: GuildId)
    ensures
        ({
            let once = sessions.insert(guild_id, session_of(sessions, guild_id));
            once.insert(guild_id, session_of(once, guild_id)) == once
        }),
{
    let once = sessions.insert(guild_id, session_of(sessions, guild_id));
    assert(once.insert(guild_id, session_of(once, guild_id)) =~= once);
}

/// Nothing that is done to a session changes whose it is or which node serves it.
pub proof fn law_guild_and_node_stay(
    session: SessionView,
    items: Seq<QueueItemView>,
    position: Option<usize>,
    action: ActionRequest,
    delta_ms: u64,
)
    ensures
        enqueued(session, items, position).guild_id == session.guild_id,
        acted(session, action).guild_id == session.guild_id,
        advanced(session).guild_id == session.guild_id,
        moved_on(session, delta_ms).guild_id == session.guild_id,
        enqueued(session, items, position).node == session.node,
        acted(session, action).node == session.node,
        advanced(session).node == session.node,
        moved_on(session, delta_ms).node == session.node,
{
}

/// The volume never goes over its greatest value: a new session's is under it, and nothing that
/// is done to a session takes it over.
pub proof fn law_volume_stays_bounded(
    guild_id: GuildId,
    session: SessionView,
    items: Seq<QueueItemView>,
    position: Option<usize>,
    action: ActionRequest,
    delta_ms: u64,
)
    requires
        session.volume <= MAX_VOLUME,
    ensures
        fresh_session(guild_id).volume <= MAX_VOLUME,
        enqueued(session, items, position).volume <= MAX_VOLUME,
        acted(session, action).volume <= MAX_VOLUME,
        advanced(session).volume <= MAX_VOLUME,
        moved_on(session, delta_ms).volume <= MAX_VOLUME,
{
}

/// A skip leaves the queue and the current track that the end of the track would leave.
pub proof fn law_skip_agrees_with_track_end(session: SessionView)
    ensures
        acted(session, ActionRequest::Skip).queue == advanced(session).queue,
        acted(session, ActionRequest::Skip).current == advanced(session).current,
{
}

/// A stop leaves nothing to play and a finished session, whatever came before; a second stop
/// changes nothing.
pub proof fn law_stop_is_final(session: SessionView)
    ensures
        ({
            let stopped = acted(session, ActionRequest::Stop);
            &&& stopped.current is None
            &&& stopped.queue.len() == 0
            &&& stopped.is_finished
            &&& !stopped.paused
            &&& acted(stopped, ActionRequest::Stop) == stopped
        }),
{
}

/// A resume undoes a pause.
pub proof fn law_resume_undoes_pause(session: SessionView)
    ensures
        acted(acted(session, ActionRequest::Pause), ActionRequest::Resume) == acted(
            session,
            ActionRequest::Resume,
        ),
        acted(session, ActionRequest::Pause).paused,
        !acted(session, ActionRequest::Resume).paused,
{
}

/// A clear empties the queue and lets the current track play on.
pub proof fn law_clear_keeps_the_current_track(session: SessionView)
    ensures
        acted(session, ActionRequest::Clear).queue.len() == 0,
        acted(session, ActionRequest::Clear).current == session.current,
        acted(session, ActionRequest::Clear).position_ms == session.position_ms,
        acted(session, ActionRequest::Clear).paused == session.paused,
{
}

/// Queueing loses nothing and keeps the order: the items stand together, in their order, and
/// what was queued stands around them, in its order. A track that plays plays on.
pub proof fn law_enqueue_keeps_order(
    session: SessionView,
    items: Seq<QueueItemView>,
    position: Option<usize>,
)
    requires
        items.len() > 0,
    ensures
        ({
            let after = enqueued(session, items, position);
            let at: int = match position {
                Some(pos) if pos < session.queue.len() => pos as int,
                _ => session.queue.len() as int,
            };
            &&& after.queue.len() == session.queue.len() + items.len()
            &&& after.queue.subrange(at, at + items.len()) == items
            &&& after.queue.take(at) + after.queue.skip(at + items.len()) == session.queue
            &&& after.current is Some
            &&& session.current is Some ==> after.current == session.current
            &&& !after.is_finished
        }),
{
    let after = enqueued(session, items, position);
    let at: int = match position {
        Some(pos) if pos < session.queue.len() => pos as int,
        _ => session.queue.len() as int,
    };
    assert(after.queue =~= session.queue.take(at) + items + session.queue.skip(at));
    assert(after.queue.subrange(at, at + items.len()) =~= items);
    assert(after.queue.take(at) + after.queue.skip(at + items.len()) =~= session.queue);
}

/// The session after its track has ended `n` times.
pub open spec fn advanced_times(session: SessionView, n: nat) -> SessionView
    decreases n,
{
    if n == 0 {
        session
    } else {
        advanced(advanced_times(session, (n - 1) as nat))
    }
}

/// Tracks play in the order in which they were queued: after `n` tracks have ended, track `n`
/// of the queue plays, and once all have ended nothing plays and the session is finished. It is
/// not finished before, if it was not at the start.
pub proof fn law_tracks_play_in_order(session: SessionView, n: nat)
    requires
        session.current == head_track(session.queue),
        0 < session.queue.len(),
        n <= session.queue.len(),
    ensures
        n < session.queue.len() ==> advanced_times(session, n).current == Some(
            session.queue[n as int].track,
        ),
        n == session.queue.len() ==> advanced_times(session, n).current is None && advanced_times(
            session,
            n,
        ).is_finished,
        n < session.queue.len() && !session.is_finished ==> !advanced_times(session, n).is_finished,
        advanced_times(session, n).queue == session.queue.skip(n as int),
    decreases n,
{
    if n == 0 {
        assert(session.queue.skip(0) =~= session.queue);
    } else {
        law_tracks_play_in_order(session, (n - 1) as nat);
        assert(session.queue.skip(n - 1).skip(1) =~= session.queue.skip(n as int));
    }
}

/// While something is queued, the head of the queue is what plays.
pub open spec fn head_plays(session: SessionView) -> bool {
    session.queue.len() > 0 ==> session.current == head_track(session.queue)
}

/// The head of the queue stays what plays under every control and at every track's end, and
/// when items are queued behind a queue's head, or where nothing plays.
pub proof fn law_head_of_queue_plays(
    session: SessionView,
    items: Seq<QueueItemView>,
    position: Option<usize>,
    action: ActionRequest,
)
    requires
        head_plays(session),
    ensures
        head_plays(acted(session, action)),
        head_plays(advanced(session)),
        session.current is None || (session.queue.len() > 0 && position != Some(0usize))
            ==> head_plays(enqueued(session, items, position)),
{
}

} // verus!
