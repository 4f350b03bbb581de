//! Hooks fired when a recording session starts or stops, and the
//! bookkeeping that makes a recording stop resume exactly the media players
//! that the matching start paused.

use vstd::prelude::*;
use crate::mpris::{PlayerState, texts};
use crate::state::State;
use crate::text::{opt_chars, trim, trim_str};

verus! {

/// Which hook set fires for a state change.
#[derive(Debug, Clone, Copy, PartialEq, Eq, Structural)]
pub enum HookEvent {
    /// A recording session began.
    RecordStart,
    /// A recording session ended.
    RecordStop,
}

/// The hook that a change from `prev` to `new` fires.
pub open spec fn event_for(prev: State, new: State) -> Option<HookEvent> {
    if new == State::Recording && prev != State::Recording {
        Some(HookEvent::RecordStart)
    } else if prev == State::Recording && new != State::Recording {
        Some(HookEvent::RecordStop)
    } else {
        None
    }
}

/// Map a state change to the hook that fires; `None` for no-op transitions.
///
/// `RecordStop` fires at the first non-`Recording` state. For dictation that
/// is `Transcribing`; for command mode it is `Idle`.
pub fn hook_event_for(prev: State, new: State) -> (r: Option<HookEvent>)
    ensures
        r == event_for(prev, new),
{
    match (prev, new) {
        (prev, State::Recording) if prev != State::Recording => Some(HookEvent::RecordStart),
        (State::Recording, new) if new != State::Recording => Some(HookEvent::RecordStop),
        _ => None,
    }
}

/// The MPRIS work one hook event implies. Either list may be empty; an empty
/// list means "issue no D-Bus calls", not "sweep the bus".
#[derive(Debug, Clone, PartialEq, Eq)]
pub struct MediaPlan {
    /// Bus names to pause, in the order they were seen.
    pub pause: Vec<String>,
    /// Bus names to resume. Never contains a player this daemon did not
    /// pause itself.
    pub resume: Vec<String>,
}

/// The names of the players in `players` that are playing, in order.
pub open spec fn playing_names(players: Seq<PlayerState>) -> Seq<Seq<char>>
    decreases players.len(),
{
    if players.len() == 0 {
        Seq::empty()
    } else {
        let rest = playing_names(players.drop_last());
        if players.last().playing {
            rest.push(players.last().name@)
        } else {
            rest
        }
    }
}

/// `held` after the names in `paused` are recorded one by one, each added at
/// the end unless it is already held.
pub open spec fn absorb(held: Seq<Seq<char>>, paused: Seq<Seq<char>>) -> Seq<Seq<char>>
    decreases paused.len(),
{
    if paused.len() == 0 {
        held
    } else {
        let before = absorb(held, paused.drop_last());
        if before.contains(paused.last()) {
            before
        } else {
            before.push(paused.last())
        }
    }
}

/// One operation on a [`MediaPauseTracker`].
pub enum TrackerOp {
    /// `plan` for this event.
    Plan(HookEvent),
    /// `confirm_paused` with these names.
    Confirm(Seq<Seq<char>>),
}

/// What a tracker holds after one operation, given what it held before.
pub open spec fn tracker_step(held: Seq<Seq<char>>, op: TrackerOp) -> Seq<Seq<char>> {
    match op {
        TrackerOp::Plan(HookEvent::RecordStart) => held,
        TrackerOp::Plan(HookEvent::RecordStop) => Seq::empty(),
        TrackerOp::Confirm(paused) => absorb(held, paused),
    }
}

/// What a new tracker holds after the operations `ops`, in order.
pub open spec fn held_after(ops: Seq<TrackerOp>) -> Seq<Seq<char>>
    decreases ops.len(),
{
    if ops.len() == 0 {
        Seq::empty()
    } else {
        tracker_step(held_after(ops.drop_last()), ops.last())
    }
}

/// Every name confirmed as paused since the last stop plan (or since the
/// start, if there was none), in order.
pub open spec fn confirmed_since_stop(ops: Seq<TrackerOp>) -> Seq<Seq<char>>
    decreases ops.len(),
{
    if ops.len() == 0 {
        Seq::empty()
    } else {
        match ops.last() {
            TrackerOp::Plan(HookEvent::RecordStop) => Seq::empty(),
            TrackerOp::Plan(HookEvent::RecordStart) => confirmed_since_stop(ops.drop_last()),
            TrackerOp::Confirm(paused) => confirmed_since_stop(ops.drop_last()) + paused,
        }
    }
}

/// Remembers which MPRIS players *this daemon* paused, so a recording stop
/// resumes exactly those. A tab the user paused before dictating is never in
/// the set, so it is never started for them.
#[derive(Debug)]
pub struct MediaPauseTracker {
    paused: Vec<String>,
}

impl View for MediaPauseTracker {
    type V = Seq<Seq<char>>;

    /// The held player names, in the order they were paused.
    closed spec fn view(&self) -> Seq<Seq<char>> {
        texts(self.paused@)
    }
}

impl MediaPauseTracker {
    #[verifier::type_invariant]
    closed spec fn held_once(self) -> bool {
        texts(self.paused@).no_duplicates()
    }

    /// A tracker holding nothing.
    pub fn new() -> (r: Self)
        ensures
            r@ == Seq::<Seq<char>>::empty(),
    {
        let r = MediaPauseTracker { paused: Vec::new() };
        assert(r@ =~= Seq::<Seq<char>>::empty());
        r
    }

    /// Plan the MPRIS work for `event`.
    ///
    /// `players` is the session-bus snapshot taken at a recording start; it is
    /// unused for a stop, where the plan is exactly the set this tracker is
    /// still holding, which it then forgets. Planning a pause does not record
    /// it: the caller reports back what actually paused via `confirm_paused`.
    pub fn plan(&mut self, event: HookEvent, players: &[PlayerState]) -> (r: MediaPlan)
        ensures
            final(self)@ == tracker_step(old(self)@, TrackerOp::Plan(event)),
            event == HookEvent::RecordStart ==> {
                &&& texts(r.pause@) == playing_names(players@)
                &&& r.resume@.len() == 0
                &&& final(self)@ == old(self)@
            },
            event == HookEvent::RecordStop ==> {
                &&& r.pause@.len() == 0
                &&& texts(r.resume@) == old(self)@
                &&& texts(r.resume@).no_duplicates()
                &&& final(self)@ == Seq::<Seq<char>>::empty()
            },
    {
        proof {
            use_type_invariant(&*self);
        }
        match event {
            // A start with no intervening stop is reachable: the state watch
            // channel coalesces. Keep holding the earlier batch.
            HookEvent::RecordStart => MediaPlan { pause: playing_player_names(players), resume: Vec::new() },
            HookEvent::RecordStop => {
                let mut taken: Vec<String> = Vec::new();
                std::mem::swap(&mut taken, &mut self.paused);
                assert(texts(self.paused@) =~= Seq::<Seq<char>>::empty());
                MediaPlan { pause: Vec::new(), resume: taken }
            },
        }
    }

    /// Record the players that actually paused, adding to anything still held
    /// from an earlier start. A player that failed to pause is simply absent,
    /// so it is never resumed; one already held is not recorded twice.
    pub fn confirm_paused(&mut self, paused: &[String])
        ensures
            final(self)@ == absorb(old(self)@, texts(paused@)),
            final(self)@ == tracker_step(old(self)@, TrackerOp::Confirm(texts(paused@))),
    {
        proof {
            use_type_invariant(&*self);
        }
        let mut held: Vec<String> = Vec::new();
        std::mem::swap(&mut held, &mut self.paused);
        assert(texts(self.paused@) =~= Seq::<Seq<char>>::empty());
        let ghost start = texts(held@);
        let mut i: usize = 0;
        while i < paused.len()
            invariant
                i <= paused@.len(),
                texts(held@) == absorb(start, texts(paused@).take(i as int)),
                texts(held@).no_duplicates(),
            decreases paused@.len() - i,
        {
            proof {
                assert(texts(paused@).take(i + 1).drop_last() == texts(paused@).take(i as int));
            }
            let mut found = false;
            let mut k: usize = 0;
            while k < held.len()
                invariant
                    k <= held@.len(),
                    i < paused@.len(),
                    found == (exists|j: int| 0 <= j < k && held@[j]@ == paused@[i as int]@),
                decreases held@.len() - k,
            {
                if held[k] == paused[i] {
                    found = true;
                }
                k = k + 1;
            }
            proof {
                if found {
                    let j = choose|j: int| 0 <= j < k && held@[j]@ == paused@[i as int]@;
                    assert(texts(held@)[j] == paused@[i as int]@);
                } else {
                    assert forall|j: int| 0 <= j < texts(held@).len() implies texts(held@)[j]
                        != paused@[i as int]@ by {
                        assert(held@[j]@ == texts(held@)[j]);
                    }
                }
            }
            if !found {
                held.push(paused[i].clone());
                assert(texts(held@) =~= absorb(start, texts(paused@).take(i as int)).push(
                    paused@[i as int]@,
                ));
            }
            i = i + 1;
        }
        assert(texts(paused@).take(paused@.len() as int) == texts(paused@));
        self.paused = held;
    }

    /// The players currently held paused, in the order they were paused;
    /// none is held twice.
    pub fn held(&self) -> (r: &[String])
        ensures
            texts(r@) == self@,
            self@.no_duplicates(),
    {
        proof {
            use_type_invariant(self);
        }
        self.paused.as_slice()
    }
}

impl Default for MediaPlan {
    /// A plan with nothing to pause and nothing to resume.
    fn default() -> (r: Self)
        ensures
            r.pause@.len() == 0,
            r.resume@.len() == 0,
    {
        MediaPlan { pause: Vec::new(), resume: Vec::new() }
    }
}

impl Default for MediaPauseTracker {
    /// A tracker holding nothing.
    fn default() -> (r: Self)
        ensures
            r@ == Seq::<Seq<char>>::empty(),
    {
        MediaPauseTracker::new()
    }
}

/// The names of the playing players, in snapshot order.
fn playing_player_names(players: &[PlayerState]) -> (r: Vec<String>)
    ensures
        texts(r@) == playing_names(players@),
{
    let mut out: Vec<String> = Vec::new();
    let mut i: usize = 0;
    while i < players.len()
        invariant
            i <= players@.len(),
            texts(out@) == playing_names(players@.take(i as int)),
        decreases players@.len() - i,
    {
        proof {
            assert(players@.take(i + 1).drop_last() == players@.take(i as int));
        }
        if players[i].playing {
            out.push(players[i].name.clone());
            assert(texts(out@) =~= playing_names(players@.take(i as int)).push(
                players@[i as int].name@,
            ));
        }
        i = i + 1;
    }
    assert(players@.take(players@.len() as int) == players@);
    out
}

/// The `[hooks]` section of the configuration.
#[derive(Debug, Clone)]
pub struct HooksConfig {
    /// Pause playing MPRIS media while recording.
    pub media_auto_pause: bool,
    /// Shell command run when a recording starts.
    pub on_record_start: Option<String>,
    /// Shell command run when a recording stops.
    pub on_record_stop: Option<String>,
}

/// What the hook dispatcher does for one state change.
#[derive(Debug, Clone)]
pub struct HookActions {
    /// The hook that fires, if any.
    pub event: Option<HookEvent>,
    /// Whether to do the MPRIS pause (on a start) or resume (on a stop).
    pub media: bool,
    /// The shell command to hand to `sh -c`, if one is configured.
    pub command: Option<String>,
}

/// Decide what one state broadcast triggers: which hook fires, whether the
/// media players are paused or resumed, and which configured command runs.
pub fn hook_actions(config: &HooksConfig, prev: State, new: State) -> (r: HookActions)
    ensures
        r.event == event_for(prev, new),
        r.media == (r.event is Some && config.media_auto_pause),
        opt_chars(r.command) == match r.event {
            Some(HookEvent::RecordStart) => opt_chars(config.on_record_start),
            Some(HookEvent::RecordStop) => opt_chars(config.on_record_stop),
            None => None,
        },
{
    let event = hook_event_for(prev, new);
    match event {
        Some(HookEvent::RecordStart) => HookActions {
            event,
            media: config.media_auto_pause,
            command: config.on_record_start.clone(),
        },
        Some(HookEvent::RecordStop) => HookActions {
            event,
            media: config.media_auto_pause,
            command: config.on_record_stop.clone(),
        },
        None => HookActions { event, media: false, command: None },
    }
}

/// Whether a hook command is worth spawning: one that is empty or only white
/// space is skipped.
pub fn is_runnable_hook(cmd: &str) -> (r: bool)
    ensures
        r == (trim(cmd@).len() > 0),
{
    !trim_str(cmd).is_empty()
}

/// A name is held after a confirmation exactly when it was held before or is
/// one of the names confirmed: nothing the daemon did not pause is ever held,
/// and so ever resumed, and a pause that failed (absent from the
/// confirmation) is not resumed.
pub proof fn lemma_confirm_holds_exactly(held: Seq<Seq<char>>, paused: Seq<Seq<char>>)
    ensures
        forall|x: Seq<char>| #[trigger] absorb(held, paused).contains(x)
            <==> (held.contains(x) || paused.contains(x)),
    decreases paused.len(),
{
    if paused.len() > 0 {
        lemma_confirm_holds_exactly(held, paused.drop_last());
        let before = absorb(held, paused.drop_last());
        assert forall|x: Seq<char>| #[trigger] absorb(held, paused).contains(x)
            <==> (held.contains(x) || paused.contains(x)) by {
            if paused.contains(x) && !paused.drop_last().contains(x) {
                let i = choose|i: int| 0 <= i < paused.len() && paused[i] == x;
                if i < paused.len() - 1 {
                    assert(paused.drop_last()[i] == x);
                }
            }
            if paused.drop_last().contains(x) {
                let i = choose|i: int| 0 <= i < paused.drop_last().len() && paused.drop_last()[i] == x;
                assert(paused[i] == x);
            }
            if !before.contains(paused.last()) {
                assert(before.push(paused.last()).last() == paused.last());
                if before.push(paused.last()).contains(x) && x != paused.last() {
                    let i = choose|i: int| 0 <= i < before.push(paused.last()).len() && before.push(paused.last())[i] == x;
                    assert(before[i] == x);
                }
                if before.contains(x) {
                    let i = choose|i: int| 0 <= i < before.len() && before[i] == x;
                    assert(before.push(paused.last())[i] == x);
                }
            }
            assert(paused[paused.len() - 1] == paused.last());
        }
    }
}

/// Over any history of a tracker made by `new`, what it holds, and so what
/// a stop plan resumes, is exactly the set of names confirmed as paused since
/// the previous stop, each held once: never a name that was only planned for
/// pause or only seen on the bus, and never a batch an earlier stop resumed.
pub proof fn lemma_held_is_confirmed_since_last_stop(ops: Seq<TrackerOp>)
    ensures
        held_after(ops).no_duplicates(),
        forall|x: Seq<char>| #[trigger] held_after(ops).contains(x)
            <==> confirmed_since_stop(ops).contains(x),
    decreases ops.len(),
{
    if ops.len() > 0 {
        let before = ops.drop_last();
        lemma_held_is_confirmed_since_last_stop(before);
        match ops.last() {
            TrackerOp::Plan(HookEvent::RecordStart) => {},
            TrackerOp::Plan(HookEvent::RecordStop) => {
                assert(Seq::<Seq<char>>::empty().no_duplicates());
            },
            TrackerOp::Confirm(paused) => {
                let h = held_after(before);
                let c = confirmed_since_stop(before);
                lemma_confirm_holds_each_once(h, paused);
                lemma_confirm_holds_exactly(h, paused);
                assert forall|x: Seq<char>| #[trigger] held_after(ops).contains(x)
                    <==> confirmed_since_stop(ops).contains(x) by {
                    assert(h.contains(x) <==> c.contains(x));
                    if (c + paused).contains(x) {
                        let k = choose|k: int| 0 <= k < (c + paused).len() && (c + paused)[k] == x;
                        if k < c.len() {
                            assert(c[k] == x);
                        } else {
                            assert(paused[k - c.len()] == x);
                        }
                    }
                    if c.contains(x) {
                        let k = choose|k: int| 0 <= k < c.len() && c[k] == x;
                        assert((c + paused)[k] == x);
                    }
                    if paused.contains(x) {
                        let k = choose|k: int| 0 <= k < paused.len() && paused[k] == x;
                        assert((c + paused)[c.len() + k] == x);
                    }
                }
            },
        }
    }
}

/// Confirming more pauses keeps the earlier batch held, first and in its
/// order of pausing: a second start without a stop strands nothing.
pub proof fn lemma_confirm_keeps_earlier_batch(held: Seq<Seq<char>>, paused: Seq<Seq<char>>)
    ensures
        absorb(held, paused).len() >= held.len(),
        absorb(held, paused).subrange(0, held.len() as int) == held,
    decreases paused.len(),
{
    if paused.len() > 0 {
        lemma_confirm_keeps_earlier_batch(held, paused.drop_last());
        let before = absorb(held, paused.drop_last());
        assert(before.push(paused.last()).subrange(0, held.len() as int) == before.subrange(0, held.len() as int));
    }
}

/// The tracker never holds a player twice, however often it is confirmed:
/// a player still playing at a second start is paused once and resumed once.
pub proof fn lemma_confirm_holds_each_once(held: Seq<Seq<char>>, paused: Seq<Seq<char>>)
    requires
        held.no_duplicates(),
    ensures
        absorb(held, paused).no_duplicates(),
    decreases paused.len(),
{
    if paused.len() > 0 {
        lemma_confirm_holds_each_once(held, paused.drop_last());
        let before = absorb(held, paused.drop_last());
        if !before.contains(paused.last()) {
            let after = before.push(paused.last());
            assert forall|i: int, j: int| 0 <= i < j < after.len() implies after[i] != after[j] by {
                if j == after.len() - 1 {
                    assert(after[i] == before[i]);
                }
            }
        }
    }
}

/// Confirming the same names twice holds the same players as confirming them
/// once.
pub proof fn lemma_confirm_twice_is_once(held: Seq<Seq<char>>, paused: Seq<Seq<char>>)
    ensures
        absorb(absorb(held, paused), paused) == absorb(held, paused),
{
    lemma_confirm_holds_exactly(held, paused);
    lemma_absorb_held_names(absorb(held, paused), paused);
}

/// Absorbing names that are all held already changes nothing.
proof fn lemma_absorb_held_names(held: Seq<Seq<char>>, paused: Seq<Seq<char>>)
    requires
        forall|i: int| 0 <= i < paused.len() ==> held.contains(#[trigger] paused[i]),
    ensures
        absorb(held, paused) == held,
    decreases paused.len(),
{
    if paused.len() > 0 {
        assert forall|i: int| 0 <= i < paused.drop_last().len() implies held.contains(
            #[trigger] paused.drop_last()[i],
        ) by {
            assert(paused.drop_last()[i] == paused[i]);
        }
        lemma_absorb_held_names(held, paused.drop_last());
        assert(held.contains(paused[paused.len() - 1]));
    }
}

/// A pause plan names exactly the players of the snapshot that are playing:
/// a player the user had already paused is never touched.
pub proof fn lemma_pause_plan_is_playing_players(players: Seq<PlayerState>)
    ensures
        forall|x: Seq<char>| #[trigger] playing_names(players).contains(x) <==> exists|i: int|
            0 <= i < players.len() && players[i].playing && players[i].name@ == x,
    decreases players.len(),
{
    if players.len() > 0 {
        let rest = players.drop_last();
        lemma_pause_plan_is_playing_players(rest);
        assert forall|x: Seq<char>| #[trigger] playing_names(players).contains(x) <==> exists|i: int|
            0 <= i < players.len() && players[i].playing && players[i].name@ == x by {
            let before = playing_names(rest);
            if exists|i: int| 0 <= i < players.len() && players[i].playing && players[i].name@ == x {
                let i = choose|i: int| 0 <= i < players.len() && players[i].playing && players[i].name@ == x;
                if i < players.len() - 1 {
                    assert(rest[i] == players[i]);
                    assert(before.contains(x));
                    if players.last().playing {
                        let k = choose|k: int| 0 <= k < before.len() && before[k] == x;
                        assert(before.push(players.last().name@)[k] == x);
                    }
                } else {
                    assert(before.push(players.last().name@).last() == x);
                }
            }
            if playing_names(players).contains(x) {
                let k = choose|k: int| 0 <= k < playing_names(players).len() && playing_names(players)[k] == x;
                if players.last().playing && k == before.len() {
                    assert(players[players.len() - 1] == players.last());
                } else {
                    if players.last().playing {
                        assert(before.push(players.last().name@)[k] == before[k]);
                    }
                    assert(before[k] == x);
                    assert(before.contains(x));
                    let i = choose|i: int| 0 <= i < rest.len() && rest[i].playing && rest[i].name@ == x;
                    assert(players[i] == rest[i]);
                }
            }
        }
    }
}

/// Starting from an empty tracker, confirming a start's pause plan and then
/// stopping resumes exactly the names of that plan, in order, whenever the
/// snapshot lists each player once.
pub proof fn lemma_stop_resumes_what_start_paused(players: Seq<PlayerState>)
    requires
        playing_names(players).no_duplicates(),
    ensures
        absorb(Seq::empty(), playing_names(players)) == playing_names(players),
{
    lemma_absorb_distinct_into_empty(playing_names(players));
}

/// Absorbing distinct names into an empty tracker holds them in order.
proof fn lemma_absorb_distinct_into_empty(names: Seq<Seq<char>>)
    requires
        names.no_duplicates(),
    ensures
        absorb(Seq::empty(), names) == names,
    decreases names.len(),
{
    if names.len() > 0 {
        let rest = names.drop_last();
        assert(rest.no_duplicates()) by {
            assert forall|i: int, j: int| 0 <= i < rest.len() && 0 <= j < rest.len() && i != j implies rest[i] != rest[j] by {
                assert(rest[i] == names[i] && rest[j] == names[j]);
            }
        }
        lemma_absorb_distinct_into_empty(rest);
        if rest.contains(names.last()) {
            let k = choose|k: int| 0 <= k < rest.len() && rest[k] == names.last();
            assert(names[k] == names[names.len() - 1]);
        }
        assert(rest.push(names.last()) == names);
    }
}

} // verus!
