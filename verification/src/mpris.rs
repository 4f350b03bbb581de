//! MPRIS v2 player selection. Every media player on the session bus
//! registers a bus name under `org.mpris.MediaPlayer2.`; the bus traffic
//! itself is done by the daemon, this module decides which names count.

use vstd::prelude::*;
use crate::text::{has_prefix, same_text, starts_with};

verus! {

/// One MPRIS player as seen on the session bus.
#[derive(Debug, Clone, PartialEq, Eq)]
pub struct PlayerState {
    /// The `org.mpris.MediaPlayer2.*` bus name.
    pub name: String,
    /// Whether `PlaybackStatus` read back as `Playing`.
    pub playing: bool,
}

/// The bus-name prefix shared by every controllable MPRIS player.
pub open spec fn mpris_prefix() -> Seq<char> {
    "org.mpris.MediaPlayer2."@
}

/// The characters of each string, in order.
pub open spec fn texts(v: Seq<String>) -> Seq<Seq<char>> {
    v.map_values(|s: String| s@)
}

/// The MPRIS player names among `names`, in the order listed.
pub open spec fn mpris_names(names: Seq<Seq<char>>) -> Seq<Seq<char>>
    decreases names.len(),
{
    if names.len() == 0 {
        Seq::empty()
    } else {
        let rest = mpris_names(names.drop_last());
        if starts_with(names.last(), mpris_prefix()) {
            rest.push(names.last())
        } else {
            rest
        }
    }
}

/// Does this bus name identify a controllable MPRIS player?
pub fn is_mpris_player(name: &str) -> (r: bool)
    ensures
        r == starts_with(name@, mpris_prefix()),
{
    has_prefix(name, "org.mpris.MediaPlayer2.")
}

/// Keep the bus names that belong to MPRIS players, in the order listed, so
/// that a sweep of the bus only spends its time budget on real players.
pub fn mpris_player_names(names: &[String]) -> (r: Vec<String>)
    ensures
        texts(r@) == mpris_names(texts(names@)),
{
    let mut out: Vec<String> = Vec::new();
    let mut i: usize = 0;
    while i < names.len()
        invariant
            i <= names@.len(),
            texts(out@) == mpris_names(texts(names@).take(i as int)),
        decreases names@.len() - i,
    {
        proof {
            assert(texts(names@).take(i + 1).drop_last() == texts(names@).take(i as int));
        }
        if is_mpris_player(names[i].as_str()) {
            out.push(names[i].clone());
            assert(texts(out@) == mpris_names(texts(names@).take(i as int)).push(names@[i as int]@));
        }
        i = i + 1;
    }
    assert(texts(names@).take(names@.len() as int) == texts(names@));
    out
}

/// The players kept from a bus listing are exactly the listed names that
/// begin with the MPRIS prefix, each in the place it had in the listing:
/// filtering the listing by the prefix gives the same sequence, so no listed
/// player is dropped (the last one included) and nothing else is kept.
pub proof fn lemma_player_names_are_the_prefixed_names(names: Seq<Seq<char>>)
    ensures
        mpris_names(names) == names.filter(|x: Seq<char>| starts_with(x, mpris_prefix())),
        forall|x: Seq<char>| #[trigger] mpris_names(names).contains(x) <==> (names.contains(x)
            && starts_with(x, mpris_prefix())),
        mpris_names(names).len() <= names.len(),
    decreases names.len(),
{
    reveal(Seq::filter);
    let pred = |x: Seq<char>| starts_with(x, mpris_prefix());
    if names.len() == 0 {
        assert(names.filter(pred) =~= mpris_names(names));
    } else {
        let init = names.drop_last();
        lemma_player_names_are_the_prefixed_names(init);
        let last = names.last();
        assert(names.filter(pred) == if pred(last) {
            init.filter(pred).push(last)
        } else {
            init.filter(pred)
        });
        assert forall|x: Seq<char>| #[trigger] mpris_names(names).contains(x) <==> (names.contains(x)
            && starts_with(x, mpris_prefix())) by {
            if names.contains(x) && x != last {
                let i = choose|i: int| 0 <= i < names.len() && names[i] == x;
                assert(init[i] == x);
            }
            if init.contains(x) {
                let i = choose|i: int| 0 <= i < init.len() && init[i] == x;
                assert(names[i] == x);
            }
            if starts_with(last, mpris_prefix()) {
                assert(mpris_names(names) == mpris_names(init).push(last));
                if mpris_names(init).contains(x) {
                    let j = choose|j: int| 0 <= j < mpris_names(init).len() && mpris_names(init)[j] == x;
                    assert(mpris_names(names)[j] == x);
                }
                if mpris_names(names).contains(x) && x != last {
                    let j = choose|j: int| 0 <= j < mpris_names(names).len() && mpris_names(names)[j] == x;
                    assert(mpris_names(init)[j] == x);
                }
                assert(mpris_names(names)[mpris_names(init).len() as int] == last);
            }
            assert(names[names.len() - 1] == last);
        }
    }
}

/// What happened to one player in a sweep over the bus.
#[derive(Debug, Clone, PartialEq, Eq)]
pub enum SweepEvent {
    /// The sweep's time budget ran out before this player.
    DeadlinePassed,
    /// No proxy could be made for the player.
    ProxyFailed,
    /// The player's method call or property read failed.
    CallFailed,
    /// `PlaybackStatus` read back as this value.
    Status(String),
    /// The player's method call (`Pause` or `Play`) succeeded.
    CallOk,
}

/// Whether a sweep goes on to the next player.
#[derive(Debug, Clone, Copy, PartialEq, Eq, Structural)]
pub enum SweepAction {
    /// Go on with the next player.
    Continue,
    /// End the sweep here.
    Stop,
}

/// A sweep stops exactly when its time budget has run out; no failure of a
/// single player ends it, and there is no bus-wide fallback.
pub open spec fn sweep_action(event: SweepEvent) -> SweepAction {
    if event == SweepEvent::DeadlinePassed {
        SweepAction::Stop
    } else {
        SweepAction::Continue
    }
}

/// One step of a snapshot sweep: the player `name` is recorded, playing if
/// its status reads `Playing`, only when its status could be read. A player
/// whose status cannot be read is skipped entirely, so it is never paused
/// and therefore never resumed.
pub fn record_status(seen: &mut Vec<PlayerState>, name: &str, event: SweepEvent) -> (r: SweepAction)
    ensures
        r == sweep_action(event),
        match event {
            SweepEvent::Status(s) => {
                &&& final(seen)@.len() == old(seen)@.len() + 1
                &&& final(seen)@.drop_last() == old(seen)@
                &&& final(seen)@.last().name@ == name@
                &&& final(seen)@.last().playing == (s@ == "Playing"@)
            },
            _ => final(seen)@ == old(seen)@,
        },
{
    match event {
        SweepEvent::DeadlinePassed => SweepAction::Stop,
        SweepEvent::Status(status) => {
            let playing = same_text(status.as_str(), "Playing");
            seen.push(PlayerState { name: name.to_owned(), playing });
            assert(final(seen)@.drop_last() =~= old(seen)@);
            SweepAction::Continue
        },
        _ => SweepAction::Continue,
    }
}

/// One step of a pause sweep: `name` is kept exactly when its `Pause` call
/// succeeded, so the sweep returns exactly the players that paused.
pub fn record_pause(paused: &mut Vec<String>, name: &str, event: SweepEvent) -> (r: SweepAction)
    ensures
        r == sweep_action(event),
        event == SweepEvent::CallOk ==> texts(final(paused)@) == texts(old(paused)@).push(name@),
        event != SweepEvent::CallOk ==> final(paused)@ == old(paused)@,
{
    match event {
        SweepEvent::DeadlinePassed => SweepAction::Stop,
        SweepEvent::CallOk => {
            paused.push(name.to_owned());
            assert(texts(final(paused)@) =~= texts(old(paused)@).push(name@));
            SweepAction::Continue
        },
        _ => SweepAction::Continue,
    }
}

/// One step of a resume sweep: a player that vanished or refused `Play` is
/// passed over; only the time budget ends the sweep.
pub fn resume_step(event: SweepEvent) -> (r: SweepAction)
    ensures
        r == sweep_action(event),
{
    match event {
        SweepEvent::DeadlinePassed => SweepAction::Stop,
        _ => SweepAction::Continue,
    }
}

/// Where a sweep over players with these events ends: at the first
/// deadline, or after the last player.
pub open spec fn sweep_end(events: Seq<SweepEvent>) -> int
    decreases events.len(),
{
    if events.len() == 0 || events[0] == SweepEvent::DeadlinePassed {
        0
    } else {
        1 + sweep_end(events.drop_first())
    }
}

/// The names of a pause sweep whose `Pause` call succeeded, in order,
/// where `events[i]` is what happened to `names[i]`.
pub open spec fn paused_in(names: Seq<Seq<char>>, events: Seq<SweepEvent>) -> Seq<Seq<char>>
    decreases names.len(),
{
    if names.len() == 0 || events.len() == 0 {
        Seq::empty()
    } else {
        let before = paused_in(names.drop_last(), events.drop_last());
        if events.last() == SweepEvent::CallOk {
            before.push(names.last())
        } else {
            before
        }
    }
}

/// The players a status sweep records, as (name, playing) pairs, in order.
pub open spec fn seen_in(names: Seq<Seq<char>>, events: Seq<SweepEvent>) -> Seq<(Seq<char>, bool)>
    decreases names.len(),
{
    if names.len() == 0 || events.len() == 0 {
        Seq::empty()
    } else {
        let before = seen_in(names.drop_last(), events.drop_last());
        match events.last() {
            SweepEvent::Status(s) => before.push((names.last(), s@ == "Playing"@)),
            _ => before,
        }
    }
}

/// A sweep goes on past every player before [`sweep_end`] and stops at it:
/// the step functions' actions end the loop exactly there.
pub proof fn lemma_sweep_ends_at_first_deadline(events: Seq<SweepEvent>)
    ensures
        0 <= sweep_end(events) <= events.len(),
        forall|i: int| 0 <= i < sweep_end(events) ==> sweep_action(#[trigger] events[i])
            == SweepAction::Continue,
        sweep_end(events) < events.len() ==> sweep_action(events[sweep_end(events)])
            == SweepAction::Stop,
    decreases events.len(),
{
    if events.len() > 0 && events[0] != SweepEvent::DeadlinePassed {
        lemma_sweep_ends_at_first_deadline(events.drop_first());
        assert forall|i: int| 0 <= i < sweep_end(events) implies sweep_action(#[trigger] events[i])
            == SweepAction::Continue by {
            if i > 0 {
                assert(events[i] == events.drop_first()[i - 1]);
            }
        }
    }
}

/// Repeating [`record_pause`] over a list builds [`paused_in`]: each step
/// adds the player's name exactly when its call succeeded.
pub proof fn lemma_pause_step_extends(names: Seq<Seq<char>>, events: Seq<SweepEvent>, n: int)
    requires
        0 <= n < names.len(),
        names.len() == events.len(),
    ensures
        paused_in(names.take(n + 1), events.take(n + 1)) == if events[n] == SweepEvent::CallOk {
            paused_in(names.take(n), events.take(n)).push(names[n])
        } else {
            paused_in(names.take(n), events.take(n))
        },
{
    assert(names.take(n + 1).drop_last() == names.take(n));
    assert(events.take(n + 1).drop_last() == events.take(n));
}

/// A pause sweep keeps exactly the players whose `Pause` call succeeded:
/// every kept name is the name of such a player, and every such player's
/// name is kept. Nothing outside the list is ever paused.
pub proof fn lemma_pause_sweep_keeps_succeeded(names: Seq<Seq<char>>, events: Seq<SweepEvent>)
    requires
        names.len() == events.len(),
    ensures
        forall|x: Seq<char>| #[trigger] paused_in(names, events).contains(x) <==> exists|i: int|
            0 <= i < names.len() && events[i] == SweepEvent::CallOk && names[i] == x,
        paused_in(names, events).len() <= names.len(),
    decreases names.len(),
{
    if names.len() > 0 {
        let ns = names.drop_last();
        let es = events.drop_last();
        lemma_pause_sweep_keeps_succeeded(ns, es);
        let before = paused_in(ns, es);
        let last = names.len() - 1;
        assert forall|x: Seq<char>| #[trigger] paused_in(names, events).contains(x) <==> exists|i: int|
            0 <= i < names.len() && events[i] == SweepEvent::CallOk && names[i] == x by {
            if exists|i: int| 0 <= i < names.len() && events[i] == SweepEvent::CallOk && names[i] == x {
                let i = choose|i: int| 0 <= i < names.len() && events[i] == SweepEvent::CallOk && names[i] == x;
                if i < last {
                    assert(ns[i] == names[i] && es[i] == events[i]);
                    assert(before.contains(x));
                    let k = choose|k: int| 0 <= k < before.len() && before[k] == x;
                    if events.last() == SweepEvent::CallOk {
                        assert(before.push(names.last())[k] == x);
                    }
                } else {
                    assert(before.push(names.last()).last() == x);
                }
            }
            if paused_in(names, events).contains(x) {
                let k = choose|k: int| 0 <= k < paused_in(names, events).len() && paused_in(names, events)[k] == x;
                if events.last() == SweepEvent::CallOk && k == before.len() {
                    assert(names[last] == names.last() && events[last] == events.last());
                } else {
                    if events.last() == SweepEvent::CallOk {
                        assert(before.push(names.last())[k] == before[k]);
                    }
                    assert(before.contains(x));
                    let i = choose|i: int| 0 <= i < ns.len() && es[i] == SweepEvent::CallOk && ns[i] == x;
                    assert(names[i] == ns[i] && events[i] == es[i]);
                }
            }
        }
    }
}

/// The recorded entry is the player `name`, whose status read back in
/// `event`, playing exactly when that status is `Playing`.
pub open spec fn recorded_as(name: Seq<char>, event: SweepEvent, entry: (Seq<char>, bool)) -> bool {
    match event {
        SweepEvent::Status(s) => entry.0 == name && entry.1 == (s@ == "Playing"@),
        _ => false,
    }
}

/// Some player of the sweep, whose status read back, is recorded as `entry`.
pub open spec fn entry_from_status(names: Seq<Seq<char>>, events: Seq<SweepEvent>, entry: (Seq<char>, bool)) -> bool {
    exists|i: int| 0 <= i < names.len() && #[trigger] recorded_as(names[i], events[i], entry)
}

/// A status sweep records only players whose status could be read, each
/// under its own name and playing exactly when the status reads `Playing`:
/// a player whose status cannot be read is never recorded, so never paused.
pub proof fn lemma_status_sweep_records_readable(names: Seq<Seq<char>>, events: Seq<SweepEvent>)
    requires
        names.len() == events.len(),
    ensures
        forall|k: int| 0 <= k < seen_in(names, events).len() ==> #[trigger] entry_from_status(
            names,
            events,
            seen_in(names, events)[k],
        ),
{
    assert forall|k: int| 0 <= k < seen_in(names, events).len() implies #[trigger] entry_from_status(
        names,
        events,
        seen_in(names, events)[k],
    ) by {
        let i = lemma_status_entry(names, events, k);
        assert(recorded_as(names[i], events[i], seen_in(names, events)[k]));
    }
}

/// The player behind entry `k` of a status sweep.
proof fn lemma_status_entry(names: Seq<Seq<char>>, events: Seq<SweepEvent>, k: int) -> (i: int)
    requires
        names.len() == events.len(),
        0 <= k < seen_in(names, events).len(),
    ensures
        0 <= i < names.len(),
        recorded_as(names[i], events[i], seen_in(names, events)[k]),
    decreases names.len(),
{
    let ns = names.drop_last();
    let es = events.drop_last();
    let before = seen_in(ns, es);
    let last = names.len() - 1;
    assert(events[last] == events.last());
    assert(names[last] == names.last());
    if k < before.len() {
        assert(seen_in(names, events)[k] == before[k]);
        let i = lemma_status_entry(ns, es, k);
        assert(names[i] == ns[i] && events[i] == es[i]);
        i
    } else {
        last
    }
}

/// A resume sweep sends `Play` to the listed players before [`sweep_end`],
/// in order, and to no other bus name: when the list holds each name once,
/// so do the players it reaches.
pub proof fn lemma_resume_reaches_each_once(names: Seq<Seq<char>>, events: Seq<SweepEvent>)
    requires
        names.no_duplicates(),
        names.len() == events.len(),
    ensures
        names.take(sweep_end(events)).no_duplicates(),
        forall|i: int| 0 <= i < sweep_end(events) ==> names.contains(#[trigger] names.take(sweep_end(events))[i]),
{
    lemma_sweep_ends_at_first_deadline(events);
    let t = names.take(sweep_end(events));
    assert forall|i: int| 0 <= i < sweep_end(events) implies names.contains(#[trigger] t[i]) by {
        assert(t[i] == names[i]);
    }
    assert forall|i: int, j: int| 0 <= i < t.len() && 0 <= j < t.len() && i != j implies t[i] != t[j] by {
        assert(t[i] == names[i] && t[j] == names[j]);
    }
}

} // verus!
