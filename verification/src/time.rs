//! The observers of the time service: who wants to hear of which change,
//! and what a change is broadcast as.

use vstd::prelude::*;
use vstd::string::*;

verus! {

/// Identifies one registration of an observer.
pub type DispatcherId = u32;

/// What changed.
#[derive(Clone, Copy, Debug, PartialEq, Eq, Structural)]
pub enum CallbackReason {
    /// No change at all.
    Unset,
    TimeChanged,
    TimezoneChanged,
}

/// What an observer is told.
#[derive(Debug, PartialEq, Eq)]
pub struct TimeInfo {
    pub reason: CallbackReason,
    pub timezone: String,
    pub delta: i64,
}

/// Mathematical value of a [`TimeInfo`].
pub struct TimeInfoView {
    pub reason: CallbackReason,
    pub timezone: Seq<char>,
    pub delta: i64,
}

impl View for TimeInfo {
    type V = TimeInfoView;

    open spec fn view(&self) -> TimeInfoView {
        TimeInfoView { reason: self.reason, timezone: self.timezone@, delta: self.delta }
    }
}

impl Clone for TimeInfo {
    fn clone(&self) -> (copy: Self)
        ensures
            copy@ == self@,
    {
        TimeInfo { reason: self.reason, timezone: self.timezone.clone(), delta: self.delta }
    }
}

/// The event that is broadcast to every session after a change.
#[derive(Clone, Copy, Debug, PartialEq, Eq, Structural)]
pub enum TimeEvent {
    TimeChanged,
    TimezoneChanged,
}

/// The event for a change: none for the reason `Unset`.
pub open spec fn event_of(reason: CallbackReason) -> Option<TimeEvent> {
    match reason {
        CallbackReason::TimeChanged => Some(TimeEvent::TimeChanged),
        CallbackReason::TimezoneChanged => Some(TimeEvent::TimezoneChanged),
        CallbackReason::Unset => None,
    }
}

/// The time zone that observers are told: the one given, or the local one
/// where none is given and the local one is known.
pub open spec fn told_timezone(timezone: Seq<char>, local: Option<Seq<char>>) -> Seq<char> {
    if timezone.len() == 0 && local is Some {
        local->0
    } else {
        timezone
    }
}

/// One registration: `observer` wants to hear of `reason`.
#[derive(Debug)]
pub struct Observer<P> {
    pub reason: CallbackReason,
    pub observer: P,
    pub id: DispatcherId,
}

/// The registrations in `list` for `reason`, in the order they were made.
pub open spec fn observers_of<P>(list: Seq<Observer<P>>, reason: CallbackReason) -> Seq<Observer<P>> {
    list.filter(|entry: Observer<P>| entry.reason == reason)
}

/// `list` without the registrations for `reason` that carry `id`.
pub open spec fn without<P>(list: Seq<Observer<P>>, reason: CallbackReason, id: DispatcherId) -> Seq<
    Observer<P>,
> {
    list.filter(|entry: Observer<P>| !(entry.reason == reason && entry.id == id))
}

/// What a change is broadcast as.
#[derive(Debug)]
pub struct TimeBroadcast<'a, P> {
    /// What each observer is told.
    pub info: TimeInfo,
    /// The observers to tell, in the order they registered.
    pub observers: Vec<&'a P>,
    /// The event for all sessions.
    pub event: Option<TimeEvent>,
}

/// The observers of the time service, shared by all its sessions.
#[derive(Debug)]
pub struct SharedObj<P> {
    // Current id that we hand out when an observer is registered.
    id: DispatcherId,
    observers: Vec<Observer<P>>,
}

impl<P> SharedObj<P> {
    /// The id handed out last, or 0 where none was.
    pub closed spec fn last_id(&self) -> DispatcherId {
        self.id
    }

    /// The registrations, in the order they were made.
    pub closed spec fn observers(&self) -> Seq<Observer<P>> {
        self.observers@
    }

    /// No registration, and no id handed out.
    pub fn new() -> (shared: Self)
        ensures
            shared.last_id() == 0,
            shared.observers() == Seq::<Observer<P>>::empty(),
    {
        SharedObj { id: 0, observers: Vec::new() }
    }

    /// Number of registrations.
    pub fn count(&self) -> (count: usize)
        ensures
            count == self.observers().len(),
    {
        self.observers.len()
    }

    /// Registers `observer` for `reason` under the next id, which is handed
    /// back. Once every id has been handed out, nothing is registered any
    /// more.
    pub fn add_observer(&mut self, reason: CallbackReason, observer: P) -> (id: Option<
        DispatcherId,
    >)
        ensures
            match id {
                Some(id) => {
                    &&& old(self).last_id() < u32::MAX
                    &&& id == old(self).last_id() + 1
                    &&& final(self).last_id() == id
                    &&& final(self).observers() == old(self).observers().push(
                        Observer { reason, observer, id },
                    )
                },
                None => {
                    &&& old(self).last_id() == u32::MAX
                    &&& final(self).last_id() == old(self).last_id()
                    &&& final(self).observers() == old(self).observers()
                },
            },
    {
        if self.id == u32::MAX {
            return None;
        }
        self.id = self.id + 1;
        self.observers.push(Observer { reason, observer, id: self.id });
        Some(self.id)
    }

    /// Takes out the registrations for `reason` that carry `id`. The others
    /// keep their order.
    pub fn remove_observer(&mut self, reason: CallbackReason, id: DispatcherId)
        ensures
            final(self).observers() == without(old(self).observers(), reason, id),
            final(self).last_id() == old(self).last_id(),
    {
        let ghost before = self.observers@;
        let ghost n = before.len() as int;
        // How many of the registrations have been looked at.
        let ghost mut seen: int = 0;
        let mut i: usize = 0;
        while i != self.observers.len()
            invariant
                0 <= seen <= n,
                n == before.len(),
                i <= self.observers@.len(),
                self.observers@.len() - i == n - seen,
                self.observers@.take(i as int) == without(before.take(seen), reason, id),
                self.observers@.skip(i as int) == before.skip(seen),
                self.id == old(self).id,
            decreases n - seen,
        {
            let ghost current = self.observers@;
            proof {
                assert(current.skip(i as int).len() == before.skip(seen).len());
                assert forall|u: int| seen <= u < n implies #[trigger] before[u] == current[u
                    - seen + i] by {
                    assert(current.skip(i as int)[u - seen] == before.skip(seen)[u - seen]);
                }
                assert(current[i as int] == before[seen]);
                assert(before.take(seen + 1).drop_last() =~= before.take(seen));
                reveal(Seq::filter);
            }
            if self.observers[i].reason == reason && self.observers[i].id == id {
                let _ = self.observers.remove(i);
                proof {
                    assert(self.observers@.take(i as int) =~= current.take(i as int));
                    assert(self.observers@.skip(i as int) =~= before.skip(seen + 1));
                }
            } else {
                i = i + 1;
                proof {
                    assert(self.observers@.take(i as int) =~= current.take(i - 1).push(
                        before[seen],
                    ));
                    assert(self.observers@.skip(i as int) =~= before.skip(seen + 1));
                }
            }
            proof {
                seen = seen + 1;
            }
        }
        proof {
            assert(self.observers@.take(i as int) =~= self.observers@);
            assert(before.take(n) =~= before);
        }
    }

    /// What the change `rn` is broadcast as.
    ///
    /// `tz` is the time zone of the caller, and `local` the local time zone,
    /// if it is known: observers are told `tz`, or `local` where `tz` is
    /// empty. The observers registered for `rn` are to be told, in order,
    /// and then every session gets the event of the change.
    pub fn broadcast<'a>(
        &'a self,
        rn: CallbackReason,
        tz: String,
        time_delta: i64,
        local: Option<String>,
    ) -> (broadcast: TimeBroadcast<'a, P>)
        ensures
            broadcast.info@ == (TimeInfoView {
                reason: rn,
                timezone: told_timezone(
                    tz@,
                    match local {
                        Some(zone) => Some(zone@),
                        None => None,
                    },
                ),
                delta: time_delta,
            }),
            broadcast.event == event_of(rn),
            broadcast.observers@.len() == observers_of(self.observers(), rn).len(),
            forall|i: int|
                0 <= i < broadcast.observers@.len() ==> *(#[trigger] broadcast.observers@[i])
                    == observers_of(self.observers(), rn)[i].observer,
    {
        let timezone = if tz.as_str().is_empty() {
            match local {
                Some(zone) => zone,
                None => tz,
            }
        } else {
            tz
        };
        let mut observers: Vec<&'a P> = Vec::new();
        let mut i: usize = 0;
        while i < self.observers.len()
            invariant
                i <= self.observers@.len(),
                observers@.len() == observers_of(self.observers@.take(i as int), rn).len(),
                forall|j: int|
                    0 <= j < observers@.len() ==> *(#[trigger] observers@[j]) == observers_of(
                        self.observers@.take(i as int),
                        rn,
                    )[j].observer,
            decreases self.observers.len() - i,
        {
            proof {
                assert(self.observers@.take(i + 1).drop_last() =~= self.observers@.take(i as int));
                reveal(Seq::filter);
            }
            if self.observers[i].reason == rn {
                observers.push(&self.observers[i].observer);
            }
            i = i + 1;
        }
        proof {
            assert(self.observers@.take(self.observers@.len() as int) =~= self.observers@);
        }
        let event = match rn {
            CallbackReason::TimeChanged => Some(TimeEvent::TimeChanged),
            CallbackReason::TimezoneChanged => Some(TimeEvent::TimezoneChanged),
            CallbackReason::Unset => None,
        };
        TimeBroadcast { info: TimeInfo { reason: rn, timezone, delta: time_delta }, observers, event }
    }
}

} // verus!
