//! Scheduling and cancelling notifications against the registry.
//!
//! A registration is pending while it stands in the registry, and resolved
//! once it is gone. Whichever of its timer and a cancellation reaches the
//! registry first resolves it; the other finds nothing to remove and does
//! nothing.

use crate::clock::{
    local_now, parse_date_time, parsed_date_time, seconds_between, whole_seconds_between,
    LocalDateTime,
};
use crate::registry::{AppState, MessageView, NotificationMessage};
use vstd::prelude::*;

verus! {

/// What the caller of `schedule_notification` must do next.
#[derive(Clone, Copy, Debug, PartialEq, Eq)]
pub enum Plan {
    /// The notification was already due: nothing was registered and nothing
    /// is to be delivered.
    Dropped,
    /// The notification is pending: wait this many seconds, then call
    /// `AppState::fire` with its id and deliver it if that returns `true`.
    FireAfter(u64),
}

/// Why a notification could not be scheduled.
#[derive(Clone, Copy, Debug, PartialEq, Eq)]
pub enum ScheduleError {
    /// The time was not a local date-time in the form `2025-06-01T14:30`.
    InvalidTimeFormat,
}

impl ScheduleError {
    /// The message shown to the caller.
    pub fn message(&self) -> (r: String)
        ensures
            r@ == seq!['無', '效', '的', '時', '間', '格', '式'],
    {
        let r = String::from_str("無效的時間格式");
        proof {
            reveal_strlit("無效的時間格式");
        }
        r
    }
}

/// The format of the time of a notification: year, month, day, `T`, hour and
/// minute.
pub open spec fn time_format() -> Seq<char> {
    seq!['%', 'Y', '-', '%', 'm', '-', '%', 'd', 'T', '%', 'H', ':', '%', 'M']
}

/// What happens to a notification whose delay, in whole seconds, is `delay`.
pub open spec fn plan_for(delay: int) -> Plan {
    if delay > 0 {
        Plan::FireAfter(delay as u64)
    } else {
        Plan::Dropped
    }
}

/// The registry after scheduling `msg` with a delay of `delay` seconds: a
/// notification that is not in the future is dropped.
pub open spec fn after_schedule(m: Map<u64, MessageView>, msg: MessageView, delay: int) -> Map<
    u64,
    MessageView,
> {
    if delay > 0 {
        m.insert(msg.id, msg)
    } else {
        m
    }
}

/// The registry after a cancellation of `id`.
pub open spec fn after_cancel(m: Map<u64, MessageView>, id: u64) -> Map<u64, MessageView> {
    m.remove(id)
}

/// The registry after the timer of `id` has elapsed.
pub open spec fn after_fire(m: Map<u64, MessageView>, id: u64) -> Map<u64, MessageView> {
    m.remove(id)
}

/// Whether the timer of `id`, elapsing on registry `m`, delivers the
/// notification: only if it is still pending.
pub open spec fn delivers(m: Map<u64, MessageView>, id: u64) -> bool {
    m.contains_key(id)
}

impl AppState {
    /// Schedules `message` to be delivered `delay` seconds from now. With a
    /// delay of zero or less nothing is registered.
    pub fn schedule_after(&mut self, message: NotificationMessage, delay: i64) -> (r: Plan)
        requires
            old(self).wf(),
        ensures
            final(self).wf(),
            final(self)@ == after_schedule(old(self)@, message@, delay as int),
            r == plan_for(delay as int),
    {
        if delay > 0 {
            self.add_message(message);
            Plan::FireAfter(delay as u64)
        } else {
            Plan::Dropped
        }
    }

    /// Schedules `message` for `fire_at`, the time being `now`.
    pub fn schedule_at(&mut self, message: NotificationMessage, fire_at: LocalDateTime, now: LocalDateTime) -> (r: Plan)
        requires
            old(self).wf(),
            fire_at.wf(),
            now.wf(),
        ensures
            final(self).wf(),
            final(self)@ == after_schedule(
                old(self)@,
                message@,
                whole_seconds_between(fire_at.fields(), now.fields()),
            ),
            r == plan_for(whole_seconds_between(fire_at.fields(), now.fields())),
    {
        let delay = seconds_between(&fire_at, &now);
        self.schedule_after(message, delay)
    }

    /// Schedules `message` for the local time written in its `time` field,
    /// measured against the clock. A time that does not parse is refused and
    /// leaves the registry as it was.
    pub fn schedule_notification(&mut self, message: NotificationMessage) -> (r: Result<Plan, ScheduleError>)
        requires
            old(self).wf(),
        ensures
            final(self).wf(),
            (r is Err) == (parsed_date_time(message.time@, time_format()) is None),
            r is Err ==> r == Err::<Plan, ScheduleError>(ScheduleError::InvalidTimeFormat)
                && final(self)@ == old(self)@,
            r matches Ok(p) ==> exists|now: (int, int, int, int, int, int, int)|
                {
                    let d = #[trigger] whole_seconds_between(
                        parsed_date_time(message.time@, time_format())->0,
                        now,
                    );
                    p == plan_for(d) && final(self)@ == after_schedule(old(self)@, message@, d)
                },
    {
        let fmt = "%Y-%m-%dT%H:%M";
        proof {
            reveal_strlit("%Y-%m-%dT%H:%M");
            assert(fmt@ =~= time_format());
        }
        let parsed = parse_date_time(message.time.as_str(), fmt);
        match parsed {
            None => Err(ScheduleError::InvalidTimeFormat),
            Some(fire_at) => {
                let now = local_now();
                let p = self.schedule_at(message, fire_at, now);
                proof {
                    assert(fire_at.fields() == parsed_date_time(message.time@, time_format())->0);
                }
                Ok(p)
            },
        }
    }

    /// The timer of `id` has elapsed: removes its entry and says whether the
    /// notification is to be delivered, which it is only if it was still
    /// pending.
    pub fn fire(&mut self, id: u64) -> (deliver: bool)
        requires
            old(self).wf(),
        ensures
            final(self).wf(),
            final(self)@ == after_fire(old(self)@, id),
            deliver == delivers(old(self)@, id),
    {
        self.remove_message(id)
    }

    /// Cancels the notification `id`. Cancelling one that is not pending, or
    /// no longer, does nothing.
    pub fn cancel_notification(&mut self, id: u64)
        requires
            old(self).wf(),
        ensures
            final(self).wf(),
            final(self)@ == after_cancel(old(self)@, id),
    {
        let _ = self.remove_message(id);
    }
}

/// A notification that is already due, scheduled and cancelled for the same
/// id in either order, is never delivered (no timer is started for it) and
/// leaves no entry for that id.
pub proof fn lemma_due_schedule_and_cancel(m: Map<u64, MessageView>, msg: MessageView, delay: int)
    requires
        delay <= 0,
    ensures
        plan_for(delay) == Plan::Dropped,
        !after_cancel(after_schedule(m, msg, delay), msg.id).contains_key(msg.id),
        !after_schedule(after_cancel(m, msg.id), msg, delay).contains_key(msg.id),
{
}

/// A notification in the future that is cancelled right after it was
/// scheduled is not delivered when its timer elapses, however late that is,
/// and its id stays resolved.
pub proof fn lemma_cancel_wins(m: Map<u64, MessageView>, msg: MessageView, delay: int)
    requires
        delay > 0,
    ensures
        plan_for(delay) == Plan::FireAfter(delay as u64),
        !delivers(after_cancel(after_schedule(m, msg, delay), msg.id), msg.id),
        !after_fire(after_cancel(after_schedule(m, msg, delay), msg.id), msg.id).contains_key(
            msg.id,
        ),
{
}

/// A notification in the future whose timer elapses with no cancellation
/// before it is delivered exactly once: the timer delivers it and leaves no
/// entry, and neither a later timer nor a cancellation of the id delivers or
/// changes anything.
pub proof fn lemma_fire_wins(m: Map<u64, MessageView>, msg: MessageView, delay: int)
    requires
        delay > 0,
    ensures
        plan_for(delay) == Plan::FireAfter(delay as u64),
        delivers(after_schedule(m, msg, delay), msg.id),
        !after_fire(after_schedule(m, msg, delay), msg.id).contains_key(msg.id),
        !delivers(after_fire(after_schedule(m, msg, delay), msg.id), msg.id),
        after_cancel(after_fire(after_schedule(m, msg, delay), msg.id), msg.id) == after_fire(
            after_schedule(m, msg, delay),
            msg.id,
        ),
{
    let m1 = after_fire(after_schedule(m, msg, delay), msg.id);
    assert(after_cancel(m1, msg.id) =~= m1);
}

/// Cancelling twice is cancelling once, and cancelling an id that is not
/// pending changes nothing.
pub proof fn lemma_cancel_idempotent(m: Map<u64, MessageView>, id: u64)
    ensures
        after_cancel(after_cancel(m, id), id) == after_cancel(m, id),
        !m.contains_key(id) ==> after_cancel(m, id) == m,
{
    assert(after_cancel(after_cancel(m, id), id) =~= after_cancel(m, id));
    if !m.contains_key(id) {
        assert(after_cancel(m, id) =~= m);
    }
}

/// Two notifications in the future under distinct ids are independent: each
/// timer delivers its own, and cancelling one neither delivers nor stops
/// the other.
pub proof fn lemma_distinct_ids_independent(
    m: Map<u64, MessageView>,
    a: MessageView,
    b: MessageView,
    delay_a: int,
    delay_b: int,
)
    requires
        a.id != b.id,
        delay_a > 0,
        delay_b > 0,
    ensures
        ({
            let both = after_schedule(after_schedule(m, a, delay_a), b, delay_b);
            &&& delivers(both, a.id)
            &&& delivers(after_fire(both, a.id), b.id)
            &&& delivers(both, b.id)
            &&& delivers(after_fire(both, b.id), a.id)
            &&& !delivers(after_cancel(both, a.id), a.id)
            &&& delivers(after_cancel(both, a.id), b.id)
            &&& after_cancel(both, a.id)[b.id] == b
        }),
{
}

} // verus!
