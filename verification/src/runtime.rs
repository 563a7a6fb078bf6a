//! What an actor needs of the runtime that it lives in.

use core::time::Duration;

use vstd::prelude::*;

verus! {

/// Runtime trait for running actor on various runtimes.
pub trait RuntimeService: Sized {
    /// A timer, to be polled until its time is up.
    type Sleep: core::future::Future<Output = ()> + Send + Unpin + 'static;

    /// A timer that starts now.
    fn sleep(dur: Duration) -> Self::Sleep;

    /// Runs a task on the current thread.
    fn spawn<F: core::future::Future<Output = ()> + 'static>(f: F);
}

/// Whether the timer is one that the runtime gave for a span of time.
pub open spec fn lasts<RT: RuntimeService>(sleep: RT::Sleep, dur: Duration) -> bool {
    call_ensures(RT::sleep, (dur,), sleep)
}

/// Whether the timer is one that the runtime gave for a number of seconds.
pub open spec fn lasts_secs<RT: RuntimeService>(sleep: RT::Sleep, secs: nat) -> bool {
    exists|dur: Duration|
        duration_nanos(dur) == secs * 1_000_000_000 && #[trigger] lasts::<RT>(sleep, dur)
}

/// A timer for a span of time is one that the runtime gave for that span and for no other, and one
/// for a number of seconds was given for as many.
pub proof fn law_timers_are_for_their_time<RT: RuntimeService>(
    sleep: RT::Sleep,
    dur: Duration,
    secs: nat,
)
    ensures
        lasts::<RT>(sleep, dur) <==> call_ensures(RT::sleep, (dur,), sleep),
        lasts_secs::<RT>(sleep, secs) ==> exists|dur: Duration|
            duration_nanos(dur) == secs * 1_000_000_000 && #[trigger] call_ensures(
                RT::sleep,
                (dur,),
                sleep,
            ),
{
    if lasts_secs::<RT>(sleep, secs) {
        let dur = choose|dur: Duration|
            duration_nanos(dur) == secs * 1_000_000_000 && #[trigger] lasts::<RT>(sleep, dur);
        assert(call_ensures(RT::sleep, (dur,), sleep));
    }
}

/// The length of a span of time in nanoseconds, as `Duration::as_nanos` gives it.
pub uninterp spec fn duration_nanos(dur: Duration) -> nat;

/// `Duration::from_secs`: a span of the given number of whole seconds.
pub assume_specification[ Duration::from_secs ](secs: u64) -> (dur: Duration)
    ensures
        duration_nanos(dur) == secs * 1_000_000_000,
;

} // verus!
