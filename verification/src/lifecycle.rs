use vstd::prelude::*;

verus! {

/// The externally observable life of a realized transient surface.
#[derive(Clone, Copy, PartialEq, Eq, Structural, Debug)]
pub enum SurfaceLife {
    /// The surface is still on screen.
    Alive,
    /// The surface was closed by external means (for example by the user)
    /// before its timer fired.
    ClosedExternally,
    /// The dismissal timer destroyed the surface.
    ClosedByTimer,
}

/// What the one-shot dismissal timer does when it fires: it destroys a
/// surface that is still alive and leaves anything else untouched.
pub open spec fn timer_result(life: SurfaceLife) -> SurfaceLife {
    if life is Alive {
        SurfaceLife::ClosedByTimer
    } else {
        life
    }
}

/// The dismissal timer's callback. The embedder registers it with a weak
/// handle; `life` says whether that handle still resolves to a live surface
/// when the timer fires. A surface already gone is never acted on, so the
/// timer can neither extend a surface's lifetime nor destroy it twice.
pub fn on_timer_expired(life: SurfaceLife) -> (r: SurfaceLife)
    ensures
        r == timer_result(life),
{
    match life {
        SurfaceLife::Alive => SurfaceLife::ClosedByTimer,
        other => other,
    }
}

/// Law: a plate whose timer is scheduled for `duration` seconds is destroyed
/// by that timer at `fire_at` seconds, never earlier than `duration` (the
/// host's one-shot timeout never fires before its delay, which is what the
/// premise states), and only from the alive state; a surface already closed
/// externally is left exactly as it was.
pub proof fn lemma_timer_dismissal(duration: u64, fire_at: u64, life: SurfaceLife)
    requires
        duration <= fire_at,
    ensures
        life is Alive ==> timer_result(life) is ClosedByTimer && fire_at >= duration,
        !(life is Alive) ==> timer_result(life) == life,
{
}

} // verus!
