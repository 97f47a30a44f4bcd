use vstd::prelude::*;

verus! {

/// An opaque, platform-assigned identifier for an on-screen window.
/// The detector only ever compares handles for equality; the raw value is
/// never dereferenced and may go stale without notice.
#[derive(Clone, Copy, PartialEq, Eq, Structural, Debug)]
pub struct WindowHandle {
    pub raw: u64,
}

/// The sole state carried across polling iterations: the most recently
/// observed foreground handle, or `None` before the first observation.
pub struct Detector {
    pub last_seen: Option<WindowHandle>,
}

/// Value of `last_seen` after one poll that observed `obs`.
pub open spec fn step_state(
    last: Option<WindowHandle>,
    obs: Option<WindowHandle>,
) -> Option<WindowHandle> {
    match obs {
        Some(h) => Some(h),
        None => last,
    }
}

/// The handle for which one poll emits an event, if any: exactly when a
/// handle is observed and it differs from the last seen one.
pub open spec fn step_emit(
    last: Option<WindowHandle>,
    obs: Option<WindowHandle>,
) -> Option<WindowHandle> {
    match obs {
        Some(h) => if last == Some(h) {
            None
        } else {
            Some(h)
        },
        None => None,
    }
}

/// State of the detector after processing a whole sequence of observations,
/// one `observe` step per element, starting from `init`.
pub open spec fn state_after(
    init: Option<WindowHandle>,
    obs: Seq<Option<WindowHandle>>,
) -> Option<WindowHandle>
    decreases obs.len(),
{
    if obs.len() == 0 {
        init
    } else {
        step_state(state_after(init, obs.drop_last()), obs.last())
    }
}

/// The per-poll emissions over a whole sequence of observations: entry `i`
/// is the handle emitted by poll `i`, or `None` where that poll was silent.
pub open spec fn emissions(
    init: Option<WindowHandle>,
    obs: Seq<Option<WindowHandle>>,
) -> Seq<Option<WindowHandle>>
    decreases obs.len(),
{
    if obs.len() == 0 {
        Seq::empty()
    } else {
        emissions(init, obs.drop_last()).push(
            step_emit(state_after(init, obs.drop_last()), obs.last()),
        )
    }
}

/// How many events a sequence of observations emits in total.
pub open spec fn emission_count(
    init: Option<WindowHandle>,
    obs: Seq<Option<WindowHandle>>,
) -> nat
    decreases obs.len(),
{
    if obs.len() == 0 {
        0
    } else {
        emission_count(init, obs.drop_last()) + (
        if step_emit(state_after(init, obs.drop_last()), obs.last()) is Some {
            1nat
        } else {
            0nat
        })
    }
}

pub proof fn lemma_emissions_len(init: Option<WindowHandle>, obs: Seq<Option<WindowHandle>>)
    ensures
        emissions(init, obs).len() == obs.len(),
    decreases obs.len(),
{
    if obs.len() > 0 {
        lemma_emissions_len(init, obs.drop_last());
    }
}

proof fn lemma_state_take_unfold(
    init: Option<WindowHandle>,
    obs: Seq<Option<WindowHandle>>,
    k: int,
)
    requires
        1 <= k <= obs.len(),
    ensures
        state_after(init, obs.take(k)) == step_state(
            state_after(init, obs.take(k - 1)),
            obs[k - 1],
        ),
{
    assert(obs.take(k).drop_last() =~= obs.take(k - 1));
    assert(obs.take(k).last() == obs[k - 1]);
}

/// Each entry of `emissions` is the step emission out of the state reached
/// by the observations before it.
pub proof fn lemma_emissions_index(
    init: Option<WindowHandle>,
    obs: Seq<Option<WindowHandle>>,
    i: int,
)
    requires
        0 <= i < obs.len(),
    ensures
        emissions(init, obs)[i] == step_emit(state_after(init, obs.take(i)), obs[i]),
    decreases obs.len(),
{
    lemma_emissions_len(init, obs.drop_last());
    if i == obs.len() - 1 {
        assert(obs.take(i) =~= obs.drop_last());
        assert(obs.last() == obs[i]);
    } else {
        lemma_emissions_index(init, obs.drop_last(), i);
        assert(obs.drop_last().take(i) =~= obs.take(i));
        assert(obs.drop_last()[i] == obs[i]);
    }
}

/// Law: an event is emitted exactly once per maximal run of one changed
/// handle value, never on repeats. For any stretch of polls `i..=j` that all
/// observe the same handle `h`, the first poll of the stretch emits `h`
/// exactly when the state before it differs from `h`, and every later poll
/// of the stretch emits nothing.
pub proof fn lemma_once_per_run(
    init: Option<WindowHandle>,
    obs: Seq<Option<WindowHandle>>,
    i: int,
    j: int,
    h: WindowHandle,
)
    requires
        0 <= i <= j < obs.len(),
        forall|k: int| i <= k <= j ==> obs[k] == Some(h),
    ensures
        emissions(init, obs)[i] == (if state_after(init, obs.take(i)) == Some(h) {
            None::<WindowHandle>
        } else {
            Some(h)
        }),
        forall|k: int| i < k <= j ==> emissions(init, obs)[k] is None,
{
    lemma_emissions_index(init, obs, i);
    assert forall|k: int| i < k <= j implies emissions(init, obs)[k] is None by {
        lemma_emissions_index(init, obs, k);
        lemma_state_take_unfold(init, obs, k);
        assert(obs[k - 1] == Some(h));
        assert(state_after(init, obs.take(k)) == Some(h));
    }
}

proof fn lemma_constant_run_state(init: Option<WindowHandle>, h: WindowHandle, n: nat)
    requires
        n >= 1,
    ensures
        state_after(init, Seq::new(n, |i: int| Some(h))) == Some(h),
{
    assert(Seq::new(n, |i: int| Some(h)).last() == Some(h));
}

/// Law (idempotence): if the detector observes one handle `h` for `n >= 1`
/// consecutive polls, exactly one event is emitted over those polls — or
/// none at all if `h` was already the last seen handle when the run began.
pub proof fn lemma_idempotent_run(init: Option<WindowHandle>, h: WindowHandle, n: nat)
    requires
        n >= 1,
    ensures
        emission_count(init, Seq::new(n, |i: int| Some(h))) == (if init == Some(h) {
            0nat
        } else {
            1nat
        }),
    decreases n,
{
    let s = Seq::new(n, |i: int| Some(h));
    assert(s.last() == Some(h));
    if n == 1 {
        assert(s.drop_last() =~= Seq::<Option<WindowHandle>>::empty());
        assert(emission_count(init, s.drop_last()) == 0);
        assert(state_after(init, s.drop_last()) == init);
        assert(emission_count(init, s) == (if step_emit(init, Some(h)) is Some {
            1nat
        } else {
            0nat
        }));
    } else {
        let prev = Seq::new((n - 1) as nat, |i: int| Some(h));
        assert(s.drop_last() =~= prev);
        lemma_idempotent_run(init, h, (n - 1) as nat);
        lemma_constant_run_state(init, h, (n - 1) as nat);
        assert(step_emit(state_after(init, prev), s.last()) is None);
        assert(emission_count(init, s) == emission_count(init, prev));
    }
}

impl Detector {
    /// A fresh detector, tracking nothing yet.
    pub fn new() -> (d: Detector)
        ensures
            d.last_seen is None,
    {
        Detector { last_seen: None }
    }

    /// One polling step: compare the observed foreground handle (if any)
    /// with the last seen one, update the state, and report the handle an
    /// event must be emitted for, if any.
    pub fn observe(&mut self, obs: Option<WindowHandle>) -> (emitted: Option<WindowHandle>)
        ensures
            final(self).last_seen == step_state(old(self).last_seen, obs),
            emitted == step_emit(old(self).last_seen, obs),
    {
        match obs {
            None => None,
            Some(h) => {
                let same = match self.last_seen {
                    Some(prev) => prev.raw == h.raw,
                    None => false,
                };
                if same {
                    None
                } else {
                    self.last_seen = Some(h);
                    Some(h)
                }
            },
        }
    }
}

} // verus!
