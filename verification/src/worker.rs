//! The worker's cycle state machine: checkpointed cancellation, wake-token
//! coalescing, the resize decision, and the export name suffix.
//!
//! A preview cycle runs quantize, remap, render and estimate steps in order.
//! At each state boundary the worker re-reads the live parameters; a cycle
//! whose snapshot no longer matches them is superseded and publishes nothing
//! further. The driving loop itself performs the steps and the presentation
//! calls; this module decides, with a contract, what it may do next.

use vstd::prelude::*;

use crate::preview::{Params, Preview};

verus! {

/// The states one preview cycle passes through. `Superseded` is reachable
/// from every non-terminal state; `Committed` only by passing every
/// checkpoint.
#[derive(Clone, Copy, PartialEq, Eq, Structural, Debug)]
pub enum CycleState {
    Requested,
    Quantizing,
    Remapping,
    Rendering,
    Estimating,
    Committed,
    Superseded,
}

impl CycleState {
    /// The two states a cycle never leaves.
    pub open spec fn is_terminal(self) -> bool {
        self == CycleState::Committed || self == CycleState::Superseded
    }

    /// The state after passing one more checkpoint.
    pub open spec fn next(self) -> CycleState {
        match self {
            CycleState::Requested => CycleState::Quantizing,
            CycleState::Quantizing => CycleState::Remapping,
            CycleState::Remapping => CycleState::Rendering,
            CycleState::Rendering => CycleState::Estimating,
            CycleState::Estimating => CycleState::Committed,
            CycleState::Committed => CycleState::Committed,
            CycleState::Superseded => CycleState::Superseded,
        }
    }

    /// How many checkpoints still have to pass before this cycle commits.
    pub open spec fn checkpoints_left(self) -> nat {
        match self {
            CycleState::Requested => 5,
            CycleState::Quantizing => 4,
            CycleState::Remapping => 3,
            CycleState::Rendering => 2,
            CycleState::Estimating => 1,
            CycleState::Committed => 0,
            CycleState::Superseded => 0,
        }
    }
}

/// The supersession predicate, checked at every state boundary: a cycle is
/// stale as soon as the live parameters differ from its snapshot.
pub open spec fn superseded_spec(live: Params, snapshot: Params) -> bool {
    live != snapshot
}

/// Whether the live parameters have moved away from a cycle's snapshot.
pub fn is_superseded(live: &Params, snapshot: &Params) -> (r: bool)
    ensures
        r == superseded_spec(*live, *snapshot),
{
    !(*live == *snapshot)
}

/// The last parameters and viewport size that were successfully rendered;
/// used to skip redundant cycles and to decide whether a resize needs a
/// fresh downscale.
#[derive(Clone, Copy, Debug)]
pub struct DisplayedState {
    pub params: Option<Params>,
    pub size: Option<(usize, usize)>,
}

impl DisplayedState {
    /// Before anything has been rendered.
    pub fn new() -> (r: DisplayedState)
        ensures
            r.params is None,
            r.size is None,
    {
        DisplayedState { params: None, size: None }
    }

    /// Coalescing test: a wake token is a no-op when the live parameters are
    /// what the display already shows.
    pub fn already_shows(&self, live: &Params) -> (r: bool)
        ensures
            r <==> self.params == Some(*live),
    {
        match &self.params {
            Some(p) => *p == *live,
            None => false,
        }
    }

    /// Records the size at which a render was just published.
    pub fn record_size(&mut self, width: usize, height: usize)
        ensures
            final(self).size == Some((width, height)),
            final(self).params == old(self).params,
    {
        self.size = Some((width, height));
    }

    /// Records a committed cycle: from here on the display shows its
    /// snapshot.
    pub fn record_commit(&mut self, cycle: &Cycle)
        requires
            cycle.state == CycleState::Committed,
        ensures
            final(self).params == Some(cycle.snapshot),
            final(self).size == old(self).size,
    {
        self.params = Some(cycle.snapshot);
    }
}

/// One in-flight preview cycle: the parameter snapshot that started it and
/// the checkpoint it has reached.
#[derive(Clone, Copy, Debug)]
pub struct Cycle {
    pub snapshot: Params,
    pub state: CycleState,
}

impl Cycle {
    /// Starts a cycle for the live parameters — unless the displayed state
    /// already shows them, in which case the wake token is consumed with no
    /// work at all.
    pub fn begin(live: &Params, displayed: &DisplayedState) -> (r: Option<Cycle>)
        ensures
            r is None <==> displayed.params == Some(*live),
            r matches Some(c) ==> c.snapshot == *live && c.state == CycleState::Requested,
    {
        if displayed.already_shows(live) {
            None
        } else {
            Some(Cycle { snapshot: *live, state: CycleState::Requested })
        }
    }

    /// A checkpoint: holds the just re-read live parameters against this
    /// cycle's snapshot. If they still match, the cycle advances one state
    /// and the step just finished may be published; otherwise the cycle is
    /// superseded and nothing of it may be published, now or later.
    pub fn checkpoint(&mut self, live: &Params) -> (r: bool)
        requires
            !old(self).state.is_terminal(),
        ensures
            r <==> !superseded_spec(*live, old(self).snapshot),
            *final(self) == step(*old(self), *live),
            final(self).snapshot == old(self).snapshot,
            r ==> final(self).state == old(self).state.next(),
            !r ==> final(self).state == CycleState::Superseded,
    {
        if is_superseded(live, &self.snapshot) {
            self.state = CycleState::Superseded;
            false
        } else {
            self.state = match self.state {
                CycleState::Requested => CycleState::Quantizing,
                CycleState::Quantizing => CycleState::Remapping,
                CycleState::Remapping => CycleState::Rendering,
                CycleState::Rendering => CycleState::Estimating,
                CycleState::Estimating => CycleState::Committed,
                CycleState::Committed => CycleState::Committed,
                CycleState::Superseded => CycleState::Superseded,
            };
            true
        }
    }
}

/// One checkpoint of the cycle machine, as a value-level step: terminal
/// states never change, a matching live value advances, any other live
/// value supersedes.
pub open spec fn step(c: Cycle, live: Params) -> Cycle {
    if c.state.is_terminal() {
        c
    } else if superseded_spec(live, c.snapshot) {
        Cycle { snapshot: c.snapshot, state: CycleState::Superseded }
    } else {
        Cycle { snapshot: c.snapshot, state: c.state.next() }
    }
}

/// The cycle after checkpointing against each live parameter value in
/// `lives`, in order.
pub open spec fn run(c: Cycle, lives: Seq<Params>) -> Cycle
    decreases lives.len(),
{
    if lives.len() == 0 {
        c
    } else {
        run(step(c, lives[0]), lives.drop_first())
    }
}

/// A run never changes the snapshot.
pub proof fn lemma_run_keeps_snapshot(c: Cycle, lives: Seq<Params>)
    ensures
        run(c, lives).snapshot == c.snapshot,
    decreases lives.len(),
{
    if lives.len() > 0 {
        lemma_run_keeps_snapshot(step(c, lives[0]), lives.drop_first());
    }
}

/// No stale commit: a cycle that observes, at any checkpoint it still has
/// to pass, a live parameter value different from its snapshot never
/// reaches `Committed` — so it never publishes.
pub proof fn lemma_no_stale_commit(c: Cycle, lives: Seq<Params>, i: int)
    requires
        0 <= i < lives.len(),
        i < c.state.checkpoints_left(),
        lives[i] != c.snapshot,
    ensures
        run(c, lives).state != CycleState::Committed,
    decreases lives.len(),
{
    if i == 0 {
        let c1 = step(c, lives[0]);
        assert(c1.state == CycleState::Superseded);
        lemma_superseded_stays(c1, lives.drop_first());
    } else {
        let c1 = step(c, lives[0]);
        if c1.state == CycleState::Superseded {
            lemma_superseded_stays(c1, lives.drop_first());
        } else {
            lemma_no_stale_commit(c1, lives.drop_first(), i - 1);
        }
    }
}

/// A superseded cycle stays superseded.
pub proof fn lemma_superseded_stays(c: Cycle, lives: Seq<Params>)
    requires
        c.state == CycleState::Superseded,
    ensures
        run(c, lives).state == CycleState::Superseded,
    decreases lives.len(),
{
    if lives.len() > 0 {
        lemma_superseded_stays(step(c, lives[0]), lives.drop_first());
    }
}

/// Freshness: a cycle that commits saw the live parameters equal to its
/// snapshot at every checkpoint it passed, so a session whose contents are
/// the full uninterrupted computation at the snapshot — which is what
/// `Preview::quantize` ensures during the cycle — shows exactly the
/// parameters that were live throughout, never an earlier value.
pub proof fn lemma_freshness(preview: Preview, c: Cycle, lives: Seq<Params>)
    requires
        run(c, lives).state == CycleState::Committed,
        preview.reflects(c.snapshot),
    ensures
        forall|i: int|
            0 <= i < lives.len() && i < c.state.checkpoints_left() ==> lives[i] == c.snapshot,
        preview.reflects(run(c, lives).snapshot),
{
    lemma_run_keeps_snapshot(c, lives);
    assert forall|i: int|
        0 <= i < lives.len() && i < c.state.checkpoints_left() implies lives[i] == c.snapshot by {
        if lives[i] != c.snapshot {
            lemma_no_stale_commit(c, lives, i);
        }
    }
}

/// Eventual consistency: once the parameters hold still at a cycle's
/// snapshot, the cycle passes every remaining checkpoint and commits.
pub proof fn lemma_quiescence_commits(c: Cycle, lives: Seq<Params>)
    requires
        !c.state.is_terminal(),
        lives.len() >= c.state.checkpoints_left(),
        forall|i: int| 0 <= i < lives.len() ==> lives[i] == c.snapshot,
    ensures
        run(c, lives).state == CycleState::Committed,
    decreases lives.len(),
{
    let c1 = step(c, lives[0]);
    if c1.state == CycleState::Committed {
        lemma_committed_stays(c1, lives.drop_first());
    } else {
        lemma_quiescence_commits(c1, lives.drop_first());
    }
}

/// A committed cycle stays committed.
pub proof fn lemma_committed_stays(c: Cycle, lives: Seq<Params>)
    requires
        c.state == CycleState::Committed,
    ensures
        run(c, lives).state == CycleState::Committed,
    decreases lives.len(),
{
    if lives.len() > 0 {
        lemma_committed_stays(step(c, lives[0]), lives.drop_first());
    }
}

/// Whether a render is stale after the viewport changed: yes when the new
/// viewport undercuts the displayed size in either dimension, or when the
/// displayed render was an undersized proxy while the source still has more
/// native resolution to offer; otherwise the resize is a no-op.
pub open spec fn redisplay_spec(
    viewport_width: int,
    viewport_height: int,
    shown_width: int,
    shown_height: int,
    source_width: int,
    source_height: int,
) -> bool {
    ||| viewport_width < shown_width
    ||| viewport_height < shown_height
    ||| (shown_width < viewport_width && shown_width < source_width)
    ||| (shown_height < viewport_height && shown_height < source_height)
}

/// Decides whether a resize needs a fresh downscale of the current render.
pub fn needs_redisplay(
    viewport_width: usize,
    viewport_height: usize,
    shown_width: usize,
    shown_height: usize,
    source_width: usize,
    source_height: usize,
) -> (r: bool)
    ensures
        r == redisplay_spec(
            viewport_width as int,
            viewport_height as int,
            shown_width as int,
            shown_height as int,
            source_width as int,
            source_height as int,
        ),
{
    viewport_width < shown_width || viewport_height < shown_height || (shown_width
        < viewport_width && shown_width < source_width) || (shown_height < viewport_height
        && shown_height < source_height)
}

/// Resize monotonicity: shrinking the viewport below the displayed size
/// always triggers a redisplay; growing it while the display already sits
/// at native source resolution never does.
pub proof fn lemma_resize_monotonic(
    viewport_width: int,
    viewport_height: int,
    shown_width: int,
    shown_height: int,
    source_width: int,
    source_height: int,
)
    ensures
        viewport_width < shown_width || viewport_height < shown_height ==> redisplay_spec(
            viewport_width,
            viewport_height,
            shown_width,
            shown_height,
            source_width,
            source_height,
        ),
        shown_width == source_width && shown_height == source_height && viewport_width
            >= shown_width && viewport_height >= shown_height ==> !redisplay_spec(
            viewport_width,
            viewport_height,
            shown_width,
            shown_height,
            source_width,
            source_height,
        ),
{
}

/// The dithering-mode suffix appended to an exported file's stem: ordered
/// when dithering is off, Floyd–Steinberg otherwise.
pub fn export_suffix(dithering: u8) -> (r: &'static str)
    ensures
        dithering == 0 ==> r@ == "or8"@,
        dithering != 0 ==> r@ == "fs8"@,
{
    if dithering == 0 {
        "or8"
    } else {
        "fs8"
    }
}

} // verus!
