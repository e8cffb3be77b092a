//! The host resources a session holds, and the ordered sequence of steps that
//! releases them on every exit path.
use vstd::prelude::*;

verus! {

/// One release step, carried out by the host.
#[derive(Clone, Copy, Debug, PartialEq, Eq, Structural)]
pub enum Release {
    FreeTimer,
    FreeQueue,
    DisableViewPort,
    RemoveViewPort,
    FreeViewPort,
    CloseGui,
    CloseNotifications,
}

/// Which host resources are currently held.
#[derive(Clone, Copy, Debug, PartialEq, Eq, Structural)]
pub struct Resources {
    pub timer: bool,
    pub queue: bool,
    pub view_port: bool,
    pub gui: bool,
    pub notifications: bool,
}

/// The steps that release what `h` holds: timer, queue, display surface,
/// then the two records, each step present only where its resource is held.
pub open spec fn release_plan(h: Resources) -> Seq<Release> {
    (if h.timer { seq![Release::FreeTimer] } else { Seq::empty() })
        + (if h.queue { seq![Release::FreeQueue] } else { Seq::empty() })
        + (if h.view_port {
        seq![Release::DisableViewPort, Release::RemoveViewPort, Release::FreeViewPort]
    } else {
        Seq::empty()
    }) + (if h.gui { seq![Release::CloseGui] } else { Seq::empty() })
        + (if h.notifications { seq![Release::CloseNotifications] } else { Seq::empty() })
}

/// Nothing held.
pub open spec fn nothing_held() -> Resources {
    Resources { timer: false, queue: false, view_port: false, gui: false, notifications: false }
}

/// Everything a running session holds.
pub open spec fn all_held() -> Resources {
    Resources { timer: true, queue: true, view_port: true, gui: true, notifications: true }
}

impl Resources {
    /// The resources of a session once setup is done.
    pub fn acquired() -> (r: Resources)
        ensures
            r == all_held(),
    {
        Resources { timer: true, queue: true, view_port: true, gui: true, notifications: true }
    }

    /// Returns the steps that release everything still held, in order, and
    /// marks it all released. A second call returns no step.
    pub fn teardown(&mut self) -> (steps: Vec<Release>)
        ensures
            steps@ == release_plan(*old(self)),
            *final(self) == nothing_held(),
    {
        let mut steps: Vec<Release> = Vec::new();
        if self.timer {
            steps.push(Release::FreeTimer);
        }
        if self.queue {
            steps.push(Release::FreeQueue);
        }
        if self.view_port {
            steps.push(Release::DisableViewPort);
            steps.push(Release::RemoveViewPort);
            steps.push(Release::FreeViewPort);
        }
        if self.gui {
            steps.push(Release::CloseGui);
        }
        if self.notifications {
            steps.push(Release::CloseNotifications);
        }
        assert(steps@ =~= release_plan(*old(self)));
        *self = Resources {
            timer: false,
            queue: false,
            view_port: false,
            gui: false,
            notifications: false,
        };
        steps
    }
}

/// A plan releases each resource at most once; after a full teardown a
/// second one releases nothing; and a session that holds everything has
/// every step carried out exactly once.
pub proof fn lemma_teardown_once(h: Resources)
    ensures
        release_plan(h).no_duplicates(),
        release_plan(nothing_held()) == Seq::<Release>::empty(),
        release_plan(all_held()) == seq![
            Release::FreeTimer,
            Release::FreeQueue,
            Release::DisableViewPort,
            Release::RemoveViewPort,
            Release::FreeViewPort,
            Release::CloseGui,
            Release::CloseNotifications,
        ],
{
    assert(release_plan(nothing_held()) =~= Seq::<Release>::empty());
    assert(release_plan(all_held()) =~= seq![
        Release::FreeTimer,
        Release::FreeQueue,
        Release::DisableViewPort,
        Release::RemoveViewPort,
        Release::FreeViewPort,
        Release::CloseGui,
        Release::CloseNotifications,
    ]);
    let p = release_plan(h);
    assert forall|i: int, j: int| 0 <= i < p.len() && 0 <= j < p.len() && i != j implies p[i]
        != p[j] by {
        lemma_plan_order(h, i, j);
    }
}

/// The rank of a step in the release order.
spec fn rank(r: Release) -> int {
    match r {
        Release::FreeTimer => 0,
        Release::FreeQueue => 1,
        Release::DisableViewPort => 2,
        Release::RemoveViewPort => 3,
        Release::FreeViewPort => 4,
        Release::CloseGui => 5,
        Release::CloseNotifications => 6,
    }
}

/// The steps of a plan come in strictly increasing rank.
proof fn lemma_plan_order(h: Resources, i: int, j: int)
    requires
        0 <= i < j < release_plan(h).len() || 0 <= j < i < release_plan(h).len(),
    ensures
        (i < j ==> rank(release_plan(h)[i]) < rank(release_plan(h)[j])),
        (j < i ==> rank(release_plan(h)[j]) < rank(release_plan(h)[i])),
{
    let p = release_plan(h);
    assert(forall|a: int, b: int| 0 <= a < b < p.len() ==> rank(#[trigger] p[a]) < rank(
        #[trigger] p[b],
    )) by {
        let t = if h.timer { seq![Release::FreeTimer] } else { Seq::empty() };
        let q = if h.queue { seq![Release::FreeQueue] } else { Seq::empty() };
        let v = if h.view_port {
            seq![Release::DisableViewPort, Release::RemoveViewPort, Release::FreeViewPort]
        } else {
            Seq::empty()
        };
        let g = if h.gui { seq![Release::CloseGui] } else { Seq::empty() };
        let n = if h.notifications { seq![Release::CloseNotifications] } else { Seq::empty() };
        assert(p == t + q + v + g + n);
    }
}

} // verus!
