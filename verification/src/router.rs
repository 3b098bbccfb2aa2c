use vstd::prelude::*;

use crate::sink::MessageSink;
use crate::task::CancellableTask;
use crate::task::TaskError;
use crate::window::Location;
use crate::window::LocationModel;
use crate::window::OpaqueState;
use crate::window::StateModel;
use crate::window::Window;
use crate::window::WindowModel;
use crate::window::opt_view;
use crate::window::push_allowed;
use crate::window::url_with_fragment;
use crate::window::window_after_push;

verus! {

/// State of the current route, handed to the translation function: the
/// location the browser reports and the opaque state carried by the event.
#[derive(Debug)]
pub struct RouteInfo {
    /// The location at the time of the event.
    pub url: Location,
    /// The opaque state attached to the history entry, `Null` when the event
    /// carries none.
    pub state: OpaqueState,
}

/// The mathematical value of a [`RouteInfo`].
pub struct RouteInfoModel {
    pub url: LocationModel,
    pub state: StateModel,
}

impl View for RouteInfo {
    type V = RouteInfoModel;

    open spec fn view(&self) -> RouteInfoModel {
        RouteInfoModel { url: self.url@, state: self.state@ }
    }
}

impl RouteInfo {
    /// Pairs a location with the state carried by an event.
    pub fn new(url: Location, state: OpaqueState) -> (r: RouteInfo)
        ensures
            r@ == (RouteInfoModel { url: url@, state: state@ }),
    {
        RouteInfo { url, state }
    }
}

/// The navigation synchronization task.
///
/// It owns one logical subscription to the browser's navigation events
/// (pop-state and load) and an on-demand write path into the session
/// history. Each event is translated into one application message and pushed
/// to the sink the event was delivered with; programmatic navigation instead
/// returns its message to the caller. The hosting layer forwards each browser
/// event to exactly one of the `handle_*` methods, and reads nothing back:
/// data flows one way, into the sink.
///
/// The host environment's presence is evidenced by the [`Window`] the events
/// come through; building one fails in a context without a location object.
#[verifier::reject_recursive_types(M)]
pub struct RouterTask<M, F> where F: Fn(RouteInfo) -> M {
    translate: F,
    active: bool,
    _msg: core::marker::PhantomData<M>,
}

/// The mathematical value of a [`RouterTask`]: all that an event can observe
/// of it is whether the subscription is still held.
pub struct RouterModel {
    pub active: bool,
}

impl<M, F> View for RouterTask<M, F> where F: Fn(RouteInfo) -> M {
    type V = RouterModel;

    closed spec fn view(&self) -> RouterModel {
        RouterModel { active: self.active }
    }
}

impl<M, F> RouterTask<M, F> where F: Fn(RouteInfo) -> M {
    /// The translation function accepts every route.
    pub closed spec fn wf(&self) -> bool {
        forall|info: RouteInfo| #[trigger] call_requires(self.translate, (info,))
    }

    /// What the stored translation function may return for a route.
    pub closed spec fn translate_ens(&self, info: RouteInfo, m: M) -> bool {
        call_ensures(self.translate, (info,), m)
    }

    /// Starts the routing task: takes ownership of the translation function
    /// and subscribes to the browser's navigation events. Routing stops when
    /// the task is cancelled.
    pub fn new(translate: F) -> (r: RouterTask<M, F>)
        requires
            forall|info: RouteInfo| #[trigger] call_requires(translate, (info,)),
        ensures
            r.task_active(),
            r.wf(),
            forall|info: RouteInfo, m: M|
                #[trigger] r.translate_ens(info, m) == call_ensures(translate, (info,), m),
    {
        RouterTask { translate, active: true, _msg: core::marker::PhantomData }
    }

    /// Delivery of a pop-state event: the browser has already moved to the
    /// new location (the window reports it live), and the event carries the
    /// state stored in the history entry. An active task pushes exactly one
    /// message, the translation of the location read at this moment; a
    /// cancelled task pushes nothing.
    pub fn handle_pop_state(&self, window: &Window, state: OpaqueState, sink: &mut MessageSink<M>)
        requires
            self.wf(),
        ensures
            self.task_active() ==> exists|info: RouteInfo, m: M|
                {
                    &&& info@ == (RouteInfoModel { url: window@.location, state: state@ })
                    &&& #[trigger] self.translate_ens(info, m)
                    &&& final(sink)@ == old(sink)@.push(m)
                },
            !self.task_active() ==> final(sink)@ == old(sink)@,
    {
        if self.active {
            let info = RouteInfo { url: window.location().clone(), state };
            let ghost ginfo = info;
            let m = (self.translate)(info);
            let ghost gm = m;
            sink.push(m);
            proof {
                assert(self.translate_ens(ginfo, gm));
            }
        }
    }

    /// Delivery of the load event, fired once when the page finishes
    /// loading: the initial location is read live, and no stored state
    /// exists, so the translation sees `Null`.
    pub fn handle_load(&self, window: &Window, sink: &mut MessageSink<M>)
        requires
            self.wf(),
        ensures
            self.task_active() ==> exists|info: RouteInfo, m: M|
                {
                    &&& info@ == (RouteInfoModel { url: window@.location, state: StateModel::Null })
                    &&& #[trigger] self.translate_ens(info, m)
                    &&& final(sink)@ == old(sink)@.push(m)
                },
            !self.task_active() ==> final(sink)@ == old(sink)@,
    {
        self.handle_pop_state(window, OpaqueState::Null, sink)
    }

    /// The current location of the application, read live from the window —
    /// never a cached value, since other code can navigate at any time.
    /// Fails once the task is cancelled.
    pub fn current_url(&self, window: &Window) -> (r: Result<Location, TaskError>)
        ensures
            self.task_active() ==> (r matches Ok(l) && l@ == window@.location),
            !self.task_active() ==> r == Err::<Location, TaskError>(TaskError::Inactive),
    {
        if self.active {
            Ok(window.location().clone())
        } else {
            Err(TaskError::Inactive)
        }
    }

    /// Writes a new history entry (the URL defaults to the current location
    /// when omitted) and returns the resulting message to the caller instead
    /// of pushing it to the sink: the caller decides whether and when to
    /// apply it, and no pop-state subscription fires for a programmatic
    /// write. Fails with a navigation error when the history write is
    /// rejected (a cross-origin or unparseable target), and once the task is
    /// cancelled.
    pub fn push_state(
        &self,
        window: &mut Window,
        state: OpaqueState,
        title: &str,
        url: Option<&Location>,
    ) -> (r: Result<M, TaskError>)
        requires
            self.wf(),
        ensures
            !self.task_active() ==> r == Err::<M, TaskError>(TaskError::Inactive)
                && final(window)@ == old(window)@,
            self.task_active() && !push_allowed(
                old(window)@.location,
                target_model(url, old(window)@),
            ) ==> r == Err::<M, TaskError>(TaskError::Navigation)
                && final(window)@ == old(window)@,
            self.task_active() && push_allowed(
                old(window)@.location,
                target_model(url, old(window)@),
            ) ==> {
                &&& final(window)@ == window_after_push(
                    old(window)@,
                    state@,
                    title@,
                    target_model(url, old(window)@),
                )
                &&& exists|info: RouteInfo, m: M|
                    {
                        &&& info@ == (RouteInfoModel {
                            url: target_model(url, old(window)@),
                            state: state@,
                        })
                        &&& #[trigger] self.translate_ens(info, m)
                        &&& r == Ok::<M, TaskError>(m)
                    }
            },
    {
        if !self.active {
            return Err(TaskError::Inactive);
        }
        let target: Location = match url {
            Some(l) => l.clone(),
            None => window.location().clone(),
        };
        let mut title_string = String::new();
        title_string.append(title);
        if window.push_entry(state.clone(), title_string, target.clone()) {
            let info = RouteInfo { url: target, state };
            let ghost ginfo = info;
            let m = (self.translate)(info);
            let ghost gm = m;
            proof {
                assert(self.translate_ens(ginfo, gm));
            }
            Ok(m)
        } else {
            Err(TaskError::Navigation)
        }
    }

    /// Replaces the fragment of the current URL (`None` removes it) and
    /// writes the result to the history with no attached state and an empty
    /// title. An active task always succeeds: a fragment change keeps the
    /// origin, so the history write is never rejected.
    pub fn push_hash(&self, window: &mut Window, hash: Option<&str>) -> (r: Result<M, TaskError>)
        requires
            self.wf(),
        ensures
            !self.task_active() ==> r == Err::<M, TaskError>(TaskError::Inactive)
                && final(window)@ == old(window)@,
            self.task_active() ==> match url_with_fragment(
                old(window)@.location.href,
                opt_view(hash),
            ) {
                Some(t) => {
                    &&& final(window)@ == window_after_push(
                        old(window)@,
                        StateModel::Null,
                        Seq::empty(),
                        t,
                    )
                    &&& exists|info: RouteInfo, m: M|
                        {
                            &&& info@ == (RouteInfoModel { url: t, state: StateModel::Null })
                            &&& #[trigger] self.translate_ens(info, m)
                            &&& r == Ok::<M, TaskError>(m)
                        }
                },
                None => false,
            },
    {
        if !self.active {
            return Err(TaskError::Inactive);
        }
        let target = window.with_fragment(hash);
        proof {
            reveal_strlit("");
            assert(""@ =~= Seq::<char>::empty());
        }
        self.push_state(window, OpaqueState::Null, "", Some(&target))
    }
}

impl<M, F> CancellableTask for RouterTask<M, F> where F: Fn(RouteInfo) -> M {
    open spec fn task_active(&self) -> bool {
        self@.active
    }

    fn is_active(&self) -> (r: bool) {
        self.active
    }

    fn cancel(&mut self)
        ensures
            final(self)@ == cancel_router(old(self)@),
            old(self).wf() ==> final(self).wf(),
            forall|info: RouteInfo, m: M|
                #[trigger] final(self).translate_ens(info, m) == old(self).translate_ens(info, m),
    {
        if self.active {
            self.active = false;
        }
    }
}

impl<M, F> Drop for RouterTask<M, F> where F: Fn(RouteInfo) -> M {
    /// Destruction of the owner cancels a still-active task, so no
    /// subscription survives it.
    fn drop(&mut self)
        opens_invariants none
        no_unwind
    {
        if self.active {
            self.active = false;
        }
    }
}

/// What cancellation does to a navigation task: both subscriptions are
/// released, whatever the state was before.
pub open spec fn cancel_router(m: RouterModel) -> RouterModel {
    RouterModel { active: false }
}

/// Cancelling twice is the same as cancelling once, and the task reports
/// inactive both times: cancellation is idempotent, and no release happens
/// a second time because the second cancellation changes nothing at all.
pub proof fn lemma_router_cancel_idempotent(m: RouterModel)
    ensures
        cancel_router(cancel_router(m)) == cancel_router(m),
        !cancel_router(m).active,
{
}

/// One pop-state dispatch: an active subscription appends exactly the
/// translation of the event's own location and state; a cancelled one
/// appends nothing.
pub open spec fn pop_dispatch<M>(
    active: bool,
    tr: spec_fn(RouteInfoModel) -> M,
    loc: LocationModel,
    state: StateModel,
    msgs: Seq<M>,
) -> Seq<M> {
    if active {
        msgs.push(tr(RouteInfoModel { url: loc, state }))
    } else {
        msgs
    }
}

/// A whole sequence of pop-state events dispatched, in order, against an
/// active subscription.
pub open spec fn pop_dispatch_seq<M>(
    tr: spec_fn(RouteInfoModel) -> M,
    evs: Seq<(LocationModel, StateModel)>,
    msgs: Seq<M>,
) -> Seq<M>
    decreases evs.len(),
{
    if evs.len() == 0 {
        msgs
    } else {
        pop_dispatch_seq(tr, evs.drop_first(), pop_dispatch(true, tr, evs[0].0, evs[0].1, msgs))
    }
}

/// For every sequence of pop-state events, each event produces exactly one
/// message, and that message is the translation of the location and state
/// that very event carried — never a stale value from an earlier one.
pub proof fn lemma_each_pop_pushes_exactly_one<M>(
    tr: spec_fn(RouteInfoModel) -> M,
    evs: Seq<(LocationModel, StateModel)>,
    msgs: Seq<M>,
)
    ensures
        pop_dispatch_seq(tr, evs, msgs).len() == msgs.len() + evs.len(),
        forall|i: int| 0 <= i < msgs.len() ==> pop_dispatch_seq(tr, evs, msgs)[i] == msgs[i],
        forall|i: int|
            0 <= i < evs.len() ==> pop_dispatch_seq(tr, evs, msgs)[msgs.len() + i] == tr(
                RouteInfoModel { url: evs[i].0, state: evs[i].1 },
            ),
    decreases evs.len(),
{
    if evs.len() > 0 {
        let pushed = msgs.push(tr(RouteInfoModel { url: evs[0].0, state: evs[0].1 }));
        lemma_each_pop_pushes_exactly_one(tr, evs.drop_first(), pushed);
        assert forall|i: int| 0 <= i < msgs.len() implies pop_dispatch_seq(tr, evs, msgs)[i]
            == msgs[i] by {
            assert(pop_dispatch_seq(tr, evs, msgs)[i] == pushed[i]);
        }
        assert forall|i: int| 0 <= i < evs.len() implies pop_dispatch_seq(tr, evs, msgs)[msgs.len()
            + i] == tr(RouteInfoModel { url: evs[i].0, state: evs[i].1 }) by {
            if i == 0 {
                assert(pop_dispatch_seq(tr, evs, msgs)[msgs.len() as int] == pushed[msgs.len() as int]);
            } else {
                assert(evs.drop_first()[i - 1] == evs[i]);
                assert(pop_dispatch_seq(tr, evs, msgs)[pushed.len() + (i - 1)] == tr(
                    RouteInfoModel { url: evs.drop_first()[i - 1].0, state: evs.drop_first()[i - 1].1 },
                ));
            }
        }
    }
}

/// A "world" as a programmatic history write sees it: the window it writes,
/// and the message sequence it never touches.
pub open spec fn push_state_step<M>(
    w: WindowModel,
    msgs: Seq<M>,
    state: StateModel,
    title: Seq<char>,
    target: LocationModel,
) -> (WindowModel, Seq<M>) {
    (window_after_push(w, state, title, target), msgs)
}

/// A programmatic history write never fires the pop-state subscription: it
/// moves the location and appends one history entry, and the sink afterwards
/// holds exactly what it held before. Whatever reaches the application
/// beyond the returned message is the caller's own doing.
pub proof fn lemma_push_state_no_feedback<M>(
    w: WindowModel,
    msgs: Seq<M>,
    state: StateModel,
    title: Seq<char>,
    target: LocationModel,
)
    ensures
        push_state_step(w, msgs, state, title, target).1 == msgs,
        push_state_step(w, msgs, state, title, target).0 == window_after_push(
            w,
            state,
            title,
            target,
        ),
{
}

/// The location a history write targets: the given URL, or the current
/// location when none is given.
pub open spec fn target_model(url: Option<&Location>, w: WindowModel) -> LocationModel {
    match url {
        Some(l) => l@,
        None => w.location,
    }
}

} // verus!
