//! The focus state machine: converts raw platform signals into a minimal,
//! deduplicated stream of `FocusedWindow` events and decides when the
//! (expensive) icon pipeline must run.
//!
//! Icon acquisition is triggered by, and only by, a reportable change of the
//! active window (or the first observation of a session), never by mere
//! title mutation; a title change reuses the cached icon verbatim.

use vstd::prelude::*;
use crate::focused_window::{
    FocusedWindow, FocusedWindowView, clone_opt_raster, clone_opt_string, opt_raster_view,
    opt_str_eq, opt_str_view,
};
use crate::icon::{RasterImage, RasterView};

verus! {

/// Identity of a focused window as reported by a platform event source.
#[derive(Debug)]
pub struct WindowIdentity {
    /// Process ID of the window's owner, when the platform reports one.
    pub process_id: Option<u32>,
    /// Reported process name.
    pub process_name: Option<String>,
    /// Window title.
    pub window_title: Option<String>,
}

/// Mathematical model of a window identity.
#[verifier::ext_equal]
pub struct WindowIdentityView {
    pub process_id: Option<u32>,
    pub process_name: Option<Seq<char>>,
    pub window_title: Option<Seq<char>>,
}

impl View for WindowIdentity {
    type V = WindowIdentityView;

    open spec fn view(&self) -> WindowIdentityView {
        WindowIdentityView {
            process_id: self.process_id,
            process_name: opt_str_view(self.process_name),
            window_title: opt_str_view(self.window_title),
        }
    }
}

impl Clone for WindowIdentity {
    /// A clone models the same identity.
    fn clone(&self) -> (r: Self)
        ensures
            r@ == self@,
    {
        let r = WindowIdentity {
            process_id: self.process_id,
            process_name: clone_opt_string(&self.process_name),
            window_title: clone_opt_string(&self.window_title),
        };
        proof {
            assert(r@ =~= self@);
        }
        r
    }
}

/// A raw focus-relevant signal yielded by a platform event source.
#[derive(Debug)]
pub enum FocusSignal {
    /// The active window changed; carries the new window's identity.
    ActiveWindowChanged(WindowIdentity),
    /// The title of the currently monitored window changed; carries the
    /// window's identity with the new title.
    TitleChangedOnCurrent(WindowIdentity),
}

/// Mathematical model of a raw signal.
pub enum FocusSignalView {
    ActiveWindowChanged(WindowIdentityView),
    TitleChangedOnCurrent(WindowIdentityView),
}

impl View for FocusSignal {
    type V = FocusSignalView;

    open spec fn view(&self) -> FocusSignalView {
        match self {
            FocusSignal::ActiveWindowChanged(id) => FocusSignalView::ActiveWindowChanged(id@),
            FocusSignal::TitleChangedOnCurrent(id) => FocusSignalView::TitleChangedOnCurrent(id@),
        }
    }
}

/// The identity a signal carries.
pub open spec fn signal_identity(s: FocusSignalView) -> WindowIdentityView {
    match s {
        FocusSignalView::ActiveWindowChanged(id) => id,
        FocusSignalView::TitleChangedOnCurrent(id) => id,
    }
}

/// Per-tracker dedup and icon-cache state. Initialized empty at tracker
/// start, mutated only by the thread driving the event loop.
pub struct FocusState {
    last_process_name: Option<String>,
    last_window_title: Option<String>,
    cached_icon: Option<RasterImage>,
    has_observed: bool,
}

/// Mathematical model of the tracker state.
#[verifier::ext_equal]
pub struct FocusStateView {
    pub last_process_name: Option<Seq<char>>,
    pub last_window_title: Option<Seq<char>>,
    pub cached_icon: Option<RasterView>,
    pub has_observed: bool,
}

impl View for FocusState {
    type V = FocusStateView;

    closed spec fn view(&self) -> FocusStateView {
        FocusStateView {
            last_process_name: opt_str_view(self.last_process_name),
            last_window_title: opt_str_view(self.last_window_title),
            cached_icon: opt_raster_view(self.cached_icon),
            has_observed: self.has_observed,
        }
    }
}

/// The fresh state: nothing observed yet.
pub open spec fn initial_state() -> FocusStateView {
    FocusStateView {
        last_process_name: None,
        last_window_title: None,
        cached_icon: None,
        has_observed: false,
    }
}

/// Whether a signal is reportable: the first signal of a session always is;
/// afterwards an active-window change is reportable when the
/// `(process_name, window_title)` pair differs from the last reported one,
/// and a title change only when the title actually differs.
pub open spec fn emits(st: FocusStateView, s: FocusSignalView) -> bool {
    ||| !st.has_observed
    ||| (match s {
        FocusSignalView::ActiveWindowChanged(id) => id.process_name != st.last_process_name
            || id.window_title != st.last_window_title,
        FocusSignalView::TitleChangedOnCurrent(id) => id.window_title != st.last_window_title,
    })
}

/// Whether the icon pipeline must run: exactly on a reportable
/// active-window change (or first observation), never on title mutation.
pub open spec fn wants_fetch(st: FocusStateView, s: FocusSignalView) -> bool {
    s is ActiveWindowChanged && emits(st, s)
}

/// The state after a signal: unchanged when the signal is suppressed;
/// otherwise the signal's identity is recorded, and on an active-window
/// change the icon cache is replaced by the fetch result (on a title change
/// it is kept).
pub open spec fn step_state(
    st: FocusStateView,
    s: FocusSignalView,
    icon: Option<RasterView>,
) -> FocusStateView {
    if !emits(st, s) {
        st
    } else {
        let id = signal_identity(s);
        FocusStateView {
            last_process_name: id.process_name,
            last_window_title: id.window_title,
            cached_icon: if s is ActiveWindowChanged {
                icon
            } else {
                st.cached_icon
            },
            has_observed: true,
        }
    }
}

/// The event an emitting step reports: the signal's identity, with the
/// freshly fetched icon on an active-window change and the cached icon on a
/// title change.
pub open spec fn step_event(
    st: FocusStateView,
    s: FocusSignalView,
    icon: Option<RasterView>,
) -> FocusedWindowView {
    let id = signal_identity(s);
    FocusedWindowView {
        process_id: id.process_id,
        process_name: id.process_name,
        window_title: id.window_title,
        icon: if s is ActiveWindowChanged {
            icon
        } else {
            st.cached_icon
        },
    }
}

/// The `(process_name, window_title)` pair that dedup compares; icons are
/// not part of the key.
pub open spec fn event_pair(e: FocusedWindowView) -> (Option<Seq<char>>, Option<Seq<char>>) {
    (e.process_name, e.window_title)
}

impl FocusState {
    /// A fresh tracker state: nothing observed yet.
    pub fn new() -> (r: Self)
        ensures
            r@ == initial_state(),
    {
        let r = FocusState {
            last_process_name: None,
            last_window_title: None,
            cached_icon: None,
            has_observed: false,
        };
        proof {
            assert(r@ =~= initial_state());
        }
        r
    }

    /// Whether handling `signal` requires running the icon pipeline first.
    pub fn wants_icon_fetch(&self, signal: &FocusSignal) -> (r: bool)
        ensures
            r == wants_fetch(self@, signal@),
    {
        match signal {
            FocusSignal::ActiveWindowChanged(id) => {
                !self.has_observed || !opt_str_eq(&id.process_name, &self.last_process_name)
                    || !opt_str_eq(&id.window_title, &self.last_window_title)
            },
            FocusSignal::TitleChangedOnCurrent(_) => false,
        }
    }

    /// Whether `signal` would be reported from the current state.
    fn would_emit(&self, signal: &FocusSignal) -> (r: bool)
        ensures
            r == emits(self@, signal@),
    {
        if !self.has_observed {
            return true;
        }
        match signal {
            FocusSignal::ActiveWindowChanged(id) => {
                !opt_str_eq(&id.process_name, &self.last_process_name) || !opt_str_eq(
                    &id.window_title,
                    &self.last_window_title,
                )
            },
            FocusSignal::TitleChangedOnCurrent(id) => {
                !opt_str_eq(&id.window_title, &self.last_window_title)
            },
        }
    }

    /// Classify a foreground-window poll snapshot against the current
    /// state, for the platforms whose source is a periodic "who is
    /// foreground" query: an unchanged `(process_name, window_title)` pair
    /// is no signal at all; a changed title under the same process name is
    /// a title change (so the cached icon is reused); anything else — the
    /// first observation included — is an active-window change.
    pub fn classify_poll(&self, id: WindowIdentity) -> (r: Option<FocusSignal>)
        ensures
            r is None <==> (self@.has_observed && id@.process_name == self@.last_process_name
                && id@.window_title == self@.last_window_title),
            r matches Some(s) ==> signal_identity(s@) == id@,
            r matches Some(s) ==> (s@ is TitleChangedOnCurrent <==> (self@.has_observed
                && id@.process_name == self@.last_process_name && id@.window_title
                != self@.last_window_title)),
    {
        let name_same = opt_str_eq(&id.process_name, &self.last_process_name);
        let title_same = opt_str_eq(&id.window_title, &self.last_window_title);
        if self.has_observed && name_same && title_same {
            None
        } else if self.has_observed && name_same {
            let r = Some(FocusSignal::TitleChangedOnCurrent(id));
            proof {
                assert(r matches Some(s) ==> signal_identity(s@) =~= id@);
            }
            r
        } else {
            let r = Some(FocusSignal::ActiveWindowChanged(id));
            proof {
                assert(r matches Some(s) ==> signal_identity(s@) =~= id@);
            }
            r
        }
    }

    /// Process one raw signal. `fetched_icon` is the icon pipeline's result
    /// and is consulted only when `wants_icon_fetch` asked for the fetch.
    /// Returns the event to report, or `None` when the signal is suppressed.
    pub fn step(&mut self, signal: &FocusSignal, fetched_icon: Option<RasterImage>) -> (r: Option<
        FocusedWindow,
    >)
        ensures
            final(self)@ == step_state(old(self)@, signal@, opt_raster_view(fetched_icon)),
            r is Some <==> emits(old(self)@, signal@),
            r matches Some(ev) ==> ev@ == step_event(
                old(self)@,
                signal@,
                opt_raster_view(fetched_icon),
            ),
    {
        if !self.would_emit(signal) {
            return None;
        }
        match signal {
            FocusSignal::ActiveWindowChanged(id) => {
                let event_icon = clone_opt_raster(&fetched_icon);
                self.last_process_name = clone_opt_string(&id.process_name);
                self.last_window_title = clone_opt_string(&id.window_title);
                self.cached_icon = fetched_icon;
                self.has_observed = true;
                let ev = FocusedWindow {
                    process_id: id.process_id,
                    process_name: clone_opt_string(&id.process_name),
                    window_title: clone_opt_string(&id.window_title),
                    icon: event_icon,
                };
                proof {
                    assert(self@ =~= step_state(old(self)@, signal@, opt_raster_view(
                        fetched_icon,
                    )));
                    assert(ev@ =~= step_event(old(self)@, signal@, opt_raster_view(fetched_icon)));
                }
                Some(ev)
            },
            FocusSignal::TitleChangedOnCurrent(id) => {
                let event_icon = clone_opt_raster(&self.cached_icon);
                self.last_process_name = clone_opt_string(&id.process_name);
                self.last_window_title = clone_opt_string(&id.window_title);
                self.has_observed = true;
                let ev = FocusedWindow {
                    process_id: id.process_id,
                    process_name: clone_opt_string(&id.process_name),
                    window_title: clone_opt_string(&id.window_title),
                    icon: event_icon,
                };
                proof {
                    assert(self@ =~= step_state(old(self)@, signal@, opt_raster_view(
                        fetched_icon,
                    )));
                    assert(ev@ =~= step_event(old(self)@, signal@, opt_raster_view(fetched_icon)));
                }
                Some(ev)
            },
        }
    }
}

/// Law (first event): a fresh tracker reports its very first signal,
/// whatever the signal is and whatever identity it carries.
pub proof fn lemma_first_signal_emits(s: FocusSignalView)
    ensures
        emits(initial_state(), s),
{
}

/// Law (dedup): whenever two consecutive signals are both reported, the two
/// events never share the `(process_name, window_title)` pair.
pub proof fn lemma_dedup_adjacent(
    st: FocusStateView,
    s1: FocusSignalView,
    icon1: Option<RasterView>,
    s2: FocusSignalView,
    icon2: Option<RasterView>,
)
    requires
        emits(st, s1),
        emits(step_state(st, s1, icon1), s2),
    ensures
        event_pair(step_event(step_state(st, s1, icon1), s2, icon2)) != event_pair(
            step_event(st, s1, icon1),
        ),
{
}

/// Law (icon cache): when a title change on the same window immediately
/// follows a reported active-window change, the title event is reported and
/// carries exactly the icon of the window-change event — the pipeline is not
/// asked to run again, whatever `icon2` a caller might pass.
pub proof fn lemma_title_change_reuses_icon(
    st: FocusStateView,
    id1: WindowIdentityView,
    icon: Option<RasterView>,
    id2: WindowIdentityView,
    icon2: Option<RasterView>,
)
    requires
        emits(st, FocusSignalView::ActiveWindowChanged(id1)),
        id2.window_title != id1.window_title,
    ensures
        ({
            let sig1 = FocusSignalView::ActiveWindowChanged(id1);
            let st1 = step_state(st, sig1, icon);
            let sig2 = FocusSignalView::TitleChangedOnCurrent(id2);
            &&& step_event(st, sig1, icon).icon == icon
            &&& emits(st1, sig2)
            &&& !wants_fetch(st1, sig2)
            &&& step_event(st1, sig2, icon2).icon == icon
        }),
{
}

/// The inductive shape of a replayed stream that starts from the fresh
/// state: adjacent events differ in their pair, the latest event's pair is
/// recorded in the state, and the state stays fresh only while nothing was
/// reported.
pub open spec fn replay_stream_shape(
    evs: Seq<FocusedWindowView>,
    st: FocusStateView,
) -> bool {
    &&& (forall|j: int|
        0 <= j && j + 1 < evs.len() ==> event_pair(#[trigger] evs[j]) != event_pair(evs[j + 1]))
    &&& (evs.len() > 0 ==> st.has_observed && event_pair(evs.last()) == (
        st.last_process_name,
        st.last_window_title,
    ))
    &&& (evs.len() == 0 ==> !st.has_observed)
}

/// Law (dedup, whole stream): replaying any signal sequence from the fresh
/// state yields a stream in which no two adjacent events share the
/// `(process_name, window_title)` pair — whatever icons the fetches return.
pub proof fn lemma_replay_dedup(
    signals: Seq<FocusSignalView>,
    icons: Seq<Option<RasterView>>,
    n: nat,
)
    ensures
        replay_stream_shape(
            replay_events(initial_state(), signals, icons, n),
            replay_at(initial_state(), signals, icons, n).0,
        ),
    decreases n,
{
    if n > 0 {
        lemma_replay_dedup(signals, icons, (n - 1) as nat);
        let prev = replay_at(initial_state(), signals, icons, (n - 1) as nat);
        let prev_evs = replay_events(initial_state(), signals, icons, (n - 1) as nat);
        let s = signals[n - 1];
        let f = wants_fetch(prev.0, s);
        let icon = if f {
            icons[prev.1 as int]
        } else {
            None
        };
        if emits(prev.0, s) {
            let e = step_event(prev.0, s, icon);
            let evs = prev_evs.push(e);
            assert forall|j: int| 0 <= j && j + 1 < evs.len() implies event_pair(
                #[trigger] evs[j],
            ) != event_pair(evs[j + 1]) by {
                if j + 1 < evs.len() - 1 {
                    assert(event_pair(prev_evs[j]) != event_pair(prev_evs[j + 1]));
                }
            }
        }
    }
}

/// The views of a sequence of signals.
pub open spec fn signal_views(v: Seq<FocusSignal>) -> Seq<FocusSignalView> {
    v.map_values(|s: FocusSignal| s@)
}

/// The views of a sequence of optional rasters.
pub open spec fn icon_views(v: Seq<Option<RasterImage>>) -> Seq<Option<RasterView>> {
    v.map_values(|o: Option<RasterImage>| opt_raster_view(o))
}

/// The views of a sequence of events.
pub open spec fn event_views(v: Seq<FocusedWindow>) -> Seq<FocusedWindowView> {
    v.map_values(|e: FocusedWindow| e@)
}

/// State and consumed-fetch count after the first `n` signals of a replay
/// that starts in `st0` and draws fetch results from `icons` in order.
pub open spec fn replay_at(
    st0: FocusStateView,
    signals: Seq<FocusSignalView>,
    icons: Seq<Option<RasterView>>,
    n: nat,
) -> (FocusStateView, nat)
    decreases n,
{
    if n == 0 {
        (st0, 0)
    } else {
        let prev = replay_at(st0, signals, icons, (n - 1) as nat);
        let s = signals[n - 1];
        let f = wants_fetch(prev.0, s);
        let icon = if f {
            icons[prev.1 as int]
        } else {
            None
        };
        (step_state(prev.0, s, icon), prev.1 + (if f {
            1nat
        } else {
            0nat
        }))
    }
}

/// The events reported for the first `n` signals of such a replay.
pub open spec fn replay_events(
    st0: FocusStateView,
    signals: Seq<FocusSignalView>,
    icons: Seq<Option<RasterView>>,
    n: nat,
) -> Seq<FocusedWindowView>
    decreases n,
{
    if n == 0 {
        Seq::empty()
    } else {
        let evs = replay_events(st0, signals, icons, (n - 1) as nat);
        let prev = replay_at(st0, signals, icons, (n - 1) as nat);
        let s = signals[n - 1];
        let f = wants_fetch(prev.0, s);
        let icon = if f {
            icons[prev.1 as int]
        } else {
            None
        };
        if emits(prev.0, s) {
            evs.push(step_event(prev.0, s, icon))
        } else {
            evs
        }
    }
}

/// Drive a fresh state machine over a whole sequence of signals, drawing
/// icon fetch results from `icons` in order; returns the reported events and
/// how many fetch results were consumed. Besides pinning both down exactly,
/// the contract states the dedup law: no two adjacent reported events share
/// the `(process_name, window_title)` pair, for any input sequence.
pub fn replay(signals: &Vec<FocusSignal>, icons: &Vec<Option<RasterImage>>) -> (r: (
    Vec<FocusedWindow>,
    usize,
))
    requires
        icons@.len() >= signals@.len(),
    ensures
        event_views(r.0@) == replay_events(
            initial_state(),
            signal_views(signals@),
            icon_views(icons@),
            signals@.len(),
        ),
        r.1 == replay_at(
            initial_state(),
            signal_views(signals@),
            icon_views(icons@),
            signals@.len(),
        ).1,
        forall|j: int| #![trigger r.0@[j]]
            0 <= j && j + 1 < r.0@.len() ==> event_pair(r.0@[j]@) != event_pair(r.0@[j + 1]@),
{
    let ghost sigs = signal_views(signals@);
    let ghost ics = icon_views(icons@);
    let mut st = FocusState::new();
    let mut events: Vec<FocusedWindow> = Vec::new();
    let mut fetches: usize = 0;
    let mut i: usize = 0;
    while i < signals.len()
        invariant
            icons@.len() >= signals@.len(),
            sigs == signal_views(signals@),
            ics == icon_views(icons@),
            0 <= i <= signals@.len(),
            fetches <= i,
            st@ == replay_at(initial_state(), sigs, ics, i as nat).0,
            fetches as nat == replay_at(initial_state(), sigs, ics, i as nat).1,
            event_views(events@) == replay_events(initial_state(), sigs, ics, i as nat),
            forall|j: int| #![trigger events@[j]]
                0 <= j && j + 1 < events@.len() ==> event_pair(events@[j]@) != event_pair(
                    events@[j + 1]@,
                ),
            events@.len() > 0 ==> st@.has_observed && event_pair(events@.last()@) == (
                st@.last_process_name,
                st@.last_window_title,
            ),
            events@.len() == 0 ==> !st@.has_observed,
        decreases signals@.len() - i,
    {
        let signal = &signals[i];
        let fetch = st.wants_icon_fetch(signal);
        let icon_in = if fetch {
            clone_opt_raster(&icons[fetches])
        } else {
            None
        };
        proof {
            assert(sigs[i as int] == signals@[i as int]@);
            if fetch {
                assert(ics[fetches as int] == opt_raster_view(icons@[fetches as int]));
            }
        }
        let ev = st.step(signal, icon_in);
        match ev {
            Some(e) => {
                events.push(e);
            },
            None => {},
        }
        if fetch {
            fetches = fetches + 1;
        }
        proof {
            assert(event_views(events@) =~= replay_events(
                initial_state(),
                sigs,
                ics,
                (i + 1) as nat,
            ));
        }
        i = i + 1;
    }
    (events, fetches)
}

} // verus!
