//! Which signal adapters have been started: each starts the first time a
//! module asks for its signal, and never again in the session (a failed
//! start included).
use vstd::prelude::*;

verus! {

broadcast use vstd::seq::Seq::lemma_push_to_set_commute;

/// A signal source that is started on demand.
#[derive(Debug, Clone, Copy, PartialEq, Eq, Structural)]
pub enum AdapterKind {
    Mpris,
    Metrics,
    Hyprland,
    Time,
    Systray,
    DBus,
}

/// What to start for a signal asked for the first time.
#[derive(Debug, Clone, Copy, PartialEq, Eq, Structural)]
pub enum AdapterStart {
    Mpris,
    Metrics,
    Hyprland,
    Time,
}

/// The start that a kind asks for: the tray and D-Bus are set up once at
/// boot and are never started on demand.
pub open spec fn start_for(kind: AdapterKind) -> Option<AdapterStart> {
    match kind {
        AdapterKind::Mpris => Some(AdapterStart::Mpris),
        AdapterKind::Metrics => Some(AdapterStart::Metrics),
        AdapterKind::Hyprland => Some(AdapterStart::Hyprland),
        AdapterKind::Time => Some(AdapterStart::Time),
        AdapterKind::Systray => None,
        AdapterKind::DBus => None,
    }
}

/// The kinds already started, in the order they were first asked for.
pub struct AdapterSupervisor {
    started: Vec<AdapterKind>,
}

impl View for AdapterSupervisor {
    type V = Set<AdapterKind>;

    closed spec fn view(&self) -> Set<AdapterKind> {
        self.started@.to_set()
    }
}

impl AdapterSupervisor {
    pub fn new() -> (res: Self)
        ensures
            res@ == Set::<AdapterKind>::empty(),
    {
        let res = AdapterSupervisor { started: Vec::new() };
        assert(res@ =~= Set::<AdapterKind>::empty());
        res
    }

    fn contains(&self, kind: AdapterKind) -> (res: bool)
        ensures
            res == self@.contains(kind),
    {
        let mut i: usize = 0;
        while i < self.started.len()
            invariant
                i <= self.started@.len(),
                forall|j: int| 0 <= j < i ==> self.started@[j] != kind,
            decreases self.started@.len() - i,
        {
            if self.started[i] == kind {
                assert(self.started@.contains(kind));
                return true;
            }
            i = i + 1;
        }
        false
    }

    /// Whether `kind` was started (or marked as started).
    pub fn is_started(&self, kind: AdapterKind) -> (res: bool)
        ensures
            res == self@.contains(kind),
    {
        self.contains(kind)
    }

    /// Notes that `kind` is already running since boot.
    pub fn mark_started(&mut self, kind: AdapterKind)
        ensures
            final(self)@ == old(self)@.insert(kind),
    {
        if !self.contains(kind) {
            self.started.push(kind);
            assert(self@ =~= old(self)@.insert(kind));
        } else {
            assert(self@ =~= old(self)@.insert(kind));
        }
    }

    /// What to start for `kind`: its adapter the first time, nothing after.
    pub fn ensure(&mut self, kind: AdapterKind) -> (res: Option<AdapterStart>)
        ensures
            final(self)@ == old(self)@.insert(kind),
            res == ensure_answer(old(self)@, kind),
    {
        if self.contains(kind) {
            assert(self@ =~= old(self)@.insert(kind));
            return None;
        }
        self.started.push(kind);
        assert(self@ =~= old(self)@.insert(kind));
        match kind {
            AdapterKind::Mpris => Some(AdapterStart::Mpris),
            AdapterKind::Metrics => Some(AdapterStart::Metrics),
            AdapterKind::Hyprland => Some(AdapterStart::Hyprland),
            AdapterKind::Time => Some(AdapterStart::Time),
            AdapterKind::Systray => None,
            AdapterKind::DBus => None,
        }
    }
}

/// What `ensure` answers for `kind` when the kinds in `started` are running.
pub open spec fn ensure_answer(started: Set<AdapterKind>, kind: AdapterKind) -> Option<AdapterStart> {
    if started.contains(kind) {
        None
    } else {
        start_for(kind)
    }
}

/// Asking twice for a signal starts its adapter at most once: after the
/// first `ensure`, the next one for the same kind starts nothing.
pub proof fn lemma_ensure_once(started: Set<AdapterKind>, kind: AdapterKind)
    ensures
        ensure_answer(started.insert(kind), kind) is None,
{
}

/// Milliseconds to wait for the next whole second, given the milliseconds
/// already past in this one.
pub fn millis_to_next_second(subsec_millis: u32) -> (res: u64)
    ensures
        res == if subsec_millis <= 1000 {
            1000 - subsec_millis
        } else {
            0
        },
{
    let past = subsec_millis as u64;
    if past <= 1000 {
        1000 - past
    } else {
        0
    }
}

} // verus!
