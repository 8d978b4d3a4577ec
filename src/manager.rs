//! The window manager: identity allocation, the lifecycle state machine
//! (active, dying, gone) and reference-counted safe teardown.

use std::collections::HashMap;
use std::sync::Arc;
use vstd::prelude::*;

use crate::platform::Platform;
use crate::window::{WindowAttributes, WindowId};

verus! {

broadcast use vstd::std_specs::hash::group_hash_axioms;

/// A set of window ids, kept in a `hashbrown::HashSet`.
///
/// The set type itself cannot be declared to the verifier: its allocator
/// parameter is bounded by a trait of `allocator-api2`. So it sits in this
/// opaque holder, and what it holds is `id_set_contents`.
#[verifier::external_body]
pub struct IdSet {
    ids: hashbrown::HashSet<u32>,
}

/// The ids an `IdSet` holds.
pub uninterp spec fn id_set_contents(s: IdSet) -> Set<u32>;

impl IdSet {
    /// Relies on `hashbrown::HashSet::new`: a new set is empty.
    #[verifier::external_body]
    pub(crate) fn new() -> (r: IdSet)
        ensures
            id_set_contents(r) == Set::<u32>::empty(),
    {
        IdSet { ids: hashbrown::HashSet::new() }
    }

    /// Relies on `hashbrown::HashSet::insert`: the id is added; true when
    /// it was absent before.
    #[verifier::external_body]
    pub(crate) fn insert(&mut self, id: u32) -> (r: bool)
        ensures
            id_set_contents(*final(self)) == id_set_contents(*old(self)).insert(id),
            r == !id_set_contents(*old(self)).contains(id),
    {
        self.ids.insert(id)
    }

    /// Relies on `hashbrown::HashSet::remove`: the id is taken out; true
    /// when it was present before.
    #[verifier::external_body]
    pub(crate) fn remove(&mut self, id: u32) -> (r: bool)
        ensures
            id_set_contents(*final(self)) == id_set_contents(*old(self)).remove(id),
            r == id_set_contents(*old(self)).contains(id),
    {
        self.ids.remove(&id)
    }

    /// Relies on `hashbrown::HashSet::contains`: whether the id is present.
    #[verifier::external_body]
    pub(crate) fn contains(&self, id: u32) -> (r: bool)
        ensures
            r == id_set_contents(*self).contains(id),
    {
        self.ids.contains(&id)
    }

    /// Relies on `hashbrown::HashSet::iter`: it visits every id of the set
    /// once, in some order.
    #[verifier::external_body]
    pub(crate) fn to_vec(&self) -> (r: Vec<u32>)
        ensures
            r@.to_set() == id_set_contents(*self),
            r@.no_duplicates(),
    {
        self.ids.iter().copied().collect()
    }
}

/// Relies on `Arc::strong_count`: the number of strong pointers to the
/// allocation, which counts the one passed in.
#[verifier::external_body]
fn strong_count<W>(w: &Arc<W>) -> (r: usize)
    ensures
        r >= 1,
{
    Arc::strong_count(w)
}

/// Relies on `Arc::clone`: another pointer to the same value.
#[verifier::external_body]
fn share<W>(w: &Arc<W>) -> (r: Arc<W>)
    ensures
        r == *w,
{
    Arc::clone(w)
}

/// Why a window could not be created.
pub enum CreateWindowError {
    /// Every window id has been handed out.
    IdsExhausted,
    /// The platform backend failed to construct the native window.
    Platform(anyhow::Error),
}

/// The registry of live and dying windows.
///
/// Ids are `u32` values: the active and dying sets are `IdSet`s, and the
/// windows sit in std's `HashMap`, whose behaviour vstd specifies.
///
/// The manager holds the sole strong reference to each window it
/// registers, apart from those that callers take with `get_window`. A
/// dying window is dropped, which tears the native window down, only once
/// no such outside reference remains.
#[verifier::reject_recursive_types(W)]
pub struct WindowManager<W> {
    window_id_counter: u32,
    windows: HashMap<u32, Arc<W>>,
    active_windows: IdSet,
    dying_windows: IdSet,
}

impl<W> WindowManager<W> {
    /// The id the next window will get.
    pub closed spec fn next_id(&self) -> nat {
        self.window_id_counter as nat
    }

    /// The ids of active windows.
    pub closed spec fn active(&self) -> Set<u32> {
        id_set_contents(self.active_windows)
    }

    /// The ids of dying windows: close requested, teardown pending.
    pub closed spec fn dying(&self) -> Set<u32> {
        id_set_contents(self.dying_windows)
    }

    /// The window each registered id maps to.
    pub closed spec fn windows(&self) -> Map<u32, Arc<W>> {
        self.windows@
    }

    /// The ids of windows that are active or dying.
    pub open spec fn alive(&self) -> Set<u32> {
        self.active().union(self.dying())
    }

    /// No id is both active and dying; the registered ids are exactly the
    /// alive ones; every id handed out lies below the counter.
    pub open spec fn wf(&self) -> bool {
        &&& forall|id: u32| !(#[trigger] self.active().contains(id) && self.dying().contains(id))
        &&& self.windows().dom() == self.alive()
        &&& forall|id: u32| #[trigger] self.windows().contains_key(id) ==> id < self.next_id()
    }

    /// The registry (active, dying and windows) is the same in both states.
    pub open spec fn same_registry(pre: &Self, post: &Self) -> bool {
        &&& post.active() == pre.active()
        &&& post.dying() == pre.dying()
        &&& post.windows() == pre.windows()
    }

    /// The step of `begin_closing_window(id)`: an active window becomes
    /// dying; any other id leaves everything as it was.
    pub open spec fn begins_closing(pre: &Self, post: &Self, id: u32) -> bool {
        &&& post.next_id() == pre.next_id()
        &&& if pre.active().contains(id) {
            &&& post.active() == pre.active().remove(id)
            &&& post.dying() == pre.dying().insert(id)
            &&& post.windows() == pre.windows()
        } else {
            Self::same_registry(pre, post)
        }
    }

    /// The step of a teardown attempt on `id`, when `holders` strong
    /// references to its window exist (the manager's own included): a
    /// dying window held by nobody else is removed and the attempt
    /// succeeds; a dying window held elsewhere stays and the attempt is
    /// refused; any other id succeeds trivially.
    pub open spec fn finishes_closing(pre: &Self, post: &Self, id: u32, holders: nat, r: bool) -> bool {
        &&& post.next_id() == pre.next_id()
        &&& r == (!pre.dying().contains(id) || holders <= 1)
        &&& if pre.dying().contains(id) && holders <= 1 {
            &&& post.active() == pre.active()
            &&& post.dying() == pre.dying().remove(id)
            &&& post.windows() == pre.windows().remove(id)
        } else {
            Self::same_registry(pre, post)
        }
    }

    /// The step of `create_window`: once the counter has reached
    /// `u32::MAX` nothing changes and the ids are exhausted; otherwise the
    /// counter advances, and on success the new id, the counter's old
    /// value, is registered as active.
    pub open spec fn creates(pre: &Self, post: &Self, r: Result<WindowId, CreateWindowError>) -> bool {
        &&& (r matches Err(CreateWindowError::IdsExhausted)) <==> pre.next_id() == u32::MAX
        &&& match r {
            Ok(id) => {
                &&& id.0 == pre.next_id()
                &&& post.next_id() == pre.next_id() + 1
                &&& post.active() == pre.active().insert(id.0)
                &&& post.dying() == pre.dying()
                &&& post.windows().dom() == pre.windows().dom().insert(id.0)
                &&& post.windows().remove(id.0) == pre.windows()
            },
            Err(CreateWindowError::IdsExhausted) => {
                &&& post.next_id() == pre.next_id()
                &&& Self::same_registry(pre, post)
            },
            Err(CreateWindowError::Platform(_)) => {
                &&& post.next_id() == pre.next_id() + 1
                &&& Self::same_registry(pre, post)
            },
        }
    }

    /// An empty manager whose first id is 0.
    pub fn new() -> (r: Self)
        ensures
            r.wf(),
            r.next_id() == 0,
            r.active() == Set::<u32>::empty(),
            r.dying() == Set::<u32>::empty(),
    {
        let r = WindowManager {
            window_id_counter: 0,
            windows: HashMap::new(),
            active_windows: IdSet::new(),
            dying_windows: IdSet::new(),
        };
        proof {
            assert(r.windows().dom() =~= r.alive());
        }
        r
    }

    /// Allocates the next id, asks `platform` to construct the native
    /// window and registers it as active. The counter advances whether or
    /// not the platform succeeds; an id is only registered on success.
    /// Once the counter has reached `u32::MAX` no further id is handed out.
    pub fn create_window<P: Platform<NativeWindow = W>>(
        &mut self,
        window_attributes: WindowAttributes,
        platform: &P,
    ) -> (r: Result<WindowId, CreateWindowError>)
        requires
            old(self).wf(),
        ensures
            final(self).wf(),
            Self::creates(old(self), final(self), r),
    {
        if self.window_id_counter == u32::MAX {
            return Err(CreateWindowError::IdsExhausted);
        }
        let id = WindowId(self.window_id_counter);
        self.window_id_counter = self.window_id_counter + 1;
        let created = platform.create_window(window_attributes, id);
        let ghost pre_windows = self.windows();
        let r = self.register_created(id, created);
        proof {
            if r is Ok {
                assert(self.windows().dom() =~= pre_windows.dom().insert(id.0));
                assert(self.windows().remove(id.0) =~= pre_windows);
            }
        }
        r
    }

    /// Registers what the platform returned for the fresh id `id`: a
    /// window becomes active under `id`; a failure is handed back as
    /// `CreateWindowError::Platform` with the registry unchanged.
    pub fn register_created(&mut self, id: WindowId, created: Result<Arc<W>, anyhow::Error>) -> (r:
        Result<WindowId, CreateWindowError>)
        requires
            old(self).wf(),
            id.0 < old(self).next_id(),
            !old(self).alive().contains(id.0),
        ensures
            final(self).wf(),
            final(self).next_id() == old(self).next_id(),
            match created {
                Ok(w) => {
                    &&& r == Ok::<WindowId, CreateWindowError>(id)
                    &&& final(self).active() == old(self).active().insert(id.0)
                    &&& final(self).dying() == old(self).dying()
                    &&& final(self).windows() == old(self).windows().insert(id.0, w)
                },
                Err(e) => {
                    &&& r == Err::<WindowId, CreateWindowError>(CreateWindowError::Platform(e))
                    &&& Self::same_registry(old(self), final(self))
                },
            },
    {
        match created {
            Ok(window) => {
                self.active_windows.insert(id.0);
                self.windows.insert(id.0, window);
                proof {
                    assert(self.windows().dom() =~= self.alive());
                }
                Ok(id)
            },
            Err(e) => Err(CreateWindowError::Platform(e)),
        }
    }

    /// Moves an active window to dying; does nothing for any other id.
    pub fn begin_closing_window(&mut self, id: WindowId)
        requires
            old(self).wf(),
        ensures
            final(self).wf(),
            Self::begins_closing(old(self), final(self), id.0),
    {
        let ghost pre_active = self.active();
        if self.active_windows.remove(id.0) {
            self.dying_windows.insert(id.0);
            proof {
                assert(self.windows().dom() =~= self.alive());
            }
        } else {
            proof {
                assert(self.active() =~= pre_active);
            }
        }
    }

    /// Teardown attempt on `id`, given the number of strong references to
    /// its window (the manager's own included): see `finishes_closing`.
    pub fn finish_closing_window_given(&mut self, id: WindowId, holders: usize) -> (r: bool)
        requires
            old(self).wf(),
        ensures
            final(self).wf(),
            Self::finishes_closing(old(self), final(self), id.0, holders as nat, r),
    {
        if !self.dying_windows.contains(id.0) || holders > 1 {
            return !self.dying_windows.contains(id.0);
        }
        let ghost pre_windows = self.windows@;
        self.dying_windows.remove(id.0);
        self.windows.remove(&id.0);
        proof {
            assert(self.windows().dom() =~= self.alive());
            assert(self.windows() =~= pre_windows.remove(id.0));
        }
        true
    }

    /// Teardown attempt on `id`. An id that is not dying succeeds with
    /// nothing to do. A dying window is dropped (tearing the native window
    /// down) only when no reference to it remains outside the manager;
    /// otherwise the attempt is refused and may be retried later.
    pub fn try_finish_closing_window(&mut self, id: WindowId) -> (r: bool)
        requires
            old(self).wf(),
        ensures
            final(self).wf(),
            exists|holders: nat| holders >= 1 && Self::finishes_closing(old(self), final(self), id.0, holders, r),
    {
        if !self.dying_windows.contains(id.0) {
            proof {
                assert(Self::finishes_closing(old(self), final(self), id.0, 1, true));
            }
            return true;
        }
        let holders = match self.windows.get(&id.0) {
            Some(window) => strong_count(window),
            None => 1,
        };
        let r = self.finish_closing_window_given(id, holders);
        proof {
            assert(Self::finishes_closing(old(self), final(self), id.0, holders as nat, r));
        }
        r
    }

    /// A window that the OS destroyed by itself, not at the manager's
    /// request: its native handle is already gone, so the id leaves the
    /// registry at once, whether or not outside references remain. This is
    /// the one exception to waiting for them. True when the id was alive.
    pub fn close_destroyed_window(&mut self, id: WindowId) -> (r: bool)
        requires
            old(self).wf(),
        ensures
            final(self).wf(),
            r == old(self).alive().contains(id.0),
            final(self).next_id() == old(self).next_id(),
            final(self).active() == old(self).active().remove(id.0),
            final(self).dying() == old(self).dying().remove(id.0),
            final(self).windows() == old(self).windows().remove(id.0),
    {
        let ghost pre_windows = self.windows@;
        let was_active = self.active_windows.remove(id.0);
        let was_dying = self.dying_windows.remove(id.0);
        self.windows.remove(&id.0);
        proof {
            assert(self.windows().dom() =~= self.alive());
            assert(self.windows() =~= pre_windows.remove(id.0));
        }
        was_active || was_dying
    }

    /// A strong reference to the window `id`, only while it is active:
    /// a dying or unknown id gives `None`.
    pub fn get_window(&self, id: WindowId) -> (r: Option<Arc<W>>)
        requires
            self.wf(),
        ensures
            (r is Some) <==> self.active().contains(id.0),
            r matches Some(w) ==> w == self.windows()[id.0],
    {
        if self.active_windows.contains(id.0) {
            match self.windows.get(&id.0) {
                Some(window) => Some(share(window)),
                None => None,
            }
        } else {
            None
        }
    }

    /// Whether `id` is active.
    pub fn is_window_active(&self, id: WindowId) -> (r: bool)
        ensures
            r == self.active().contains(id.0),
    {
        self.active_windows.contains(id.0)
    }

    /// Whether `id` is alive: active or dying.
    pub fn is_window_alive(&self, id: WindowId) -> (r: bool)
        ensures
            r == self.alive().contains(id.0),
            r == (self.active().contains(id.0) || self.dying().contains(id.0)),
    {
        self.active_windows.contains(id.0) || self.dying_windows.contains(id.0)
    }

    /// Whether `id` is dying.
    pub fn is_window_dying(&self, id: WindowId) -> (r: bool)
        ensures
            r == self.dying().contains(id.0),
    {
        self.dying_windows.contains(id.0)
    }

    /// A pass of teardown attempts: `id` goes through the attempt at
    /// index `i` with `holders[i]` strong references to its window.
    /// Whether one of the first `n` attempts found `id` held by the
    /// manager alone.
    pub open spec fn released_within(ids: Seq<u32>, holders: Seq<usize>, n: int, id: u32) -> bool {
        exists|i: int| 0 <= i < n && #[trigger] ids[i] == id && holders[i] <= 1
    }

    /// The step of the attempts at the first `n` indices of `ids`, with
    /// `holders[i]` strong references to the window of `ids[i]`: a dying
    /// window found held by the manager alone is removed; every other
    /// window keeps its state and its entry.
    pub open spec fn finishes_first(pre: &Self, post: &Self, ids: Seq<u32>, holders: Seq<usize>, n: int) -> bool {
        &&& post.next_id() == pre.next_id()
        &&& post.active() == pre.active()
        &&& post.dying() == pre.dying().filter(|id: u32| !Self::released_within(ids, holders, n, id))
        &&& post.windows() == pre.windows().restrict(post.alive())
    }

    /// The step of a whole pass over `ids`.
    pub open spec fn finishes_all(pre: &Self, post: &Self, ids: Seq<u32>, holders: Seq<usize>) -> bool {
        Self::finishes_first(pre, post, ids, holders, ids.len() as int)
    }

    /// The step of reconciliation: one attempt on each dying id of `pre`,
    /// with the strong-reference counts that were found, each at least 1.
    pub open spec fn reconciles(pre: &Self, post: &Self) -> bool {
        exists|ids: Seq<u32>, holders: Seq<usize>|
            {
                &&& ids.to_set() == pre.dying()
                &&& ids.len() == holders.len()
                &&& forall|i: int| 0 <= i < holders.len() ==> holders[i] >= 1
                &&& #[trigger] Self::finishes_all(pre, post, ids, holders)
            }
    }

    /// Teardown attempts on each of `ids` in turn, `holders[i]` being the
    /// number of strong references to the window of `ids[i]` (the
    /// manager's own included).
    pub fn finish_closing_all_given(&mut self, ids: &Vec<u32>, holders: &Vec<usize>)
        requires
            old(self).wf(),
            ids@.len() == holders@.len(),
        ensures
            final(self).wf(),
            Self::finishes_all(old(self), final(self), ids@, holders@),
    {
        let mut k: usize = 0;
        proof {
            assert(self.dying() =~= old(self).dying().filter(|id: u32| !Self::released_within(ids@, holders@, 0, id)));
            assert(self.windows() =~= old(self).windows().restrict(self.alive()));
        }
        while k < ids.len()
            invariant
                k <= ids@.len(),
                ids@.len() == holders@.len(),
                self.wf(),
                old(self).wf(),
                Self::finishes_first(old(self), self, ids@, holders@, k as int),
            decreases ids@.len() - k,
        {
            let ghost mid = *self;
            let id = ids[k];
            let h = holders[k];
            let r = self.finish_closing_window_given(WindowId(id), h);
            proof {
                let n = k as int;
                assert forall|x: u32| Self::released_within(ids@, holders@, n + 1, x)
                    <==> (Self::released_within(ids@, holders@, n, x) || (x == id && h <= 1)) by {
                    if Self::released_within(ids@, holders@, n + 1, x) {
                        let i = choose|i: int| 0 <= i < n + 1 && #[trigger] ids@[i] == x && holders@[i] <= 1;
                        if i < n {
                            assert(Self::released_within(ids@, holders@, n, x));
                        }
                    }
                    if x == id && h <= 1 {
                        assert(ids@[n] == x);
                    }
                    if Self::released_within(ids@, holders@, n, x) {
                        let i = choose|i: int| 0 <= i < n && #[trigger] ids@[i] == x && holders@[i] <= 1;
                        assert(ids@[i] == x);
                    }
                }
                assert(self.dying() =~= old(self).dying().filter(|x: u32| !Self::released_within(ids@, holders@, n + 1, x)));
                assert(self.windows() =~= old(self).windows().restrict(self.alive()));
            }
            k = k + 1;
        }
    }

    /// Reconciliation: one teardown attempt on every dying window, with
    /// the strong-reference count found for it. A dying window held by
    /// the manager alone is dropped; every other window keeps its state.
    pub fn update(&mut self)
        requires
            old(self).wf(),
        ensures
            final(self).wf(),
            Self::reconciles(old(self), final(self)),
    {
        let ids = self.dying_windows.to_vec();
        let mut holders: Vec<usize> = Vec::new();
        let mut i: usize = 0;
        while i < ids.len()
            invariant
                i <= ids@.len(),
                holders@.len() == i,
                forall|j: int| 0 <= j < i ==> holders@[j] >= 1,
            decreases ids@.len() - i,
        {
            let h = match self.windows.get(&ids[i]) {
                Some(window) => strong_count(window),
                None => 1,
            };
            holders.push(h);
            i = i + 1;
        }
        self.finish_closing_all_given(&ids, &holders);
        proof {
            assert(Self::finishes_all(old(self), final(self), ids@, holders@));
        }
    }
}

/// A step of any operation on a manager: the counter never goes back, and
/// `created`, the id that a `create_window` step handed out (`None` for
/// every other step and for a failed creation), is the counter's old value,
/// which the step moves past.
pub open spec fn advances<W>(pre: WindowManager<W>, post: WindowManager<W>, created: Option<WindowId>) -> bool {
    &&& pre.next_id() <= post.next_id()
    &&& created matches Some(id) ==> id.0 == pre.next_id() && post.next_id() == pre.next_id() + 1
}

/// Every `create_window` step advances the counter past the id it hands
/// out. (Every other operation keeps the counter or moves it forward, as
/// its own `ensures` says, so it advances with `None`.)
pub proof fn lemma_create_advances<W>(pre: WindowManager<W>, post: WindowManager<W>, r: Result<WindowId, CreateWindowError>)
    requires
        WindowManager::creates(&pre, &post, r),
    ensures
        advances(pre, post, if r is Ok { Some(r->Ok_0) } else { None }),
{
}

/// The counter never goes back along a run of steps.
proof fn lemma_counter_monotone<W>(states: Seq<WindowManager<W>>, created: Seq<Option<WindowId>>, i: int, j: int)
    requires
        states.len() == created.len() + 1,
        forall|k: int| 0 <= k < created.len() ==> #[trigger] advances(states[k], states[k + 1], created[k]),
        0 <= i <= j < states.len(),
    ensures
        states[i].next_id() <= states[j].next_id(),
    decreases j - i,
{
    if i < j {
        let k = j - 1;
        lemma_counter_monotone(states, created, i, k);
        assert(advances(states[k], states[k + 1], created[k]));
    }
}

/// Along any run of operations on one manager (creations, closings,
/// teardown attempts, reconciliation, ticks, in any order), the ids that
/// `create_window` hands out are pairwise distinct, even after an earlier
/// window has been torn down.
pub proof fn lemma_created_ids_distinct<W>(states: Seq<WindowManager<W>>, created: Seq<Option<WindowId>>)
    requires
        states.len() == created.len() + 1,
        forall|k: int| 0 <= k < created.len() ==> #[trigger] advances(states[k], states[k + 1], created[k]),
    ensures
        forall|i: int, j: int|
            0 <= i < j < created.len() && #[trigger] created[i] is Some && #[trigger] created[j] is Some
                ==> created[i]->Some_0 != created[j]->Some_0,
{
    assert forall|i: int, j: int|
        0 <= i < j < created.len() && #[trigger] created[i] is Some && #[trigger] created[j] is Some
            implies created[i]->Some_0 != created[j]->Some_0 by {
        assert(advances(states[i], states[i + 1], created[i]));
        assert(advances(states[j], states[j + 1], created[j]));
        lemma_counter_monotone(states, created, i + 1, j);
    }
}

/// Right after `begin_closing_window(id)` the id is not active, so
/// `get_window(id)` gives `None`.
pub proof fn lemma_closing_window_not_returned<W>(pre: WindowManager<W>, post: WindowManager<W>, id: WindowId)
    requires
        pre.wf(),
        WindowManager::begins_closing(&pre, &post, id.0),
    ensures
        !post.active().contains(id.0),
{
}

/// A dying window's teardown is refused while another strong reference is
/// held, leaving it dying; once only the manager's reference remains, the
/// retry succeeds and the id is gone from the registry.
pub proof fn lemma_teardown_waits_for_references<W>(
    m0: WindowManager<W>,
    m1: WindowManager<W>,
    m2: WindowManager<W>,
    id: WindowId,
    held: nat,
    r1: bool,
    r2: bool,
)
    requires
        m0.wf(),
        m0.dying().contains(id.0),
        held > 1,
        WindowManager::finishes_closing(&m0, &m1, id.0, held, r1),
        WindowManager::finishes_closing(&m1, &m2, id.0, 1, r2),
    ensures
        !r1,
        m1.dying().contains(id.0),
        r2,
        !m2.alive().contains(id.0),
        !m2.windows().contains_key(id.0),
{
}

} // verus!
