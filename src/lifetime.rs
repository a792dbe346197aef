use vstd::prelude::*;

verus! {

/// The renderer's GPU objects whose lifetimes depend on one another.
#[derive(Clone, Copy, Debug, PartialEq, Eq, Structural)]
pub enum Resource {
    Instance,
    Debug,
    Surface,
    Device,
    Swapchain,
    RenderPass,
    Pipeline,
    CommandPools,
}

/// The number of kinds of `Resource`.
pub const RESOURCE_COUNT: usize = 8;

impl Resource {
    pub open spec fn id(self) -> int {
        match self {
            Resource::Instance => 0,
            Resource::Debug => 1,
            Resource::Surface => 2,
            Resource::Device => 3,
            Resource::Swapchain => 4,
            Resource::RenderPass => 5,
            Resource::Pipeline => 6,
            Resource::CommandPools => 7,
        }
    }

    /// The position of the resource in a tracker's table.
    pub fn slot(&self) -> (r: usize)
        ensures
            r == self.id(),
    {
        match self {
            Resource::Instance => 0,
            Resource::Debug => 1,
            Resource::Surface => 2,
            Resource::Device => 3,
            Resource::Swapchain => 4,
            Resource::RenderPass => 5,
            Resource::Pipeline => 6,
            Resource::CommandPools => 7,
        }
    }
}

pub open spec fn resource_at(i: int) -> Resource {
    if i <= 0 {
        Resource::Instance
    } else if i == 1 {
        Resource::Debug
    } else if i == 2 {
        Resource::Surface
    } else if i == 3 {
        Resource::Device
    } else if i == 4 {
        Resource::Swapchain
    } else if i == 5 {
        Resource::RenderPass
    } else if i == 6 {
        Resource::Pipeline
    } else {
        Resource::CommandPools
    }
}

fn resource_at_slot(i: usize) -> (r: Resource)
    requires
        i < RESOURCE_COUNT,
    ensures
        r == resource_at(i as int),
        r.id() == i,
{
    if i == 0 {
        Resource::Instance
    } else if i == 1 {
        Resource::Debug
    } else if i == 2 {
        Resource::Surface
    } else if i == 3 {
        Resource::Device
    } else if i == 4 {
        Resource::Swapchain
    } else if i == 5 {
        Resource::RenderPass
    } else if i == 6 {
        Resource::Pipeline
    } else {
        Resource::CommandPools
    }
}

/// `a` is made from `b` or refers to it, so `b` has to outlive `a`. The command
/// buffers of the pools are recorded against the pipeline, the render pass and the
/// swapchain's framebuffers.
pub open spec fn depends_on(a: Resource, b: Resource) -> bool {
    match a {
        Resource::Instance => false,
        Resource::Debug => b == Resource::Instance,
        Resource::Surface => b == Resource::Instance,
        Resource::Device => b == Resource::Instance,
        Resource::Swapchain => b == Resource::Device || b == Resource::Surface,
        Resource::RenderPass => b == Resource::Device,
        Resource::Pipeline => b == Resource::Device || b == Resource::RenderPass,
        Resource::CommandPools => b == Resource::Device || b == Resource::Pipeline || b
            == Resource::RenderPass || b == Resource::Swapchain,
    }
}

/// Whether `a` depends on `b`.
pub fn uses(a: Resource, b: Resource) -> (r: bool)
    ensures
        r == depends_on(a, b),
{
    match a {
        Resource::Instance => false,
        Resource::Debug => b == Resource::Instance,
        Resource::Surface => b == Resource::Instance,
        Resource::Device => b == Resource::Instance,
        Resource::Swapchain => b == Resource::Device || b == Resource::Surface,
        Resource::RenderPass => b == Resource::Device,
        Resource::Pipeline => b == Resource::Device || b == Resource::RenderPass,
        Resource::CommandPools => b == Resource::Device || b == Resource::Pipeline || b
            == Resource::RenderPass || b == Resource::Swapchain,
    }
}

/// The order in which a fully built renderer is taken down.
pub open spec fn teardown_order() -> Seq<Resource> {
    seq![
        Resource::CommandPools,
        Resource::Pipeline,
        Resource::RenderPass,
        Resource::Swapchain,
        Resource::Device,
        Resource::Surface,
        Resource::Debug,
        Resource::Instance,
    ]
}

/// The order in which the renderer is built.
pub open spec fn creation_order() -> Seq<Resource> {
    seq![
        Resource::Instance,
        Resource::Debug,
        Resource::Surface,
        Resource::Device,
        Resource::Swapchain,
        Resource::RenderPass,
        Resource::Pipeline,
        Resource::CommandPools,
    ]
}

/// A misordered or repeated creation or destruction.
#[derive(Clone, Copy, Debug, PartialEq, Eq, Structural)]
pub enum LifetimeError {
    /// A destruction came before the wait for the device to be idle.
    DeviceBusy,
    /// The resource exists already.
    AlreadyCreated(Resource),
    /// The resource does not exist (any more).
    AlreadyDestroyed(Resource),
    /// `resource` cannot be made before `dependency`.
    MissingDependency { resource: Resource, dependency: Resource },
    /// `resource` cannot be destroyed while `dependent` still uses it.
    StillInUse { resource: Resource, dependent: Resource },
    /// The teardown ended with this resource still alive.
    Incomplete(Resource),
}

/// One call of a teardown, as a recording backend sees it.
#[derive(Clone, Copy, Debug, PartialEq, Eq, Structural)]
pub enum TeardownCall {
    WaitIdle,
    Destroy(Resource),
}

/// The first resource, from table position `i` on, that is alive and uses `r`.
pub open spec fn first_dependent_from(alive: Seq<bool>, r: Resource, i: int) -> Option<Resource>
    decreases RESOURCE_COUNT - i,
{
    if i >= RESOURCE_COUNT || i < 0 {
        None
    } else if alive[i] && depends_on(resource_at(i), r) {
        Some(resource_at(i))
    } else {
        first_dependent_from(alive, r, i + 1)
    }
}

/// The first resource, from table position `i` on, that `r` uses and that is not alive.
pub open spec fn first_missing_from(alive: Seq<bool>, r: Resource, i: int) -> Option<Resource>
    decreases RESOURCE_COUNT - i,
{
    if i >= RESOURCE_COUNT || i < 0 {
        None
    } else if !alive[i] && depends_on(r, resource_at(i)) {
        Some(resource_at(i))
    } else {
        first_missing_from(alive, r, i + 1)
    }
}

/// The table after a creation of `r`, or why it is refused.
pub open spec fn create_result(alive: Seq<bool>, r: Resource) -> Result<Seq<bool>, LifetimeError> {
    if alive[r.id()] {
        Err(LifetimeError::AlreadyCreated(r))
    } else if let Some(d) = first_missing_from(alive, r, 0) {
        Err(LifetimeError::MissingDependency { resource: r, dependency: d })
    } else {
        Ok(alive.update(r.id(), true))
    }
}

/// The table after a destruction of `r`, or why it is refused.
pub open spec fn destroy_result(alive: Seq<bool>, idle: bool, r: Resource) -> Result<
    Seq<bool>,
    LifetimeError,
> {
    if !idle {
        Err(LifetimeError::DeviceBusy)
    } else if !alive[r.id()] {
        Err(LifetimeError::AlreadyDestroyed(r))
    } else if let Some(d) = first_dependent_from(alive, r, 0) {
        Err(LifetimeError::StillInUse { resource: r, dependent: d })
    } else {
        Ok(alive.update(r.id(), false))
    }
}

/// No live resource uses one that is gone.
pub open spec fn no_dangling(alive: Seq<bool>) -> bool {
    forall|a: Resource, b: Resource|
        alive[a.id()] && #[trigger] depends_on(a, b) ==> alive[b.id()]
}

pub open spec fn all_alive() -> Seq<bool> {
    Seq::new(RESOURCE_COUNT as nat, |i: int| true)
}

pub open spec fn none_alive() -> Seq<bool> {
    Seq::new(RESOURCE_COUNT as nat, |i: int| false)
}

/// The first resource, from table position `i` on, that is still alive.
pub open spec fn first_alive_from(alive: Seq<bool>, i: int) -> Option<Resource>
    decreases RESOURCE_COUNT - i,
{
    if i >= RESOURCE_COUNT || i < 0 {
        None
    } else if alive[i] {
        Some(resource_at(i))
    } else {
        first_alive_from(alive, i + 1)
    }
}

/// Replays recorded teardown calls from the table `alive`, with the device idle or
/// not: the table at the end, or the first refusal. At the end every resource has to
/// be gone.
pub open spec fn replay_teardown(alive: Seq<bool>, idle: bool, calls: Seq<TeardownCall>) -> Result<
    Seq<bool>,
    LifetimeError,
>
    decreases calls.len(),
{
    if calls.len() == 0 {
        match first_alive_from(alive, 0) {
            Some(r) => Err(LifetimeError::Incomplete(r)),
            None => Ok(alive),
        }
    } else {
        match calls[0] {
            TeardownCall::WaitIdle => replay_teardown(alive, true, calls.drop_first()),
            TeardownCall::Destroy(r) => match destroy_result(alive, idle, r) {
                Ok(next) => replay_teardown(next, idle, calls.drop_first()),
                Err(e) => Err(e),
            },
        }
    }
}

/// Which of the renderer's resources are alive, and whether the device was waited idle.
pub struct ResourceTracker {
    alive: Vec<bool>,
    idle: bool,
}

impl ResourceTracker {
    pub closed spec fn alive_view(&self) -> Seq<bool> {
        self.alive@
    }

    pub closed spec fn idle_view(&self) -> bool {
        self.idle
    }

    pub open spec fn is_alive(&self, r: Resource) -> bool {
        self.alive_view()[r.id()]
    }

    pub closed spec fn wf(&self) -> bool {
        self.alive@.len() == RESOURCE_COUNT && no_dangling(self.alive@)
    }

    /// A tracker with nothing created yet.
    pub fn new() -> (r: ResourceTracker)
        ensures
            r.wf(),
            r.alive_view() == none_alive(),
            !r.idle_view(),
    {
        let mut alive: Vec<bool> = Vec::new();
        let mut i: usize = 0;
        while i < RESOURCE_COUNT
            invariant
                i <= RESOURCE_COUNT,
                alive@ == Seq::new(i as nat, |j: int| false),
            decreases RESOURCE_COUNT - i,
        {
            alive.push(false);
            assert(alive@ =~= Seq::new((i + 1) as nat, |j: int| false));
            i = i + 1;
        }
        ResourceTracker { alive, idle: false }
    }

    /// Whether `r` is alive.
    pub fn alive(&self, r: Resource) -> (b: bool)
        requires
            self.wf(),
        ensures
            b == self.is_alive(r),
    {
        self.alive[r.slot()]
    }

    /// A tracker for a fully built renderer: everything alive, the device busy.
    pub fn fully_built() -> (r: ResourceTracker)
        ensures
            r.wf(),
            r.alive_view() == all_alive(),
            !r.idle_view(),
    {
        let mut alive: Vec<bool> = Vec::new();
        let mut i: usize = 0;
        while i < RESOURCE_COUNT
            invariant
                i <= RESOURCE_COUNT,
                alive@ == Seq::new(i as nat, |j: int| true),
            decreases RESOURCE_COUNT - i,
        {
            alive.push(true);
            assert(alive@ =~= Seq::new((i + 1) as nat, |j: int| true));
            i = i + 1;
        }
        ResourceTracker { alive, idle: false }
    }

    /// The resource to destroy next: the live one that comes first in
    /// `teardown_order`. Once the device is idle its destruction is always accepted.
    pub fn next_teardown(&self) -> (r: Option<Resource>)
        requires
            self.wf(),
        ensures
            match r {
                Some(x) => {
                    &&& self.is_alive(x)
                    &&& forall|j: int| x.id() < j < RESOURCE_COUNT ==> !self.alive_view()[j]
                    &&& destroy_result(self.alive_view(), true, x) is Ok
                },
                None => self.alive_view() == none_alive(),
            },
    {
        let mut k: usize = 0;
        while k < RESOURCE_COUNT
            invariant
                k <= RESOURCE_COUNT,
                self.wf(),
                forall|j: int| RESOURCE_COUNT - k <= j < RESOURCE_COUNT ==> !self.alive@[j],
            decreases RESOURCE_COUNT - k,
        {
            let i = RESOURCE_COUNT - 1 - k;
            if self.alive[i] {
                let x = resource_at_slot(i);
                proof {
                    lemma_no_dependent_from(self.alive@, x, 0);
                }
                return Some(x);
            }
            k = k + 1;
        }
        assert(self.alive@ =~= none_alive());
        None
    }

    /// Replays a recorded teardown of a fully built renderer: `Ok` when every call is
    /// accepted and nothing is left alive, else the first refusal.
    pub fn check_teardown(calls: &Vec<TeardownCall>) -> (r: Result<(), LifetimeError>)
        ensures
            match replay_teardown(all_alive(), false, calls@) {
                Ok(_) => r is Ok,
                Err(e) => r == Err::<(), LifetimeError>(e),
            },
    {
        let mut tracker = ResourceTracker::fully_built();
        assert(calls@.subrange(0, calls.len() as int) =~= calls@);
        let mut i: usize = 0;
        while i < calls.len()
            invariant
                i <= calls.len(),
                tracker.wf(),
                replay_teardown(all_alive(), false, calls@) == replay_teardown(
                    tracker.alive_view(),
                    tracker.idle_view(),
                    calls@.subrange(i as int, calls.len() as int),
                ),
            decreases calls.len() - i,
        {
            let ghost rest = calls@.subrange(i as int, calls.len() as int);
            assert(rest.drop_first() =~= calls@.subrange(i + 1, calls.len() as int));
            assert(rest[0] == calls@[i as int]);
            match calls[i] {
                TeardownCall::WaitIdle => tracker.wait_idle(),
                TeardownCall::Destroy(r) => {
                    let res = tracker.destroy(r);
                    if let Err(e) = res {
                        return Err(e);
                    }
                },
            }
            i = i + 1;
        }
        assert(calls@.subrange(calls.len() as int, calls.len() as int).len() == 0);
        match tracker.first_alive() {
            Some(x) => Err(LifetimeError::Incomplete(x)),
            None => Ok(()),
        }
    }

    fn first_alive(&self) -> (r: Option<Resource>)
        requires
            self.wf(),
        ensures
            r == first_alive_from(self.alive_view(), 0),
    {
        let mut i: usize = 0;
        while i < RESOURCE_COUNT
            invariant
                i <= RESOURCE_COUNT,
                self.wf(),
                first_alive_from(self.alive@, 0) == first_alive_from(self.alive@, i as int),
            decreases RESOURCE_COUNT - i,
        {
            if self.alive[i] {
                return Some(resource_at_slot(i));
            }
            i = i + 1;
        }
        None
    }

    /// Records that the device finished all its work.
    pub fn wait_idle(&mut self)
        requires
            old(self).wf(),
        ensures
            final(self).wf(),
            final(self).idle_view(),
            final(self).alive_view() == old(self).alive_view(),
    {
        self.idle = true;
    }

    /// Records the creation of `r`, refused while `r` exists or one that it uses does
    /// not.
    pub fn create(&mut self, r: Resource) -> (res: Result<(), LifetimeError>)
        requires
            old(self).wf(),
        ensures
            final(self).wf(),
            final(self).idle_view() == old(self).idle_view(),
            match create_result(old(self).alive_view(), r) {
                Ok(next) => res is Ok && final(self).alive_view() == next,
                Err(e) => res == Err::<(), LifetimeError>(e) && final(self).alive_view()
                    == old(self).alive_view(),
            },
    {
        let s = r.slot();
        if self.alive[s] {
            return Err(LifetimeError::AlreadyCreated(r));
        }
        let mut i: usize = 0;
        while i < RESOURCE_COUNT
            invariant
                i <= RESOURCE_COUNT,
                self.wf(),
                *self == *old(self),
                !self.alive@[r.id()],
                first_missing_from(self.alive@, r, 0) == first_missing_from(self.alive@, r, i as int),
            decreases RESOURCE_COUNT - i,
        {
            let d = resource_at_slot(i);
            if !self.alive[i] && uses(r, d) {
                return Err(LifetimeError::MissingDependency { resource: r, dependency: d });
            }
            i = i + 1;
        }
        proof {
            assert(first_missing_from(self.alive@, r, 0) is None);
            assert forall|b: Resource| depends_on(r, b) implies self.alive@[b.id()] by {
                lemma_missing_none(self.alive@, r, 0, b);
            }
        }
        self.alive.set(s, true);
        Ok(())
    }

    /// Records the destruction of `r`, refused before the device was waited idle, when
    /// `r` is gone already, and while a live resource uses it.
    pub fn destroy(&mut self, r: Resource) -> (res: Result<(), LifetimeError>)
        requires
            old(self).wf(),
        ensures
            final(self).wf(),
            final(self).idle_view() == old(self).idle_view(),
            match destroy_result(old(self).alive_view(), old(self).idle_view(), r) {
                Ok(next) => res is Ok && final(self).alive_view() == next,
                Err(e) => res == Err::<(), LifetimeError>(e) && final(self).alive_view()
                    == old(self).alive_view(),
            },
    {
        if !self.idle {
            return Err(LifetimeError::DeviceBusy);
        }
        let s = r.slot();
        if !self.alive[s] {
            return Err(LifetimeError::AlreadyDestroyed(r));
        }
        let mut i: usize = 0;
        while i < RESOURCE_COUNT
            invariant
                i <= RESOURCE_COUNT,
                self.wf(),
                *self == *old(self),
                self.idle,
                self.alive@[r.id()],
                first_dependent_from(self.alive@, r, 0) == first_dependent_from(
                    self.alive@,
                    r,
                    i as int,
                ),
            decreases RESOURCE_COUNT - i,
        {
            let d = resource_at_slot(i);
            if self.alive[i] && uses(d, r) {
                return Err(LifetimeError::StillInUse { resource: r, dependent: d });
            }
            i = i + 1;
        }
        proof {
            assert forall|a: Resource| depends_on(a, r) implies !self.alive@[a.id()] by {
                lemma_dependent_none(self.alive@, r, 0, a);
            }
        }
        self.alive.set(s, false);
        Ok(())
    }
}

/// The calls of the canonical teardown: a wait for the device to be idle, then one
/// destruction per resource in `teardown_order`.
pub open spec fn canonical_teardown() -> Seq<TeardownCall> {
    seq![TeardownCall::WaitIdle] + teardown_order().map_values(|r: Resource| TeardownCall::Destroy(r))
}

/// A resource is only ever made from resources listed before it in the table.
pub proof fn lemma_dependencies_come_first(a: Resource, b: Resource)
    requires
        depends_on(a, b),
    ensures
        b.id() < a.id(),
{
}

/// Taking down a fully built renderer in the canonical order is accepted at every step
/// and leaves nothing alive.
pub proof fn lemma_canonical_teardown_succeeds()
    ensures
        replay_teardown(all_alive(), false, canonical_teardown()) == Ok::<Seq<bool>, LifetimeError>(
            none_alive(),
        ),
{
    let calls = canonical_teardown();
    let destroys = teardown_order().map_values(|r: Resource| TeardownCall::Destroy(r));
    assert(calls.drop_first() =~= destroys.subrange(0, 8));
    assert(prefix_alive(8) =~= all_alive());
    lemma_replay_canonical_from(0);
}

/// A teardown that a replay accepts never leaves a live resource that uses one already
/// destroyed: a use-after-destroy ordering is always refused.
pub proof fn lemma_replay_never_dangles(alive: Seq<bool>, idle: bool, calls: Seq<TeardownCall>)
    requires
        alive.len() == RESOURCE_COUNT,
        no_dangling(alive),
    ensures
        replay_teardown(alive, idle, calls) matches Ok(end) ==> no_dangling(end) && end
            == none_alive(),
    decreases calls.len(),
{
    if calls.len() == 0 {
        if first_alive_from(alive, 0) is None {
            assert forall|i: int| 0 <= i < RESOURCE_COUNT implies !alive[i] by {
                lemma_first_alive_none(alive, 0, i);
            }
            assert(alive =~= none_alive());
        }
    } else {
        match calls[0] {
            TeardownCall::WaitIdle => lemma_replay_never_dangles(alive, true, calls.drop_first()),
            TeardownCall::Destroy(r) => {
                if let Ok(next) = destroy_result(alive, idle, r) {
                    lemma_destroy_keeps_no_dangling(alive, r);
                    lemma_replay_never_dangles(next, idle, calls.drop_first());
                }
            },
        }
    }
}

/// A resource is destroyed at most once: a second destruction is refused.
pub proof fn lemma_second_destroy_refused(alive: Seq<bool>, r: Resource)
    requires
        alive.len() == RESOURCE_COUNT,
        destroy_result(alive, true, r) is Ok,
    ensures
        destroy_result(destroy_result(alive, true, r)->Ok_0, true, r)
            == Err::<Seq<bool>, LifetimeError>(LifetimeError::AlreadyDestroyed(r)),
{
}

/// Destroying a resource that a live resource still uses is refused, naming the
/// first such user.
pub proof fn lemma_destroy_in_use_refused(alive: Seq<bool>, r: Resource, user: Resource)
    requires
        alive.len() == RESOURCE_COUNT,
        alive[r.id()],
        alive[user.id()],
        depends_on(user, r),
    ensures
        destroy_result(alive, true, r) matches Err(LifetimeError::StillInUse { resource, dependent })
            && resource == r && alive[dependent.id()] && depends_on(dependent, r),
{
    lemma_dependent_some(alive, r, 0, user);
}

/// Building the renderer in `creation_order` is accepted at every step and leaves
/// everything alive.
pub proof fn lemma_creation_order_succeeds(k: int)
    requires
        0 <= k <= RESOURCE_COUNT,
    ensures
        k < RESOURCE_COUNT ==> create_result(prefix_alive(k), creation_order()[k])
            == Ok::<Seq<bool>, LifetimeError>(prefix_alive(k + 1)),
        prefix_alive(RESOURCE_COUNT as int) == all_alive(),
{
    assert(prefix_alive(RESOURCE_COUNT as int) =~= all_alive());
    if k < RESOURCE_COUNT {
        let r = creation_order()[k];
        assert(r == resource_at(k));
        lemma_resource_at_id(r);
        lemma_no_missing_from(prefix_alive(k), r, 0);
        assert(prefix_alive(k).update(k, true) =~= prefix_alive(k + 1));
    }
}

/// The table in which exactly the first `k` resources are alive.
pub open spec fn prefix_alive(k: int) -> Seq<bool> {
    Seq::new(RESOURCE_COUNT as nat, |i: int| i < k)
}

proof fn lemma_no_missing_from(alive: Seq<bool>, r: Resource, i: int)
    requires
        alive == prefix_alive(r.id()),
        0 <= i,
    ensures
        first_missing_from(alive, r, i) is None,
    decreases RESOURCE_COUNT - i,
{
    if i < RESOURCE_COUNT {
        if depends_on(r, resource_at(i)) {
            lemma_resource_at_id_of(i);
            lemma_dependencies_come_first(r, resource_at(i));
        }
        lemma_no_missing_from(alive, r, i + 1);
    }
}

proof fn lemma_replay_canonical_from(k: int)
    requires
        0 <= k <= RESOURCE_COUNT,
    ensures
        replay_teardown(
            prefix_alive(RESOURCE_COUNT - k),
            true,
            teardown_order().map_values(|r: Resource| TeardownCall::Destroy(r)).subrange(k, 8),
        ) == Ok::<Seq<bool>, LifetimeError>(none_alive()),
    decreases RESOURCE_COUNT - k,
{
    let destroys = teardown_order().map_values(|r: Resource| TeardownCall::Destroy(r));
    let alive = prefix_alive(RESOURCE_COUNT - k);
    let rest = destroys.subrange(k, 8);
    if k == RESOURCE_COUNT {
        assert(alive =~= none_alive());
        lemma_first_alive_none_all(alive, 0);
    } else {
        let r = resource_at(7 - k);
        assert(teardown_order()[k] == r);
        assert(rest[0] == TeardownCall::Destroy(r));
        lemma_resource_at_id_of(7 - k);
        lemma_no_dependent_from(alive, r, 0);
        assert(alive.update(r.id(), false) =~= prefix_alive(RESOURCE_COUNT - (k + 1)));
        assert(rest.drop_first() =~= destroys.subrange(k + 1, 8));
        lemma_replay_canonical_from(k + 1);
    }
}

proof fn lemma_resource_at_id_of(i: int)
    requires
        0 <= i < RESOURCE_COUNT,
    ensures
        resource_at(i).id() == i,
{
}

proof fn lemma_no_dependent_from(alive: Seq<bool>, r: Resource, i: int)
    requires
        alive.len() == RESOURCE_COUNT,
        forall|j: int| r.id() < j < RESOURCE_COUNT ==> !alive[j],
        0 <= i,
    ensures
        first_dependent_from(alive, r, i) is None,
    decreases RESOURCE_COUNT - i,
{
    if i < RESOURCE_COUNT {
        if depends_on(resource_at(i), r) {
            lemma_resource_at_id_of(i);
            lemma_dependencies_come_first(resource_at(i), r);
        }
        lemma_no_dependent_from(alive, r, i + 1);
    }
}

proof fn lemma_first_alive_none_all(alive: Seq<bool>, i: int)
    requires
        alive == none_alive(),
        0 <= i,
    ensures
        first_alive_from(alive, i) is None,
    decreases RESOURCE_COUNT - i,
{
    if i < RESOURCE_COUNT {
        lemma_first_alive_none_all(alive, i + 1);
    }
}

proof fn lemma_first_alive_none(alive: Seq<bool>, i: int, j: int)
    requires
        0 <= i <= j < RESOURCE_COUNT,
        first_alive_from(alive, i) is None,
    ensures
        !alive[j],
    decreases RESOURCE_COUNT - i,
{
    if i < j {
        lemma_first_alive_none(alive, i + 1, j);
    }
}

proof fn lemma_dependent_some(alive: Seq<bool>, r: Resource, i: int, user: Resource)
    requires
        0 <= i <= user.id(),
        alive[user.id()],
        depends_on(user, r),
    ensures
        first_dependent_from(alive, r, i) matches Some(d) && alive[d.id()] && depends_on(d, r),
    decreases RESOURCE_COUNT - i,
{
    lemma_resource_at_id(user);
    if i < RESOURCE_COUNT {
        lemma_resource_at_id_of(i);
    }
    if i < user.id() && !(alive[i] && depends_on(resource_at(i), r)) {
        lemma_dependent_some(alive, r, i + 1, user);
    }
}

proof fn lemma_destroy_keeps_no_dangling(alive: Seq<bool>, r: Resource)
    requires
        alive.len() == RESOURCE_COUNT,
        no_dangling(alive),
        destroy_result(alive, true, r) is Ok,
    ensures
        no_dangling(destroy_result(alive, true, r)->Ok_0),
{
    let next = alive.update(r.id(), false);
    lemma_resource_at_id(r);
    assert forall|a: Resource, b: Resource|
        next[a.id()] && #[trigger] depends_on(a, b) implies next[b.id()] by {
        lemma_resource_at_id(a);
        lemma_resource_at_id(b);
        if b == r {
            lemma_dependent_none(alive, r, 0, a);
        }
    }
}

proof fn lemma_resource_at_id(r: Resource)
    ensures
        resource_at(r.id()) == r,
        0 <= r.id() < RESOURCE_COUNT,
{
}

proof fn lemma_missing_none(alive: Seq<bool>, r: Resource, i: int, b: Resource)
    requires
        0 <= i <= b.id(),
        first_missing_from(alive, r, i) is None,
        depends_on(r, b),
    ensures
        alive[b.id()],
    decreases RESOURCE_COUNT - i,
{
    lemma_resource_at_id(b);
    if i < b.id() {
        lemma_missing_none(alive, r, i + 1, b);
    }
}

proof fn lemma_dependent_none(alive: Seq<bool>, r: Resource, i: int, a: Resource)
    requires
        0 <= i <= a.id(),
        first_dependent_from(alive, r, i) is None,
        depends_on(a, r),
    ensures
        !alive[a.id()],
    decreases RESOURCE_COUNT - i,
{
    lemma_resource_at_id(a);
    if i < a.id() {
        lemma_dependent_none(alive, r, i + 1, a);
    }
}

} // verus!
