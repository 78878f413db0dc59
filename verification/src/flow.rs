use vstd::prelude::*;

use crate::coroutine::{coroutine_stepped, sync_stepped, AsyncCoroutine, SyncCoroutine};
use crate::future::{future_stepped, AsyncFuture};
use crate::generator::{completed_base, GeneratorBase};
use crate::host::StepHost;
use crate::timer::{periodic_stepped, timer_stepped, PeriodicTimer, Timer};
use crate::trigger::{trigger_stepped, Trigger};

verus! {

/// An unordered group of children.  Stepping fans out to every eligible
/// child; the node itself never completes on account of its children.
pub struct Node<T> {
    pub base: GeneratorBase,
    pub children: Vec<Generator<T>>,
}

/// An ordered walk: exactly one child — the one under the cursor — is live at
/// a time, and the cursor only ever moves forward, past completed children.
pub struct Sequence<T> {
    pub base: GeneratorBase,
    pub children: Vec<Generator<T>>,
    pub current_index: usize,
}

/// A parallel join: steps every eligible child like a node and completes
/// itself exactly when every child is completed (immediately, when empty).
pub struct Barrier<T> {
    pub base: GeneratorBase,
    pub children: Vec<Generator<T>>,
}

/// The closed sum of every node kind that shares the polling contract.
/// Composites hold children of this type, so a tree of any shape can be
/// built; `T` is the value type carried by futures and poll-driven
/// coroutines in the tree.
pub enum Generator<T> {
    Timer(Timer),
    PeriodicTimer(PeriodicTimer),
    Trigger(Trigger),
    Future(AsyncFuture<T>),
    Coroutine(AsyncCoroutine),
    SyncCoroutine(SyncCoroutine<T>),
    Node(Node<T>),
    Sequence(Sequence<T>),
    Barrier(Barrier<T>),
}

/// The lifecycle state of any generator, whatever its kind.
pub open spec fn gen_base<T>(g: Generator<T>) -> GeneratorBase {
    match g {
        Generator::Timer(t) => t.base,
        Generator::PeriodicTimer(p) => p.base,
        Generator::Trigger(t) => t.base,
        Generator::Future(f) => f.base,
        Generator::Coroutine(c) => c.base,
        Generator::SyncCoroutine(s) => s.base,
        Generator::Node(n) => n.base,
        Generator::Sequence(s) => s.base,
        Generator::Barrier(b) => b.base,
    }
}

/// The same generator with its lifecycle state replaced.
pub open spec fn with_base<T>(g: Generator<T>, b: GeneratorBase) -> Generator<T> {
    match g {
        Generator::Timer(t) => Generator::Timer(Timer { base: b, ..t }),
        Generator::PeriodicTimer(p) => Generator::PeriodicTimer(PeriodicTimer { base: b, ..p }),
        Generator::Trigger(t) => Generator::Trigger(Trigger { base: b, ..t }),
        Generator::Future(f) => Generator::Future(AsyncFuture { base: b, ..f }),
        Generator::Coroutine(c) => Generator::Coroutine(AsyncCoroutine { base: b, ..c }),
        Generator::SyncCoroutine(s) => Generator::SyncCoroutine(SyncCoroutine { base: b, ..s }),
        Generator::Node(n) => Generator::Node(Node { base: b, ..n }),
        Generator::Sequence(s) => Generator::Sequence(Sequence { base: b, ..s }),
        Generator::Barrier(b2) => Generator::Barrier(Barrier { base: b, ..b2 }),
    }
}

/// Structural height of a tree, used as the termination measure of the walk.
pub open spec fn gen_height<T>(g: Generator<T>) -> nat
    decreases g,
{
    match g {
        Generator::Node(n) => 1 + kids_height(n.children@),
        Generator::Sequence(s) => 1 + kids_height(s.children@),
        Generator::Barrier(b) => 1 + kids_height(b.children@),
        _ => 0,
    }
}

/// The greatest height among a list of children.
pub open spec fn kids_height<T>(s: Seq<Generator<T>>) -> nat
    decreases s,
{
    if s.len() == 0 {
        0
    } else {
        let h0 = gen_height(s[0]);
        let hr = kids_height(s.drop_first());
        if h0 > hr {
            h0
        } else {
            hr
        }
    }
}

/// Every child's height is bounded by the greatest height in the list.
pub proof fn lemma_kids_height_bound<T>(s: Seq<Generator<T>>, i: int)
    requires
        0 <= i < s.len(),
    ensures
        gen_height(s[i]) <= kids_height(s),
    decreases s.len(),
{
    if i > 0 {
        lemma_kids_height_bound(s.drop_first(), i - 1);
        assert(s.drop_first()[i - 1] == s[i]);
    }
}

/// Well-formedness of a tree: flag invariants everywhere, and in a sequence a
/// sound cursor behind which every child is completed.
pub open spec fn gen_wf<T>(g: Generator<T>) -> bool
    decreases g,
{
    match g {
        Generator::Timer(t) => t.inv(),
        Generator::PeriodicTimer(p) => p.inv(),
        Generator::Trigger(t) => t.inv(),
        Generator::Future(f) => f.inv(),
        Generator::Coroutine(c) => c.inv(),
        Generator::SyncCoroutine(s) => s.inv(),
        Generator::Node(n) => n.base.inv() && kids_wf(n.children@),
        Generator::Sequence(s) => s.base.inv() && kids_wf(s.children@) && s.current_index
            <= s.children@.len() && (forall|i: int|
            0 <= i < s.current_index ==> gen_base(#[trigger] s.children@[i]).completed),
        Generator::Barrier(b) => b.base.inv() && kids_wf(b.children@),
    }
}

/// Well-formedness of every child in a list.
pub open spec fn kids_wf<T>(s: Seq<Generator<T>>) -> bool
    decreases s,
{
    forall|i: int| 0 <= i < s.len() ==> gen_wf(#[trigger] s[i])
}

/// Whether every child in a list is completed.
pub open spec fn all_completed<T>(s: Seq<Generator<T>>) -> bool {
    forall|i: int| 0 <= i < s.len() ==> gen_base(#[trigger] s[i]).completed
}

/// What one `step` call may do to a generator.  An ineligible generator is
/// untouched.  Timers and futures move by their pure transition on `now`;
/// triggers, detached coroutines and poll-driven coroutines move by their
/// transition on whatever the host's predicate, the runtime, or the host's
/// step function answered — the relation holds for every possible answer, and
/// for nothing else.  Composites move childwise as their walk prescribes.
pub open spec fn gen_step_rel<T>(pre: Generator<T>, post: Generator<T>, now: u64) -> bool
    decreases pre,
{
    if !gen_base(pre).can_step() {
        post == pre
    } else {
        match pre {
            Generator::Timer(t) => post == Generator::<T>::Timer(timer_stepped(t, now)),
            Generator::PeriodicTimer(p) => post == Generator::<T>::PeriodicTimer(periodic_stepped(p, now)),
            Generator::Trigger(t) => exists|c: bool|
                post == Generator::<T>::Trigger(#[trigger] trigger_stepped(t, c)),
            Generator::Future(f) => post == Generator::<T>::Future(future_stepped(f)),
            Generator::Coroutine(c) => exists|fin: bool|
                post == Generator::<T>::Coroutine(#[trigger] coroutine_stepped(c, fin)),
            Generator::SyncCoroutine(s) => exists|o: Option<T>|
                post == Generator::SyncCoroutine(#[trigger] sync_stepped(s, o)),
            Generator::Node(n) => match post {
                Generator::Node(n2) => n2.base == n.base && kids_step_rel(
                    n.children@,
                    n2.children@,
                    now,
                ),
                _ => false,
            },
            Generator::Sequence(s) => match post {
                Generator::Sequence(s2) => sequence_step_rel(s, s2, now),
                _ => false,
            },
            Generator::Barrier(b) => match post {
                Generator::Barrier(b2) => {
                    if b.children@.len() == 0 {
                        b2.base == completed_base(b.base) && b2.children@ == b.children@
                    } else {
                        kids_step_rel(b.children@, b2.children@, now) && b2.base == (
                        if all_completed(b2.children@) {
                            completed_base(b.base)
                        } else {
                            b.base
                        })
                    }
                },
                _ => false,
            },
        }
    }
}

/// Childwise stepping: same length, every child related by one step.
pub open spec fn kids_step_rel<T>(
    pre: Seq<Generator<T>>,
    post: Seq<Generator<T>>,
    now: u64,
) -> bool
    decreases pre,
{
    post.len() == pre.len() && forall|i: int|
        0 <= i < pre.len() ==> gen_step_rel(#[trigger] pre[i], post[i], now)
}

/// One step of an eligible sequence: complete when empty or walked past the
/// end; advance the cursor past a completed child (completing when that was
/// the last one); otherwise step the cursor child alone — every other child
/// is untouched, so no child is ever stepped before all those before it have
/// completed.
pub open spec fn sequence_step_rel<T>(s: Sequence<T>, s2: Sequence<T>, now: u64) -> bool
    decreases s,
{
    if s.children@.len() == 0 {
        s2 == Sequence { base: completed_base(s.base), ..s }
    } else if s.current_index >= s.children@.len() {
        s2 == Sequence { base: completed_base(s.base), ..s }
    } else {
        let cur = s.children@[s.current_index as int];
        if gen_base(cur).completed {
            if s.current_index + 1 >= s.children@.len() {
                s2 == Sequence {
                    base: completed_base(s.base),
                    current_index: (s.current_index + 1) as usize,
                    ..s
                }
            } else {
                s2 == Sequence { current_index: (s.current_index + 1) as usize, ..s }
            }
        } else if gen_base(cur).active && gen_base(cur).running {
            &&& s2.base == s.base
            &&& s2.current_index == s.current_index
            &&& s2.children@.len() == s.children@.len()
            &&& gen_step_rel(cur, s2.children@[s.current_index as int], now)
            &&& forall|i: int|
                0 <= i < s.children@.len() && i != s.current_index ==> s2.children@[i]
                    == s.children@[i]
        } else {
            s2 == s
        }
    }
}

} // verus!

verus! {

impl<T> Generator<T> {
    pub fn id(&self) -> (r: u128)
        ensures
            r == gen_base(*self).id,
    {
        match self {
            Generator::Timer(t) => t.base.id,
            Generator::PeriodicTimer(p) => p.base.id,
            Generator::Trigger(t) => t.base.id,
            Generator::Future(f) => f.base.id,
            Generator::Coroutine(c) => c.base.id,
            Generator::SyncCoroutine(s) => s.base.id,
            Generator::Node(n) => n.base.id,
            Generator::Sequence(s) => s.base.id,
            Generator::Barrier(b) => b.base.id,
        }
    }

    pub fn is_active(&self) -> (r: bool)
        ensures
            r == gen_base(*self).active,
    {
        match self {
            Generator::Timer(t) => t.base.active,
            Generator::PeriodicTimer(p) => p.base.active,
            Generator::Trigger(t) => t.base.active,
            Generator::Future(f) => f.base.active,
            Generator::Coroutine(c) => c.base.active,
            Generator::SyncCoroutine(s) => s.base.active,
            Generator::Node(n) => n.base.active,
            Generator::Sequence(s) => s.base.active,
            Generator::Barrier(b) => b.base.active,
        }
    }

    pub fn is_running(&self) -> (r: bool)
        ensures
            r == gen_base(*self).running,
    {
        match self {
            Generator::Timer(t) => t.base.running,
            Generator::PeriodicTimer(p) => p.base.running,
            Generator::Trigger(t) => t.base.running,
            Generator::Future(f) => f.base.running,
            Generator::Coroutine(c) => c.base.running,
            Generator::SyncCoroutine(s) => s.base.running,
            Generator::Node(n) => n.base.running,
            Generator::Sequence(s) => s.base.running,
            Generator::Barrier(b) => b.base.running,
        }
    }

    pub fn is_completed(&self) -> (r: bool)
        ensures
            r == gen_base(*self).completed,
    {
        match self {
            Generator::Timer(t) => t.base.completed,
            Generator::PeriodicTimer(p) => p.base.completed,
            Generator::Trigger(t) => t.base.completed,
            Generator::Future(f) => f.base.completed,
            Generator::Coroutine(c) => c.base.completed,
            Generator::SyncCoroutine(s) => s.base.completed,
            Generator::Node(n) => n.base.completed,
            Generator::Sequence(s) => s.base.completed,
            Generator::Barrier(b) => b.base.completed,
        }
    }

    /// One polling pass over this generator and (for a composite) its
    /// children.  The state moves exactly as `gen_step_rel` prescribes; the
    /// host hears of every timer, periodic and trigger event fired during the
    /// pass, answers every trigger predicate, and runs every poll-driven
    /// coroutine's step function.
    #[verifier::loop_isolation(false)]
    pub fn step<H: StepHost<T>>(self, now: u64, host: &mut H) -> (r: Generator<T>)
        requires
            gen_wf(self),
        ensures
            gen_step_rel(self, r, now),
            gen_wf(r),
        decreases gen_height(self),
    {
        let ghost g0 = self;
        let eligible = self.is_active() && self.is_running() && !self.is_completed();
        if !eligible {
            return self;
        }
        match self {
            Generator::Timer(mut t) => {
                let id = t.base.id;
                let fired = t.step(now);
                if fired {
                    host.timer_elapsed(id);
                }
                Generator::Timer(t)
            },
            Generator::PeriodicTimer(mut p) => {
                let id = p.base.id;
                let fired = p.step(now);
                if fired {
                    host.periodic_elapsed(id);
                }
                Generator::PeriodicTimer(p)
            },
            Generator::Trigger(mut t) => {
                let ghost t0 = t;
                let id = t.base.id;
                let cond = host.trigger_condition(id);
                let fired = t.step(cond);
                if fired {
                    host.trigger_fired(id);
                }
                let r = Generator::Trigger(t);
                proof {
                    assert(r == Generator::<T>::Trigger(trigger_stepped(t0, cond)));
                }
                r
            },
            Generator::Future(mut f) => {
                f.step();
                Generator::Future(f)
            },
            Generator::Coroutine(mut c) => {
                let ghost c0 = c;
                let fin = c.step();
                let r = Generator::Coroutine(c);
                proof {
                    assert(r == Generator::<T>::Coroutine(coroutine_stepped(c0, fin)));
                }
                r
            },
            Generator::SyncCoroutine(mut s) => {
                let ghost s0 = s;
                let id = s.base.id;
                let out = host.coroutine_step(id);
                let ghost out0 = out;
                s.step(out);
                let r = Generator::SyncCoroutine(s);
                proof {
                    assert(r == Generator::SyncCoroutine(sync_stepped(s0, out0)));
                }
                r
            },
            Generator::Node(n) => {
                let base = n.base;
                let mut kids = n.children;
                let ghost pre = kids@;
                let mut i: usize = 0;
                while i < kids.len()
                    invariant
                        i <= kids@.len(),
                        kids@.len() == pre.len(),
                        kids_wf(pre),
                        gen_height(g0) == 1 + kids_height(pre),
                        forall|j: int|
                            0 <= j < i ==> gen_step_rel(pre[j], #[trigger] kids@[j], now)
                                && gen_wf(kids@[j]),
                        forall|j: int| i <= j < pre.len() ==> kids@[j] == pre[j],
                    decreases pre.len() - i,
                {
                    let c = kids.remove(i);
                    proof {
                        assert(c == pre[i as int]);
                        lemma_kids_height_bound(pre, i as int);
                        assert(gen_height(c) < gen_height(g0));
                    }
                    let c2 = c.step(now, host);
                    kids.insert(i, c2);
                    i = i + 1;
                }
                Generator::Node(Node { base, children: kids })
            },
            Generator::Sequence(mut s) => {
                let ghost s0 = s;
                if s.children.len() == 0 {
                    s.base.complete();
                    return Generator::Sequence(s);
                }
                if s.current_index >= s.children.len() {
                    s.base.complete();
                    return Generator::Sequence(s);
                }
                let idx = s.current_index;
                if s.children[idx].is_completed() {
                    s.current_index = idx + 1;
                    if s.current_index >= s.children.len() {
                        s.base.complete();
                    }
                    Generator::Sequence(s)
                } else if s.children[idx].is_active() && s.children[idx].is_running() {
                    let c = s.children.remove(idx);
                    proof {
                        lemma_kids_height_bound(s0.children@, idx as int);
                    }
                    let c2 = c.step(now, host);
                    s.children.insert(idx, c2);
                    let r = Generator::Sequence(s);
                    proof {
                        assert forall|i: int|
                            0 <= i < s0.children@.len() && i != s0.current_index implies s.children@[i]
                            == s0.children@[i] by {
                            assert(s.children@ == s0.children@.remove(idx as int).insert(
                                idx as int,
                                c2,
                            ));
                        }
                        assert(sequence_step_rel(s0, s, now));
                        assert(kids_wf(s.children@)) by {
                            assert forall|i: int| 0 <= i < s.children@.len() implies gen_wf(
                                #[trigger] s.children@[i],
                            ) by {
                                if i != idx {
                                    assert(s.children@[i] == s0.children@[i]);
                                }
                            }
                        }
                    }
                    r
                } else {
                    Generator::Sequence(s)
                }
            },
            Generator::Barrier(b) => {
                let mut base = b.base;
                if b.children.len() == 0 {
                    base.complete();
                    return Generator::Barrier(Barrier { base, children: b.children });
                }
                let mut kids = b.children;
                let ghost pre = kids@;
                let mut i: usize = 0;
                while i < kids.len()
                    invariant
                        i <= kids@.len(),
                        kids@.len() == pre.len(),
                        kids_wf(pre),
                        gen_height(g0) == 1 + kids_height(pre),
                        forall|j: int|
                            0 <= j < i ==> gen_step_rel(pre[j], #[trigger] kids@[j], now)
                                && gen_wf(kids@[j]),
                        forall|j: int| i <= j < pre.len() ==> kids@[j] == pre[j],
                    decreases pre.len() - i,
                {
                    let c = kids.remove(i);
                    proof {
                        assert(c == pre[i as int]);
                        lemma_kids_height_bound(pre, i as int);
                        assert(gen_height(c) < gen_height(g0));
                    }
                    let c2 = c.step(now, host);
                    kids.insert(i, c2);
                    i = i + 1;
                }
                let mut all = true;
                let mut k: usize = 0;
                while k < kids.len()
                    invariant
                        k <= kids@.len(),
                        all == (forall|j: int|
                            0 <= j < k ==> gen_base(#[trigger] kids@[j]).completed),
                    decreases kids@.len() - k,
                {
                    if !kids[k].is_completed() {
                        all = false;
                    }
                    k = k + 1;
                }
                if all {
                    base.complete();
                }
                Generator::Barrier(Barrier { base, children: kids })
            },
        }
    }
}

} // verus!

verus! {

use vstd::pervasive::unreached;

/// The index of the first child carrying `id`, or -1 when none does.
pub open spec fn find_index<T>(s: Seq<Generator<T>>, id: u128) -> int
    decreases s.len(),
{
    if s.len() == 0 {
        -1
    } else if gen_base(s[0]).id == id {
        0
    } else {
        let r = find_index(s.drop_first(), id);
        if r < 0 {
            -1
        } else {
            1 + r
        }
    }
}

impl<T> Generator<T> {
    pub fn name(&self) -> (r: &Option<String>)
        ensures
            r == &gen_base(*self).name,
    {
        match self {
            Generator::Timer(t) => &t.base.name,
            Generator::PeriodicTimer(p) => &p.base.name,
            Generator::Trigger(t) => &t.base.name,
            Generator::Future(f) => &f.base.name,
            Generator::Coroutine(c) => &c.base.name,
            Generator::SyncCoroutine(s) => &s.base.name,
            Generator::Node(n) => &n.base.name,
            Generator::Sequence(s) => &s.base.name,
            Generator::Barrier(b) => &b.base.name,
        }
    }

    pub fn set_name(&mut self, name: String)
        ensures
            *final(self) == with_base(
                *old(self),
                GeneratorBase { name: Some(name), ..gen_base(*old(self)) },
            ),
    {
        match self {
            Generator::Timer(t) => t.base.set_name(name),
            Generator::PeriodicTimer(p) => p.base.set_name(name),
            Generator::Trigger(t) => t.base.set_name(name),
            Generator::Future(f) => f.base.set_name(name),
            Generator::Coroutine(c) => c.base.set_name(name),
            Generator::SyncCoroutine(s) => s.base.set_name(name),
            Generator::Node(n) => n.base.set_name(name),
            Generator::Sequence(s) => s.base.set_name(name),
            Generator::Barrier(b) => b.base.set_name(name),
        }
    }

    pub fn activate(&mut self)
        ensures
            *final(self) == with_base(
                *old(self),
                GeneratorBase { active: true, ..gen_base(*old(self)) },
            ),
    {
        match self {
            Generator::Timer(t) => t.base.activate(),
            Generator::PeriodicTimer(p) => p.base.activate(),
            Generator::Trigger(t) => t.base.activate(),
            Generator::Future(f) => f.base.activate(),
            Generator::Coroutine(c) => c.base.activate(),
            Generator::SyncCoroutine(s) => s.base.activate(),
            Generator::Node(n) => n.base.activate(),
            Generator::Sequence(s) => s.base.activate(),
            Generator::Barrier(b) => b.base.activate(),
        }
    }

    pub fn deactivate(&mut self)
        ensures
            *final(self) == with_base(
                *old(self),
                GeneratorBase { active: false, ..gen_base(*old(self)) },
            ),
    {
        match self {
            Generator::Timer(t) => t.base.deactivate(),
            Generator::PeriodicTimer(p) => p.base.deactivate(),
            Generator::Trigger(t) => t.base.deactivate(),
            Generator::Future(f) => f.base.deactivate(),
            Generator::Coroutine(c) => c.base.deactivate(),
            Generator::SyncCoroutine(s) => s.base.deactivate(),
            Generator::Node(n) => n.base.deactivate(),
            Generator::Sequence(s) => s.base.deactivate(),
            Generator::Barrier(b) => b.base.deactivate(),
        }
    }

    /// Completes this generator (only): `completed` set, `running` cleared,
    /// idempotently; children of a composite are not touched.
    pub fn complete(&mut self)
        ensures
            *final(self) == with_base(*old(self), completed_base(gen_base(*old(self)))),
    {
        match self {
            Generator::Timer(t) => t.base.complete(),
            Generator::PeriodicTimer(p) => p.base.complete(),
            Generator::Trigger(t) => t.base.complete(),
            Generator::Future(f) => f.base.complete(),
            Generator::Coroutine(c) => c.base.complete(),
            Generator::SyncCoroutine(s) => s.base.complete(),
            Generator::Node(n) => n.base.complete(),
            Generator::Sequence(s) => s.base.complete(),
            Generator::Barrier(b) => b.base.complete(),
        }
    }
}

impl<T> Node<T> {
    pub fn new() -> (r: Node<T>)
        ensures
            r.children@.len() == 0,
            r.base.can_step(),
            r.base.name is None,
            gen_wf(Generator::Node(r)),
    {
        Node { base: GeneratorBase::new(), children: Vec::new() }
    }

    pub fn with_name(name: String) -> (r: Node<T>)
        ensures
            r.children@.len() == 0,
            r.base.can_step(),
            r.base.name == Some(name),
            gen_wf(Generator::Node(r)),
    {
        Node { base: GeneratorBase::with_name(name), children: Vec::new() }
    }

    /// Appends a child; existing children and the node's own state are kept,
    /// and a well-formed child keeps a well-formed node well-formed.
    pub fn add_child(&mut self, child: Generator<T>)
        ensures
            final(self).children@ == old(self).children@.push(child),
            final(self).base == old(self).base,
            gen_wf(Generator::Node(*old(self))) && gen_wf(child) ==> gen_wf(
                Generator::Node(*final(self)),
            ),
    {
        self.children.push(child);
        proof {
            if gen_wf(Generator::Node(*old(self))) && gen_wf(child) {
                assert forall|i: int| 0 <= i < self.children@.len() implies gen_wf(
                    #[trigger] self.children@[i],
                ) by {
                    if i < old(self).children@.len() {
                        assert(self.children@[i] == old(self).children@[i]);
                    }
                }
            }
        }
    }

    /// Removes the first child carrying `id`; reports whether one was found.
    pub fn remove_child(&mut self, id: u128) -> (found: bool)
        ensures
            found == (find_index(old(self).children@, id) >= 0),
            found ==> final(self).children@ == old(self).children@.remove(
                find_index(old(self).children@, id),
            ),
            !found ==> final(self).children@ == old(self).children@,
            final(self).base == old(self).base,
    {
        let mut i: usize = 0;
        while i < self.children.len()
            invariant
                i <= self.children@.len(),
                *self == *old(self),
                forall|j: int| 0 <= j < i ==> gen_base(#[trigger] self.children@[j]).id != id,
            decreases self.children@.len() - i,
        {
            if self.children[i].id() == id {
                proof {
                    lemma_find_index_at(self.children@, id, i as int);
                }
                self.children.remove(i);
                return true;
            }
            i = i + 1;
        }
        proof {
            lemma_find_index_none(self.children@, id);
        }
        false
    }

    pub fn child_count(&self) -> (r: usize)
        ensures
            r == self.children@.len(),
    {
        self.children.len()
    }

    /// A borrow of the child at `i`, for inspection.
    pub fn child(&self, i: usize) -> (r: &Generator<T>)
        requires
            i < self.children@.len(),
        ensures
            r == &self.children@[i as int],
    {
        &self.children[i]
    }

    /// Drops every completed child, keeping the others in order.
    #[verifier::loop_isolation(false)]
    pub fn clear_completed(&mut self)
        ensures
            final(self).children@ == old(self).children@.filter(
                |c: Generator<T>| !gen_base(c).completed,
            ),
            final(self).base == old(self).base,
    {
        let ghost pre = old(self).children@;
        let ghost keep = |c: Generator<T>| !gen_base(c).completed;
        proof {
            reveal_with_fuel(Seq::filter, 1);
            assert(pre.take(0).filter(keep) =~= Seq::<Generator<T>>::empty());
            assert(pre.skip(0) =~= pre);
        }
        let mut i: usize = 0;
        let ghost j: int = 0;
        while i < self.children.len()
            invariant
                0 <= i <= self.children@.len(),
                0 <= j <= pre.len(),
                self.base == old(self).base,
                i == pre.take(j).filter(keep).len(),
                self.children@ == pre.take(j).filter(keep) + pre.skip(j),
            decreases self.children@.len() - i,
        {
            let ghost a = pre.take(j).filter(keep);
            let ghost b = pre.skip(j);
            proof {
                assert(b.len() > 0);
                assert(b[0] == pre[j]);
                assert(self.children@[i as int] == pre[j]);
                assert(pre.take(j + 1).drop_last() =~= pre.take(j));
                assert(pre.take(j + 1).last() == pre[j]);
                reveal_with_fuel(Seq::filter, 2);
                assert(b.drop_first() =~= pre.skip(j + 1));
            }
            if self.children[i].is_completed() {
                self.children.remove(i);
                proof {
                    reveal_with_fuel(Seq::filter, 2);
                    assert(gen_base(pre[j]).completed);
                    assert(!keep(pre[j]));
                    assert(pre.take(j + 1).filter(keep) == a);
                    assert(self.children@ =~= a + pre.skip(j + 1));
                }
            } else {
                i = i + 1;
                proof {
                    reveal_with_fuel(Seq::filter, 2);
                    assert(keep(pre[j]));
                    assert(pre.take(j + 1).filter(keep) == a.push(pre[j]));
                    assert(self.children@ =~= a.push(pre[j]) + pre.skip(j + 1));
                }
            }
            proof {
                j = j + 1;
            }
        }
        proof {
            assert(j == pre.len());
            assert(pre.take(pre.len() as int) =~= pre);
        }
    }
}

/// `find_index` points at `i` when every earlier child misses `id` and the
/// child at `i` carries it.
pub proof fn lemma_find_index_at<T>(s: Seq<Generator<T>>, id: u128, i: int)
    requires
        0 <= i < s.len(),
        gen_base(s[i]).id == id,
        forall|j: int| 0 <= j < i ==> gen_base(#[trigger] s[j]).id != id,
    ensures
        find_index(s, id) == i,
    decreases s.len(),
{
    if i > 0 {
        lemma_find_index_at(s.drop_first(), id, i - 1);
    }
}

/// `find_index` misses exactly when no child carries `id`.
pub proof fn lemma_find_index_none<T>(s: Seq<Generator<T>>, id: u128)
    requires
        forall|j: int| 0 <= j < s.len() ==> gen_base(#[trigger] s[j]).id != id,
    ensures
        find_index(s, id) == -1,
    decreases s.len(),
{
    if s.len() > 0 {
        lemma_find_index_none(s.drop_first(), id);
    }
}

} // verus!

verus! {

impl<T> Node<T> {
    /// One polling pass of this node: fans out to every eligible child as
    /// `gen_step_rel` prescribes for a node; the node's own state is kept.
    pub fn step<H: StepHost<T>>(self, now: u64, host: &mut H) -> (r: Node<T>)
        requires
            gen_wf(Generator::Node(self)),
        ensures
            gen_step_rel(Generator::Node(self), Generator::Node(r), now),
            gen_wf(Generator::Node(r)),
            r.base == self.base,
    {
        let ghost pre = self;
        let g = Generator::Node(self).step(now, host);
        match g {
            Generator::Node(n) => {
                proof {
                    if gen_base(Generator::Node(pre)).can_step() {
                    } else {
                        assert(Generator::<T>::Node(n) == Generator::<T>::Node(pre));
                    }
                }
                n
            },
            _ => {
                proof {
                    assert(false);
                }
                unreached()
            },
        }
    }
}

impl<T> Sequence<T> {
    pub fn new() -> (r: Sequence<T>)
        ensures
            r.children@.len() == 0,
            r.current_index == 0,
            r.base.can_step(),
            r.base.name is None,
            gen_wf(Generator::Sequence(r)),
    {
        Sequence { base: GeneratorBase::new(), children: Vec::new(), current_index: 0 }
    }

    pub fn with_name(name: String) -> (r: Sequence<T>)
        ensures
            r.children@.len() == 0,
            r.current_index == 0,
            r.base.can_step(),
            r.base.name == Some(name),
            gen_wf(Generator::Sequence(r)),
    {
        Sequence { base: GeneratorBase::with_name(name), children: Vec::new(), current_index: 0 }
    }

    /// Appends a child at the end of the walk; the cursor and every existing
    /// child are kept, and a well-formed child keeps a well-formed sequence
    /// well-formed.
    pub fn add_child(&mut self, child: Generator<T>)
        ensures
            final(self).children@ == old(self).children@.push(child),
            final(self).base == old(self).base,
            final(self).current_index == old(self).current_index,
            gen_wf(Generator::Sequence(*old(self))) && gen_wf(child) ==> gen_wf(
                Generator::Sequence(*final(self)),
            ),
    {
        self.children.push(child);
        proof {
            if gen_wf(Generator::Sequence(*old(self))) && gen_wf(child) {
                assert forall|i: int| 0 <= i < self.children@.len() implies gen_wf(
                    #[trigger] self.children@[i],
                ) by {
                    if i < old(self).children@.len() {
                        assert(self.children@[i] == old(self).children@[i]);
                    }
                }
                assert forall|i: int| 0 <= i < self.current_index implies gen_base(
                    #[trigger] self.children@[i],
                ).completed by {
                    assert(self.children@[i] == old(self).children@[i]);
                }
            }
        }
    }

    pub fn current_index(&self) -> (r: usize)
        ensures
            r == self.current_index,
    {
        self.current_index
    }

    pub fn child_count(&self) -> (r: usize)
        ensures
            r == self.children@.len(),
    {
        self.children.len()
    }

    /// A borrow of the child at `i`, for inspection.
    pub fn child(&self, i: usize) -> (r: &Generator<T>)
        requires
            i < self.children@.len(),
        ensures
            r == &self.children@[i as int],
    {
        &self.children[i]
    }

    /// One polling pass of this sequence, as `gen_step_rel` prescribes:
    /// at most the cursor child is stepped, the cursor only moves forward.
    pub fn step<H: StepHost<T>>(self, now: u64, host: &mut H) -> (r: Sequence<T>)
        requires
            gen_wf(Generator::Sequence(self)),
        ensures
            gen_step_rel(Generator::Sequence(self), Generator::Sequence(r), now),
            gen_wf(Generator::Sequence(r)),
    {
        let ghost pre = self;
        let g = Generator::Sequence(self).step(now, host);
        match g {
            Generator::Sequence(s) => {
                proof {
                    if !gen_base(Generator::Sequence(pre)).can_step() {
                        assert(Generator::<T>::Sequence(s) == Generator::<T>::Sequence(pre));
                    }
                }
                s
            },
            _ => {
                proof {
                    assert(false);
                }
                unreached()
            },
        }
    }
}

impl<T> Barrier<T> {
    pub fn new() -> (r: Barrier<T>)
        ensures
            r.children@.len() == 0,
            r.base.can_step(),
            r.base.name is None,
            gen_wf(Generator::Barrier(r)),
    {
        Barrier { base: GeneratorBase::new(), children: Vec::new() }
    }

    pub fn with_name(name: String) -> (r: Barrier<T>)
        ensures
            r.children@.len() == 0,
            r.base.can_step(),
            r.base.name == Some(name),
            gen_wf(Generator::Barrier(r)),
    {
        Barrier { base: GeneratorBase::with_name(name), children: Vec::new() }
    }

    /// Appends a child to the join; the barrier's own state is kept, and a
    /// well-formed child keeps a well-formed barrier well-formed.
    pub fn add_child(&mut self, child: Generator<T>)
        ensures
            final(self).children@ == old(self).children@.push(child),
            final(self).base == old(self).base,
            gen_wf(Generator::Barrier(*old(self))) && gen_wf(child) ==> gen_wf(
                Generator::Barrier(*final(self)),
            ),
    {
        self.children.push(child);
        proof {
            if gen_wf(Generator::Barrier(*old(self))) && gen_wf(child) {
                assert forall|i: int| 0 <= i < self.children@.len() implies gen_wf(
                    #[trigger] self.children@[i],
                ) by {
                    if i < old(self).children@.len() {
                        assert(self.children@[i] == old(self).children@[i]);
                    }
                }
            }
        }
    }

    pub fn child_count(&self) -> (r: usize)
        ensures
            r == self.children@.len(),
    {
        self.children.len()
    }

    /// A borrow of the child at `i`, for inspection.
    pub fn child(&self, i: usize) -> (r: &Generator<T>)
        requires
            i < self.children@.len(),
        ensures
            r == &self.children@[i as int],
    {
        &self.children[i]
    }

    /// Whether every child is completed (vacuously true when empty).
    pub fn all_children_completed(&self) -> (r: bool)
        ensures
            r == all_completed(self.children@),
    {
        let mut i: usize = 0;
        while i < self.children.len()
            invariant
                i <= self.children@.len(),
                forall|j: int| 0 <= j < i ==> gen_base(#[trigger] self.children@[j]).completed,
            decreases self.children@.len() - i,
        {
            if !self.children[i].is_completed() {
                return false;
            }
            i = i + 1;
        }
        true
    }

    /// One polling pass of this barrier, as `gen_step_rel` prescribes: fans
    /// out to every eligible child, then joins — completing itself exactly
    /// when every child has completed (immediately, when it has none).
    pub fn step<H: StepHost<T>>(self, now: u64, host: &mut H) -> (r: Barrier<T>)
        requires
            gen_wf(Generator::Barrier(self)),
        ensures
            gen_step_rel(Generator::Barrier(self), Generator::Barrier(r), now),
            gen_wf(Generator::Barrier(r)),
    {
        let ghost pre = self;
        let g = Generator::Barrier(self).step(now, host);
        match g {
            Generator::Barrier(b) => {
                proof {
                    if !gen_base(Generator::Barrier(pre)).can_step() {
                        assert(Generator::<T>::Barrier(b) == Generator::<T>::Barrier(pre));
                    }
                }
                b
            },
            _ => {
                proof {
                    assert(false);
                }
                unreached()
            },
        }
    }
}

} // verus!

verus! {

/// A generator that is already completed (or otherwise ineligible) is frozen:
/// one step leaves it exactly as it is.  In particular `completed` is
/// monotone — once true it never becomes false.
pub proof fn lemma_step_rel_frozen<T>(pre: Generator<T>, post: Generator<T>, now: u64)
    requires
        gen_step_rel(pre, post, now),
        !gen_base(pre).can_step(),
    ensures
        post == pre,
{
}

/// Completion is monotone across a step, whatever the kind.
pub proof fn lemma_step_rel_monotone<T>(pre: Generator<T>, post: Generator<T>, now: u64)
    requires
        gen_step_rel(pre, post, now),
        gen_base(pre).completed,
    ensures
        gen_base(post).completed,
        post == pre,
{
}

/// A step never changes a generator's identity, its name, or its `active`
/// flag; only `running`/`completed` (and kind-specific progress state) move.
pub proof fn lemma_step_rel_identity<T>(pre: Generator<T>, post: Generator<T>, now: u64)
    requires
        gen_step_rel(pre, post, now),
    ensures
        gen_base(post).id == gen_base(pre).id,
        gen_base(post).name == gen_base(pre).name,
        gen_base(post).active == gen_base(pre).active,
{
    if gen_base(pre).can_step() {
        match pre {
            Generator::Trigger(t) => {
                let c = choose|c: bool| post == Generator::<T>::Trigger(
                    #[trigger] trigger_stepped(t, c),
                );
                assert(post == Generator::<T>::Trigger(trigger_stepped(t, c)));
            },
            Generator::Coroutine(co) => {
                let fin = choose|fin: bool| post == Generator::<T>::Coroutine(
                    #[trigger] coroutine_stepped(co, fin),
                );
                assert(post == Generator::<T>::Coroutine(coroutine_stepped(co, fin)));
            },
            Generator::SyncCoroutine(sc) => {
                let o = choose|o: Option<T>| post == Generator::SyncCoroutine(
                    #[trigger] sync_stepped(sc, o),
                );
                assert(post == Generator::SyncCoroutine(sync_stepped(sc, o)));
            },
            Generator::Sequence(s) => {
                match post {
                    Generator::Sequence(s2) => {
                        assert(sequence_step_rel(s, s2, now));
                    },
                    _ => {
                        assert(false);
                    },
                }
            },
            _ => {},
        }
    }
}

/// The ordered-walk guarantees of one sequence step.  Every child strictly
/// before the cursor is completed before and after; the cursor never moves
/// backwards; no child but the one under the (old) cursor is touched — so a
/// child is never stepped before all of its predecessors have completed; and
/// an eligible sequence completes exactly when the walk passes the last
/// child: at once when it is empty or walked out, or when its last child is
/// observed completed.
pub proof fn lemma_sequence_ordering<T>(s: Sequence<T>, s2: Sequence<T>, now: u64)
    requires
        gen_wf(Generator::Sequence(s)),
        gen_step_rel(Generator::Sequence(s), Generator::Sequence(s2), now),
    ensures
        s2.children@.len() == s.children@.len(),
        s2.current_index >= s.current_index,
        forall|i: int| 0 <= i < s.current_index ==> gen_base(#[trigger] s.children@[i]).completed,
        forall|i: int|
            0 <= i < s2.children@.len() && i != s.current_index ==> s2.children@[i]
                == s.children@[i],
        forall|i: int|
            0 <= i < s2.current_index ==> gen_base(#[trigger] s2.children@[i]).completed,
        s.base.can_step() ==> (s2.base.completed <==> (s.children@.len() == 0
            || s.current_index >= s.children@.len() || (gen_base(
            s.children@[s.current_index as int],
        ).completed && s.current_index + 1 >= s.children@.len()))),
        !s.base.can_step() ==> s2 == s,
{
    assert(vstd::std_specs::vec::spec_vec_len(&s.children) == s.children@.len());
    if gen_base(Generator::Sequence(s)).can_step() {
        assert(sequence_step_rel(s, s2, now));
        if s.children@.len() == 0 || s.current_index >= s.children@.len() {
        } else {
            let cur = s.children@[s.current_index as int];
            if gen_base(cur).completed {
                assert(s.current_index + 1 <= s.children@.len() <= usize::MAX);
                assert(s2.current_index == (s.current_index + 1) as usize);
            } else if gen_base(cur).active && gen_base(cur).running {
                assert(s2.current_index == s.current_index);
            } else {
            }
        }
    }
}

/// The join guarantee of one step of an eligible barrier: it completes
/// exactly when every child is completed once the fan-out is over —
/// immediately, when it has no children — and children that were already
/// completed stay completed and untouched.
pub proof fn lemma_barrier_join<T>(b: Barrier<T>, b2: Barrier<T>, now: u64)
    requires
        gen_wf(Generator::Barrier(b)),
        gen_base(Generator::Barrier(b)).can_step(),
        gen_step_rel(Generator::Barrier(b), Generator::Barrier(b2), now),
    ensures
        b2.children@.len() == b.children@.len(),
        b2.base.completed <==> (b.children@.len() == 0 || all_completed(b2.children@)),
        b.children@.len() == 0 ==> b2.base.completed,
        forall|i: int|
            0 <= i < b.children@.len() && gen_base(#[trigger] b.children@[i]).completed
                ==> b2.children@[i] == b.children@[i],
        all_completed(b.children@) ==> b2.base.completed,
{
    if b.children@.len() == 0 {
    } else {
        assert(kids_step_rel(b.children@, b2.children@, now));
        assert forall|i: int|
            0 <= i < b.children@.len() && gen_base(
                #[trigger] b.children@[i],
            ).completed implies b2.children@[i] == b.children@[i] by {
            lemma_step_rel_monotone(b.children@[i], b2.children@[i], now);
        }
        if all_completed(b.children@) {
            assert forall|i: int| 0 <= i < b2.children@.len() implies gen_base(
                #[trigger] b2.children@[i],
            ).completed by {
                assert(gen_base(b.children@[i]).completed);
                assert(b2.children@[i] == b.children@[i]);
            }
        }
    }
}

/// A node never completes on account of its children: its own lifecycle
/// state is identical after any step.
pub proof fn lemma_node_never_self_completes<T>(n: Node<T>, n2: Node<T>, now: u64)
    requires
        gen_step_rel(Generator::Node(n), Generator::Node(n2), now),
    ensures
        n2.base == n.base,
{
    if !gen_base(Generator::Node(n)).can_step() {
        assert(Generator::<T>::Node(n2) == Generator::<T>::Node(n));
    }
}

} // verus!

verus! {

/// Every element that a filter keeps was an element of the unfiltered list.
pub proof fn lemma_filter_membership<T>(
    s: Seq<Generator<T>>,
    pred: spec_fn(Generator<T>) -> bool,
    i: int,
)
    requires
        0 <= i < s.filter(pred).len(),
    ensures
        exists|j: int| 0 <= j < s.len() && s[j] == s.filter(pred)[i],
    decreases s.len(),
{
    reveal(Seq::filter);
    if s.len() > 0 {
        let out = s.filter(pred);
        let sub = s.drop_last().filter(pred);
        if pred(s.last()) && i == sub.len() {
            assert(out[i] == s.last());
            assert(s[s.len() - 1] == out[i]);
        } else {
            lemma_filter_membership(s.drop_last(), pred, i);
            let j = choose|j: int| 0 <= j < s.drop_last().len() && s.drop_last()[j] == sub[i];
            assert(s[j] == out[i]);
        }
    }
}

/// Filtering well-formed children leaves only well-formed children.
pub proof fn lemma_kids_wf_filter<T>(s: Seq<Generator<T>>, pred: spec_fn(Generator<T>) -> bool)
    requires
        kids_wf(s),
    ensures
        kids_wf(s.filter(pred)),
{
    assert forall|i: int| 0 <= i < s.filter(pred).len() implies gen_wf(
        #[trigger] s.filter(pred)[i],
    ) by {
        lemma_filter_membership(s, pred, i);
        let j = choose|j: int| 0 <= j < s.len() && s[j] == s.filter(pred)[i];
        assert(gen_wf(s[j]));
    }
}

} // verus!

verus! {

impl<T> Default for Node<T> {
    /// An empty, eligible node, as `new` gives.
    fn default() -> (r: Node<T>)
        ensures
            r.children@.len() == 0,
            r.base.can_step(),
            gen_wf(Generator::Node(r)),
    {
        Node::new()
    }
}

impl<T> Default for Sequence<T> {
    /// An empty sequence with its cursor at the start, as `new` gives.
    fn default() -> (r: Sequence<T>)
        ensures
            r.children@.len() == 0,
            r.current_index == 0,
            r.base.can_step(),
            gen_wf(Generator::Sequence(r)),
    {
        Sequence::new()
    }
}

impl<T> Default for Barrier<T> {
    /// An empty barrier, as `new` gives.
    fn default() -> (r: Barrier<T>)
        ensures
            r.children@.len() == 0,
            r.base.can_step(),
            gen_wf(Generator::Barrier(r)),
    {
        Barrier::new()
    }
}

} // verus!

verus! {

impl<T> Node<T> {
    /// A mutable borrow of the child at `i` — the owned-tree counterpart of
    /// retaining a shared handle: callers reach into the tree to set a value
    /// cell, rename a child, or complete it by hand.
    pub fn child_mut(&mut self, i: usize) -> (r: &mut Generator<T>)
        requires
            i < old(self).children@.len(),
        ensures
            *r == old(self).children@[i as int],
            final(self).children@ == old(self).children@.update(i as int, *final(r)),
            final(self).base == old(self).base,
    {
        &mut self.children[i]
    }
}

impl<T> Sequence<T> {
    /// A mutable borrow of the child at `i`; see `Node::child_mut`.
    pub fn child_mut(&mut self, i: usize) -> (r: &mut Generator<T>)
        requires
            i < old(self).children@.len(),
        ensures
            *r == old(self).children@[i as int],
            final(self).children@ == old(self).children@.update(i as int, *final(r)),
            final(self).base == old(self).base,
            final(self).current_index == old(self).current_index,
    {
        &mut self.children[i]
    }
}

impl<T> Barrier<T> {
    /// A mutable borrow of the child at `i`; see `Node::child_mut`.
    pub fn child_mut(&mut self, i: usize) -> (r: &mut Generator<T>)
        requires
            i < old(self).children@.len(),
        ensures
            *r == old(self).children@[i as int],
            final(self).children@ == old(self).children@.update(i as int, *final(r)),
            final(self).base == old(self).base,
    {
        &mut self.children[i]
    }
}

} // verus!

verus! {

use crate::logger::Logger;

impl<T> Generator<T> {
    /// The diagnostic sink of this generator, whatever its kind.
    pub fn logger(&self) -> (r: &Logger)
        ensures
            r == &gen_base(*self).logger,
    {
        match self {
            Generator::Timer(t) => &t.base.logger,
            Generator::PeriodicTimer(p) => &p.base.logger,
            Generator::Trigger(t) => &t.base.logger,
            Generator::Future(f) => &f.base.logger,
            Generator::Coroutine(c) => &c.base.logger,
            Generator::SyncCoroutine(s) => &s.base.logger,
            Generator::Node(n) => &n.base.logger,
            Generator::Sequence(s) => &s.base.logger,
            Generator::Barrier(b) => &b.base.logger,
        }
    }
}

} // verus!

verus! {

/// Well-formedness is an invariant of the step relation itself: any state a
/// step may reach from a well-formed tree is well-formed again.  Chained over
/// a run, every reachable state keeps the flag invariants everywhere and — in
/// every sequence — a sound cursor with only completed children behind it.
pub proof fn lemma_step_rel_preserves_wf<T>(pre: Generator<T>, post: Generator<T>, now: u64)
    requires
        gen_wf(pre),
        gen_step_rel(pre, post, now),
    ensures
        gen_wf(post),
    decreases pre,
{
    if gen_base(pre).can_step() {
        match pre {
            Generator::Trigger(t) => {
                let c = choose|c: bool| post == Generator::<T>::Trigger(
                    #[trigger] trigger_stepped(t, c),
                );
                assert(post == Generator::<T>::Trigger(trigger_stepped(t, c)));
            },
            Generator::Coroutine(co) => {
                let fin = choose|fin: bool| post == Generator::<T>::Coroutine(
                    #[trigger] coroutine_stepped(co, fin),
                );
                assert(post == Generator::<T>::Coroutine(coroutine_stepped(co, fin)));
            },
            Generator::SyncCoroutine(sc) => {
                let o = choose|o: Option<T>| post == Generator::SyncCoroutine(
                    #[trigger] sync_stepped(sc, o),
                );
                assert(post == Generator::SyncCoroutine(sync_stepped(sc, o)));
            },
            Generator::Node(n) => {
                match post {
                    Generator::Node(n2) => {
                        assert forall|i: int| 0 <= i < n2.children@.len() implies gen_wf(
                            #[trigger] n2.children@[i],
                        ) by {
                            assert(gen_wf(n.children@[i]));
                            assert(gen_step_rel(n.children@[i], n2.children@[i], now));
                            lemma_step_rel_preserves_wf(n.children@[i], n2.children@[i], now);
                        }
                    },
                    _ => {
                        assert(false);
                    },
                }
            },
            Generator::Sequence(s) => {
                match post {
                    Generator::Sequence(s2) => {
                        assert(vstd::std_specs::vec::spec_vec_len(&s.children)
                            == s.children@.len());
                        assert(sequence_step_rel(s, s2, now));
                        if s.children@.len() == 0 || s.current_index >= s.children@.len() {
                        } else {
                            let cur = s.children@[s.current_index as int];
                            if gen_base(cur).completed {
                            } else if gen_base(cur).active && gen_base(cur).running {
                                assert forall|i: int| 0 <= i < s2.children@.len() implies gen_wf(
                                    #[trigger] s2.children@[i],
                                ) by {
                                    if i == s.current_index {
                                        lemma_step_rel_preserves_wf(cur, s2.children@[i], now);
                                    } else {
                                        assert(s2.children@[i] == s.children@[i]);
                                        assert(gen_wf(s.children@[i]));
                                    }
                                }
                            } else {
                            }
                        }
                    },
                    _ => {
                        assert(false);
                    },
                }
            },
            Generator::Barrier(b) => {
                match post {
                    Generator::Barrier(b2) => {
                        if b.children@.len() > 0 {
                            assert forall|i: int| 0 <= i < b2.children@.len() implies gen_wf(
                                #[trigger] b2.children@[i],
                            ) by {
                                assert(gen_wf(b.children@[i]));
                                assert(gen_step_rel(b.children@[i], b2.children@[i], now));
                                lemma_step_rel_preserves_wf(b.children@[i], b2.children@[i], now);
                            }
                        }
                    },
                    _ => {
                        assert(false);
                    },
                }
            },
            _ => {},
        }
    }
}

} // verus!
