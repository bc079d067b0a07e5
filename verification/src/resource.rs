//! The resource lifecycle core: instances, strong references, and the
//! wrap/finalize protocol shared with the host collector.
//!
//! An [`Instance`] owns a resource's user data, a strong-reference count and
//! an optional [`WrapperState`]. While no wrapper is attached, the count
//! alone governs life: the decrement that reaches zero destroys the data
//! synchronously. Once a wrapper is attached, the count reaching zero only
//! makes the instance *weak*: destruction is deferred to the host
//! collector, which finalizes a weak instance exactly once.
//!
//! Instances live in an [`Instances`] arena; a [`Ref`] names its instance by
//! a stable identifier, the model of the instance's address. The arena keeps
//! a running count of destructor runs so callers can observe that each
//! instance dies exactly once.

use core::marker::PhantomData;
use vstd::pervasive::unreached;
use vstd::prelude::*;

use crate::Error;
use crate::ExceptionType;

verus! {

/// The record installed when an instance is first exposed to the host: the
/// only data the host collector's finalizer callback sees. Its fields model
/// the type-erased destructor address and the user-data address, both set
/// at wrap time and never changed afterwards.
#[derive(Clone, Copy, Debug, PartialEq, Eq, Structural)]
pub struct WrapperState {
    pub drop_fn: Option<usize>,
    pub this_ptr: Option<usize>,
}

/// One resource instance: its user data (present until destroyed), its
/// strong-reference count, and the wrapper record if it has been exposed to
/// the host.
pub struct Instance<T> {
    pub data: Option<T>,
    pub count: u64,
    pub wrapper: Option<WrapperState>,
}

/// A strong handle to one instance, naming it by its identifier in the
/// arena. Refs are only created by [`Instances::allocate`] and
/// [`Instances::clone_ref`], and are consumed by [`Instances::drop_ref`].
pub struct Ref<T> {
    pub id: usize,
    pub marker: PhantomData<T>,
}

/// The arena of all instances of one resource type, together with the
/// number of destructor runs it has performed. It is the model of the
/// native heap those instances would occupy.
pub struct Instances<T> {
    pub instances: Vec<Instance<T>>,
    pub dtor_runs: usize,
}

/// The lifecycle states of the wrap protocol, in the order an instance may
/// pass through them.
#[derive(Clone, Copy, Debug, PartialEq, Eq, Structural)]
pub enum LifeState {
    Unwrapped,
    WrappedStrong,
    WrappedWeak,
    Collected,
}

/// The instance a fresh allocation creates: one strong reference, no
/// wrapper, data present.
pub open spec fn new_instance<T>(value: T) -> Instance<T> {
    Instance { data: Some(value), count: 1, wrapper: None }
}

/// The lifecycle state an instance is in; the weak state is not stored
/// anywhere, it is read off the count and the wrapper.
pub open spec fn state_of<T>(s: Instance<T>) -> LifeState {
    if s.data is None {
        LifeState::Collected
    } else if s.wrapper is None {
        LifeState::Unwrapped
    } else if s.count >= 1 {
        LifeState::WrappedStrong
    } else {
        LifeState::WrappedWeak
    }
}

/// A wrapped instance whose strong count has reached zero: the host
/// collector is free to finalize it.
pub open spec fn is_weak<T>(s: Instance<T>) -> bool {
    &&& s.wrapper is Some
    &&& s.count == 0
    &&& s.data is Some
}

/// What cloning a reference does to its instance: pure counter arithmetic.
pub open spec fn clone_step<T>(s: Instance<T>) -> Instance<T> {
    Instance { data: s.data, count: (s.count + 1) as u64, wrapper: s.wrapper }
}

/// What dropping a reference does to its instance: the decrement that
/// reaches zero destroys the data if and only if no wrapper is attached.
pub open spec fn drop_step<T>(s: Instance<T>) -> Instance<T> {
    if s.count == 1 && s.wrapper is None {
        Instance { data: None, count: 0, wrapper: None }
    } else {
        Instance { data: s.data, count: (s.count - 1) as u64, wrapper: s.wrapper }
    }
}

/// Whether an instance may still be wrapped: a wrapper is attached at most
/// once, so only an instance that never had one qualifies.
pub open spec fn wrap_allowed<T>(s: Instance<T>) -> bool {
    s.wrapper is None
}

/// What wrapping does to the instance with identifier `i`: it attaches the
/// wrapper record, with destructor and data addresses set, and leaves the
/// count alone — wrapping never consumes a reference.
pub open spec fn wrap_step<T>(s: Instance<T>, i: usize) -> Instance<T> {
    Instance {
        data: s.data,
        count: s.count,
        wrapper: Some(WrapperState { drop_fn: Some(i), this_ptr: Some(i) }),
    }
}

/// What one collector visit does to an instance: a weak one is finalized
/// (its data destroyed), every other one is left untouched.
pub open spec fn collect_step<T>(s: Instance<T>) -> Instance<T> {
    if is_weak(s) {
        Instance { data: None, count: s.count, wrapper: s.wrapper }
    } else {
        s
    }
}

/// How many instances of the arena have been destroyed. Data is taken out
/// of an instance exactly once, so this is also the number of destructor
/// runs the arena performed.
pub open spec fn num_destroyed<T>(s: Seq<Instance<T>>) -> int
    decreases s.len(),
{
    if s.len() == 0 {
        0
    } else {
        num_destroyed(s.drop_last()) + if s.last().data is None {
            1int
        } else {
            0int
        }
    }
}

/// How many instances of the arena are weak, that is, eligible for the
/// collector.
pub open spec fn num_weak<T>(s: Seq<Instance<T>>) -> int
    decreases s.len(),
{
    if s.len() == 0 {
        0
    } else {
        num_weak(s.drop_last()) + if is_weak(s.last()) {
            1int
        } else {
            0int
        }
    }
}

/// Well-formedness of one instance under its identifier: an attached
/// wrapper carries its destructor and data addresses, destroyed data means
/// no strong reference survived, and an unwrapped instance cannot sit at
/// count zero with its data still present — the zero decrement would have
/// destroyed it.
pub open spec fn instance_wf<T>(s: Instance<T>, i: usize) -> bool {
    &&& (s.wrapper matches Some(w) ==> w.drop_fn is Some && w.this_ptr == Some(i))
    &&& (s.data is None ==> s.count == 0)
    &&& (s.data is Some && s.wrapper is None ==> s.count >= 1)
}

/// A reference is valid for an arena when it names an instance that still
/// has a strong count backing it.
pub open spec fn valid_ref<T>(s: Seq<Instance<T>>, id: usize) -> bool {
    &&& id < s.len()
    &&& s[id as int].count >= 1
}

proof fn lemma_num_destroyed_bounds<T>(s: Seq<Instance<T>>)
    ensures
        0 <= num_destroyed(s) <= s.len(),
    decreases s.len(),
{
    if s.len() > 0 {
        lemma_num_destroyed_bounds(s.drop_last());
    }
}

/// Replacing one instance changes the destroyed count exactly by the
/// change at that spot.
proof fn lemma_num_destroyed_update<T>(s: Seq<Instance<T>>, i: int, v: Instance<T>)
    requires
        0 <= i < s.len(),
    ensures
        num_destroyed(s.update(i, v)) == num_destroyed(s) + (if v.data is None {
            1int
        } else {
            0int
        }) - (if s[i].data is None {
            1int
        } else {
            0int
        }),
    decreases s.len(),
{
    let t = s.update(i, v);
    assert(t.len() == s.len());
    if i == s.len() - 1 {
        assert(t.drop_last() =~= s.drop_last());
        assert(t.last() == v);
    } else {
        assert(t.drop_last() =~= s.drop_last().update(i, v));
        assert(t.last() == s.last());
        lemma_num_destroyed_update(s.drop_last(), i, v);
    }
}

/// Appending an instance with data present leaves the destroyed count
/// alone.
proof fn lemma_num_destroyed_push<T>(s: Seq<Instance<T>>, v: Instance<T>)
    requires
        v.data is Some,
    ensures
        num_destroyed(s.push(v)) == num_destroyed(s),
{
    assert(s.push(v).drop_last() =~= s);
    assert(s.push(v).last() == v);
}

impl<T> Instances<T> {
    /// The arena is well formed: every instance is, and the recorded number
    /// of destructor runs matches the destroyed instances.
    pub open spec fn wf(self) -> bool {
        &&& (forall|i: int|
            0 <= i < self.instances@.len() ==> instance_wf(
                #[trigger] self.instances@[i],
                i as usize,
            ))
        &&& self.dtor_runs == num_destroyed(self.instances@)
    }

    /// An empty arena: no instances, no destructor has run.
    pub fn new() -> (r: Instances<T>)
        ensures
            r.wf(),
            r.instances@ =~= Seq::<Instance<T>>::empty(),
            r.dtor_runs == 0,
    {
        Instances { instances: Vec::new(), dtor_runs: 0 }
    }

    /// How many destructor runs this arena has performed — the observable
    /// record that each instance dies at most once.
    pub fn dtor_count(&self) -> (r: usize)
        ensures
            r == self.dtor_runs,
            self.wf() ==> r == num_destroyed(self.instances@),
    {
        self.dtor_runs
    }

    /// Allocates an instance owning `value`, with count one and no wrapper,
    /// and returns the one strong reference to it. Nothing else changes: no
    /// destructor runs, no other instance moves.
    pub fn allocate(&mut self, value: T) -> (r: Ref<T>)
        requires
            old(self).wf(),
        ensures
            final(self).wf(),
            r.id == old(self).instances@.len(),
            final(self).instances@ =~= old(self).instances@.push(new_instance(value)),
            final(self).dtor_runs == old(self).dtor_runs,
            valid_ref(final(self).instances@, r.id),
    {
        let id = self.instances.len();
        self.instances.push(Instance { data: Some(value), count: 1, wrapper: None });
        proof {
            lemma_num_destroyed_push(old(self).instances@, new_instance(value));
        }
        Ref { id, marker: PhantomData }
    }

    /// Clones a strong reference: the count goes up by one and everything
    /// else — data, wrapper, every other instance, the destructor record —
    /// stays exactly as it was.
    pub fn clone_ref(&mut self, r: &Ref<T>) -> (r2: Ref<T>)
        requires
            old(self).wf(),
            valid_ref(old(self).instances@, r.id),
            old(self).instances@[r.id as int].count < u64::MAX,
        ensures
            final(self).wf(),
            r2.id == r.id,
            final(self).instances@ =~= old(self).instances@.update(
                r.id as int,
                clone_step(old(self).instances@[r.id as int]),
            ),
            final(self).dtor_runs == old(self).dtor_runs,
            valid_ref(final(self).instances@, r2.id),
    {
        let inst = &mut self.instances[r.id];
        inst.count = inst.count + 1;
        proof {
            lemma_num_destroyed_update(
                old(self).instances@,
                r.id as int,
                clone_step(old(self).instances@[r.id as int]),
            );
        }
        Ref { id: r.id, marker: PhantomData }
    }

    /// Drops a strong reference, consuming it. The count goes down by one;
    /// if that decrement reaches zero and no wrapper is attached, the user
    /// data is destroyed right here, synchronously, and the destructor
    /// record goes up by exactly one. If a wrapper is attached, no count of
    /// drops destroys anything: the instance at most turns weak.
    pub fn drop_ref(&mut self, r: Ref<T>)
        requires
            old(self).wf(),
            valid_ref(old(self).instances@, r.id),
        ensures
            final(self).wf(),
            final(self).instances@ =~= old(self).instances@.update(
                r.id as int,
                drop_step(old(self).instances@[r.id as int]),
            ),
            final(self).dtor_runs == old(self).dtor_runs + (if old(self).instances@[r.id as int].count
                == 1 && old(self).instances@[r.id as int].wrapper is None {
                1int
            } else {
                0int
            }),
    {
        let id = r.id;
        let n = self.instances.len();
        let destroys = self.instances[id].count == 1 && self.instances[id].wrapper.is_none();
        let inst = &mut self.instances[id];
        inst.count = inst.count - 1;
        if destroys {
            inst.data = None;
        }
        proof {
            lemma_num_destroyed_update(
                old(self).instances@,
                id as int,
                drop_step(old(self).instances@[id as int]),
            );
            lemma_num_destroyed_bounds(self.instances@);
            assert(num_destroyed(self.instances@) <= n);
        }
        if destroys {
            self.dtor_runs = self.dtor_runs + 1;
        }
    }

    /// A shared view of an instance's user data: present until the instance
    /// is destroyed, by either path, and absent from then on.
    pub fn get(&self, id: usize) -> (r: Option<&T>)
        requires
            id < self.instances@.len(),
        ensures
            match r {
                Some(v) => self.instances@[id as int].data == Some(*v),
                None => self.instances@[id as int].data is None,
            },
    {
        self.instances[id].data.as_ref()
    }

    /// The strong-reference count of an instance.
    pub fn strong_count(&self, id: usize) -> (r: u64)
        requires
            id < self.instances@.len(),
        ensures
            r == self.instances@[id as int].count,
    {
        self.instances[id].count
    }

    /// The lifecycle state an instance is in. The weak state is not stored:
    /// it is read off the count and the wrapper, so an instance turns weak
    /// the moment its last strong reference goes while wrapped, with no
    /// separate call.
    pub fn state(&self, id: usize) -> (r: LifeState)
        requires
            id < self.instances@.len(),
        ensures
            r == state_of(self.instances@[id as int]),
    {
        let inst = &self.instances[id];
        if inst.data.is_none() {
            LifeState::Collected
        } else if inst.wrapper.is_none() {
            LifeState::Unwrapped
        } else if inst.count >= 1 {
            LifeState::WrappedStrong
        } else {
            LifeState::WrappedWeak
        }
    }

    /// Exposes the instance to the host: attaches its wrapper record — with
    /// destructor and data addresses set — and hands back the address-sized
    /// token the host collector will later pass to the finalizer. The count
    /// is untouched: wrapping consumes no reference, it only opens the
    /// second, host-observed survival path. An instance is wrapped at most
    /// once: a second attempt is rejected and changes nothing.
    pub fn wrap(&mut self, r: &Ref<T>) -> (res: Result<usize, Error>)
        requires
            old(self).wf(),
            valid_ref(old(self).instances@, r.id),
        ensures
            final(self).wf(),
            res is Ok <==> wrap_allowed(old(self).instances@[r.id as int]),
            res is Ok ==> res == Ok::<usize, Error>(r.id) && final(self).instances@
                =~= old(self).instances@.update(
                r.id as int,
                wrap_step(old(self).instances@[r.id as int], r.id),
            ),
            res is Err ==> final(self).instances@ =~= old(self).instances@ && (res matches Err(e)
                && e.name == ExceptionType::Error && e.message@
                == "instance is already wrapped"@),
            final(self).dtor_runs == old(self).dtor_runs,
    {
        let id = r.id;
        let inst = &mut self.instances[id];
        if inst.wrapper.is_none() {
            inst.wrapper = Some(WrapperState { drop_fn: Some(id), this_ptr: Some(id) });
            proof {
                lemma_num_destroyed_update(
                    old(self).instances@,
                    id as int,
                    wrap_step(old(self).instances@[id as int], id),
                );
            }
            Ok(id)
        } else {
            proof {
                assert(self.instances@ =~= old(self).instances@);
            }
            Err(Error::new(ExceptionType::Error, "instance is already wrapped".to_owned()))
        }
    }

    /// The finalizer callback the host collector invokes with the state
    /// token it was handed at wrap time, once it has decided the wrapper
    /// object is unreachable. The host's contract — finalize at most once,
    /// and only when no strong reference survives — is a precondition this
    /// core trusts; under it, the stored destructor runs on the stored data
    /// exactly once, and the instance is collected. The destructor and data
    /// addresses are installed whole at wrap time: finding either missing
    /// would be a broken invariant, not a recoverable error.
    pub fn invoke_weak_drop(&mut self, state: usize)
        requires
            old(self).wf(),
            state < old(self).instances@.len(),
            is_weak(old(self).instances@[state as int]),
        ensures
            final(self).wf(),
            final(self).instances@ =~= old(self).instances@.update(
                state as int,
                collect_step(old(self).instances@[state as int]),
            ),
            final(self).dtor_runs == old(self).dtor_runs + 1,
    {
        let n = self.instances.len();
        let w = match &self.instances[state].wrapper {
            Some(w) => *w,
            None => unreached(),
        };
        // the model's stand-in for the type-erased destructor: this arena
        // itself destroys the data the record points at
        let _drop_fn = match w.drop_fn {
            Some(f) => f,
            None => unreached(),
        };
        let this_ptr = match w.this_ptr {
            Some(p) => p,
            None => unreached(),
        };
        let inst = &mut self.instances[this_ptr];
        inst.data = None;
        proof {
            lemma_num_destroyed_update(
                old(self).instances@,
                state as int,
                collect_step(old(self).instances@[state as int]),
            );
            lemma_num_destroyed_bounds(self.instances@);
            assert(num_destroyed(self.instances@) <= n);
        }
        self.dtor_runs = self.dtor_runs + 1;
    }

    /// One full collection pass of the host: every weak instance — wrapped,
    /// no strong reference left — is finalized; every other instance,
    /// including wrapped ones that a strong reference still protects, is
    /// left exactly as it was.
    pub fn run_collector(&mut self)
        requires
            old(self).wf(),
        ensures
            final(self).wf(),
            final(self).instances@ =~= collect_all(old(self).instances@),
            final(self).dtor_runs == old(self).dtor_runs + num_weak(old(self).instances@),
    {
        let n = self.instances.len();
        let mut i: usize = 0;
        while i < n
            invariant
                old(self).wf(),
                self.wf(),
                i <= n,
                n == old(self).instances@.len(),
                self.instances@.len() == n,
                forall|j: int|
                    0 <= j < i ==> self.instances@[j] == collect_step(
                        #[trigger] old(self).instances@[j],
                    ),
                forall|j: int| i <= j < n ==> self.instances@[j] == old(self).instances@[j],
                self.dtor_runs == old(self).dtor_runs + num_weak(
                    old(self).instances@.take(i as int),
                ),
            decreases n - i,
        {
            let weak = self.instances[i].count == 0 && self.instances[i].wrapper.is_some()
                && self.instances[i].data.is_some();
            if weak {
                self.invoke_weak_drop(i);
            }
            proof {
                let prefix = old(self).instances@.take(i as int + 1);
                assert(prefix.drop_last() =~= old(self).instances@.take(i as int));
                assert(prefix.last() == old(self).instances@[i as int]);
            }
            i = i + 1;
        }
        proof {
            assert(old(self).instances@.take(n as int) =~= old(self).instances@);
            assert(final(self).instances@ =~= collect_all(old(self).instances@));
        }
    }
}

/// The result of one collection pass over a whole arena.
pub open spec fn collect_all<T>(s: Seq<Instance<T>>) -> Seq<Instance<T>> {
    s.map_values(|x: Instance<T>| collect_step(x))
}

/// Dropping `n` references, one after the other.
pub open spec fn iter_drop<T>(s: Instance<T>, n: nat) -> Instance<T>
    decreases n,
{
    if n == 0 {
        s
    } else {
        drop_step(iter_drop(s, (n - 1) as nat))
    }
}

/// Law: an instance that was never wrapped is destroyed by the drop that
/// releases its last strong reference — synchronously, at that very step —
/// and only once: the collected instance is of no further interest to any
/// later step, collector passes included.
pub proof fn lemma_last_drop_destroys_unwrapped<T>(s: Instance<T>)
    requires
        s.wrapper is None,
        s.count == 1,
    ensures
        drop_step(s) == (Instance::<T> { data: None, count: 0, wrapper: None }),
        state_of(drop_step(s)) == LifeState::Collected,
        !is_weak(drop_step(s)),
        collect_step(drop_step(s)) == drop_step(s),
{
}

/// Law: once a wrapper is attached, no number of reference drops destroys
/// the user data: the count only goes down, and at zero the instance merely
/// turns weak, data and wrapper intact.
pub proof fn lemma_wrapped_drops_never_destroy<T>(s: Instance<T>, n: nat)
    requires
        s.wrapper is Some,
        n <= s.count,
    ensures
        iter_drop(s, n).data == s.data,
        iter_drop(s, n).wrapper == s.wrapper,
        iter_drop(s, n).count == s.count - n,
        n == s.count && s.data is Some ==> state_of(iter_drop(s, n)) == LifeState::WrappedWeak,
    decreases n,
{
    if n > 0 {
        lemma_wrapped_drops_never_destroy(s, (n - 1) as nat);
    }
}

/// Law: a wrapper record is attached exactly once. After a wrap no further
/// wrap is admissible, and no other step of the protocol — cloning a
/// reference, dropping one, a collector visit — ever attaches, replaces or
/// removes the record.
pub proof fn lemma_wrapper_attached_once<T>(s: Instance<T>, i: usize)
    ensures
        wrap_step(s, i).wrapper is Some,
        !wrap_allowed(wrap_step(s, i)),
        clone_step(s).wrapper == s.wrapper,
        drop_step(s).wrapper == s.wrapper,
        collect_step(s).wrapper == s.wrapper,
{
}

/// No instance of `s` is weak; in particular none is destroyed by a pass.
proof fn lemma_num_weak_zero<T>(s: Seq<Instance<T>>)
    requires
        forall|i: int| 0 <= i < s.len() ==> !is_weak(#[trigger] s[i]),
    ensures
        num_weak(s) == 0,
    decreases s.len(),
{
    if s.len() > 0 {
        assert(forall|i: int|
            0 <= i < s.drop_last().len() ==> s.drop_last()[i] == s[i]);
        lemma_num_weak_zero(s.drop_last());
    }
}

/// A pass destroys exactly the weak instances.
proof fn lemma_collect_all_counts<T>(s: Seq<Instance<T>>)
    ensures
        num_destroyed(collect_all(s)) == num_destroyed(s) + num_weak(s),
    decreases s.len(),
{
    if s.len() > 0 {
        assert(collect_all(s).drop_last() =~= collect_all(s.drop_last()));
        assert(collect_all(s).last() == collect_step(s.last()));
        lemma_collect_all_counts(s.drop_last());
    }
}

/// Law: the host's collection pass destroys every weak instance exactly
/// once and touches nothing else; afterwards nothing is weak, so a second
/// pass destroys nothing and changes nothing.
pub proof fn lemma_collection_pass<T>(s: Seq<Instance<T>>)
    ensures
        collect_all(s).len() == s.len(),
        forall|i: int| 0 <= i < s.len() && is_weak(#[trigger] s[i]) ==> collect_all(s)[i].data
            is None,
        forall|i: int| 0 <= i < s.len() && !is_weak(#[trigger] s[i]) ==> collect_all(s)[i] == s[i],
        num_destroyed(collect_all(s)) == num_destroyed(s) + num_weak(s),
        num_weak(collect_all(s)) == 0,
        collect_all(collect_all(s)) =~= collect_all(s),
{
    lemma_collect_all_counts(s);
    assert(forall|i: int|
        0 <= i < s.len() ==> !is_weak(#[trigger] collect_all(s)[i]));
    lemma_num_weak_zero(collect_all(s));
    assert(forall|i: int|
        0 <= i < s.len() ==> #[trigger] collect_all(collect_all(s))[i] == collect_all(s)[i]);
}


} // verus!
