//! The per-context resource registry: a cache mapping each resource type to
//! the callable template built from its member schema.
//!
//! At most one template is built per (type, context) pair: the first access
//! builds and files it, every later access finds the same entry and leaves
//! the registry untouched. Entries belong to their context and never refer
//! to individual resource instances.

use core::marker::PhantomData;
use vstd::prelude::*;

use crate::Lock;
use crate::Resource;
use crate::ResourceTemplate;
use crate::create_resource_constructor;
use crate::descriptor::Member;
use crate::descriptor::descriptor_from_members;
use crate::descriptor::descriptor_matches;
use crate::descriptor::no_property;
use crate::host::FunctionTemplate;

verus! {

/// One registry entry: the key of the resource type it serves and the
/// cached template built for it.
pub struct RegistryEntry {
    pub type_key: u64,
    pub template: FunctionTemplate,
}

/// The registry of one execution context.
pub struct Resources {
    pub entries: Vec<RegistryEntry>,
}

/// Some entry is already filed under `key`.
pub open spec fn has_key(s: Seq<RegistryEntry>, key: u64) -> bool {
    exists|j: int| 0 <= j < s.len() && (#[trigger] s[j]).type_key == key
}

/// What a first access leaves behind: one entry appended under `key`,
/// holding a template that matches the schema it was built from, with every
/// earlier entry untouched.
pub open spec fn fresh_entry(
    pre: Seq<RegistryEntry>,
    post: Seq<RegistryEntry>,
    i: usize,
    key: u64,
    name: Seq<char>,
    ms: Seq<Member>,
) -> bool {
    &&& i == pre.len()
    &&& post.len() == pre.len() + 1
    &&& (forall|j: int| 0 <= j < pre.len() ==> post[j] == pre[j])
    &&& post[i as int].type_key == key
    &&& descriptor_matches(post[i as int].template.descriptor, name, ms)
}

impl Resources {
    /// The registry is well formed: no two entries share a key, so a key
    /// names at most one entry.
    pub open spec fn wf(self) -> bool {
        forall|j: int, k: int|
            0 <= j < k < self.entries@.len() ==> (#[trigger] self.entries@[j]).type_key != (
            #[trigger] self.entries@[k]).type_key
    }

    /// The registry entry for resource type `R`: found if one is already
    /// filed — the registry is then left exactly as it was — and otherwise
    /// built from the type's member schema and appended.
    pub fn get_or_create<R: Resource>(&mut self, lock: &mut Lock) -> (i: usize)
        requires
            old(self).wf(),
            no_property(R::members_spec()),
        ensures
            final(self).wf(),
            i < final(self).entries@.len(),
            final(self).entries@[i as int].type_key == R::type_key_spec(),
            has_key(old(self).entries@, R::type_key_spec()) ==> *final(self) == *old(self),
            !has_key(old(self).entries@, R::type_key_spec()) ==> fresh_entry(
                old(self).entries@,
                final(self).entries@,
                i,
                R::type_key_spec(),
                R::class_name_spec(),
                R::members_spec(),
            ),
            *final(lock) == *old(lock),
    {
        let key = R::type_key();
        let n = self.entries.len();
        let mut j: usize = 0;
        while j < n
            invariant
                self.entries@ == old(self).entries@,
                old(self).wf(),
                n == self.entries@.len(),
                j <= n,
                key == R::type_key_spec(),
                forall|t: int| 0 <= t < j ==> (#[trigger] self.entries@[t]).type_key != key,
            decreases n - j,
        {
            if self.entries[j].type_key == key {
                return j;
            }
            j = j + 1;
        }
        let template = create_resource_constructor::<R>(lock);
        self.entries.push(RegistryEntry { type_key: key, template });
        n
    }

    /// The registry entry filed under `type_key`, built — if none is filed
    /// yet — from the given class name and member schema. The typed
    /// [`Resources::get_or_create`] funnels into the same cache.
    pub fn get_or_create_with(&mut self, type_key: u64, name: String, members: Vec<Member>) -> (i:
        usize)
        requires
            old(self).wf(),
            no_property(members@),
        ensures
            final(self).wf(),
            i < final(self).entries@.len(),
            final(self).entries@[i as int].type_key == type_key,
            has_key(old(self).entries@, type_key) ==> *final(self) == *old(self),
            !has_key(old(self).entries@, type_key) ==> fresh_entry(
                old(self).entries@,
                final(self).entries@,
                i,
                type_key,
                name@,
                members@,
            ),
    {
        let n = self.entries.len();
        let mut j: usize = 0;
        while j < n
            invariant
                self.entries@ == old(self).entries@,
                old(self).wf(),
                n == self.entries@.len(),
                j <= n,
                forall|t: int| 0 <= t < j ==> (#[trigger] self.entries@[t]).type_key != type_key,
            decreases n - j,
        {
            if self.entries[j].type_key == type_key {
                return j;
            }
            j = j + 1;
        }
        let descriptor = descriptor_from_members(name, members);
        self.entries.push(RegistryEntry { type_key, template: FunctionTemplate { descriptor } });
        n
    }
}

impl Default for Resources {
    /// An empty registry: nothing filed yet.
    fn default() -> (r: Resources)
        ensures
            r.wf(),
            r.entries@ =~= Seq::<RegistryEntry>::empty(),
    {
        Resources { entries: Vec::new() }
    }
}

/// The typed registry entry for resource type `R`: the cached callable
/// template the host uses to instantiate wrappers for `R`.
pub struct ResourceImpl<R: Resource> {
    pub template: FunctionTemplate,
    pub marker: PhantomData<R>,
}

impl<R: Resource> ResourceTemplate for ResourceImpl<R> {
    open spec fn schema_ok() -> bool {
        no_property(R::members_spec())
    }

    open spec fn template_ok(t: FunctionTemplate) -> bool {
        descriptor_matches(t.descriptor, R::class_name_spec(), R::members_spec())
    }

    open spec fn template_spec(self) -> FunctionTemplate {
        self.template
    }

    fn new(lock: &mut Lock) -> (r: Self) {
        ResourceImpl { template: create_resource_constructor::<R>(lock), marker: PhantomData }
    }

    fn get_constructor(&self) -> (r: &FunctionTemplate) {
        &self.template
    }
}

} // verus!
