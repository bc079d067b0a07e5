//! The member schema of a resource type and the descriptor handed to the
//! host's callable-template builder.
//!
//! A resource type declares its host-visible surface as a sequence of
//! [`Member`] entries: at most one constructor wins (the last declared), and
//! methods and static methods keep their declaration order. Property
//! accessors may be declared in the schema, but building a descriptor from
//! them is unsupported; schemas are fixed at registration time, so a caller
//! must establish [`no_property`] before building. Callable addresses are
//! carried as address-sized tokens.

use vstd::pervasive::unreached;
use vstd::prelude::*;

verus! {

/// One schema entry of a resource type's host-visible surface.
pub enum Member {
    Constructor { callback: usize },
    Method { name: String, callback: usize },
    Property { name: String, getter_callback: usize, setter_callback: usize },
    StaticMethod { name: String, callback: usize },
}

#[derive(Clone, Copy, Debug, PartialEq, Eq, Structural)]
pub struct ConstructorDescriptor {
    pub callback: usize,
}

#[derive(Clone, Debug)]
pub struct MethodDescriptor {
    pub name: String,
    pub callback: usize,
}

#[derive(Clone, Debug)]
pub struct StaticMethodDescriptor {
    pub name: String,
    pub callback: usize,
}

/// The shape the host's template builder consumes: a class name, an
/// optional constructor, and the instance and static methods.
#[derive(Clone, Debug)]
pub struct ResourceDescriptor {
    pub name: String,
    pub constructor: Option<ConstructorDescriptor>,
    pub methods: Vec<MethodDescriptor>,
    pub static_methods: Vec<StaticMethodDescriptor>,
}

/// No entry of the schema is a property accessor pair.
pub open spec fn no_property(ms: Seq<Member>) -> bool {
    forall|i: int| 0 <= i < ms.len() ==> !(#[trigger] ms[i] is Property)
}

/// The constructor a schema yields: the callback of its last constructor
/// entry, if it has one.
pub open spec fn constructor_spec(ms: Seq<Member>) -> Option<usize>
    decreases ms.len(),
{
    if ms.len() == 0 {
        None
    } else {
        match ms.last() {
            Member::Constructor { callback } => Some(callback),
            _ => constructor_spec(ms.drop_last()),
        }
    }
}

/// The (name, callback) pairs of a schema's method entries, in order.
pub open spec fn methods_spec(ms: Seq<Member>) -> Seq<(Seq<char>, usize)>
    decreases ms.len(),
{
    if ms.len() == 0 {
        Seq::empty()
    } else {
        match ms.last() {
            Member::Method { name, callback } => methods_spec(ms.drop_last()).push(
                (name@, callback),
            ),
            _ => methods_spec(ms.drop_last()),
        }
    }
}

/// The (name, callback) pairs of a schema's static-method entries, in
/// order.
pub open spec fn statics_spec(ms: Seq<Member>) -> Seq<(Seq<char>, usize)>
    decreases ms.len(),
{
    if ms.len() == 0 {
        Seq::empty()
    } else {
        match ms.last() {
            Member::StaticMethod { name, callback } => statics_spec(ms.drop_last()).push(
                (name@, callback),
            ),
            _ => statics_spec(ms.drop_last()),
        }
    }
}

/// The (name, callback) pairs a built method list holds.
pub open spec fn method_views(v: Seq<MethodDescriptor>) -> Seq<(Seq<char>, usize)>
    decreases v.len(),
{
    if v.len() == 0 {
        Seq::empty()
    } else {
        method_views(v.drop_last()).push((v.last().name@, v.last().callback))
    }
}

/// The (name, callback) pairs a built static-method list holds.
pub open spec fn static_views(v: Seq<StaticMethodDescriptor>) -> Seq<(Seq<char>, usize)>
    decreases v.len(),
{
    if v.len() == 0 {
        Seq::empty()
    } else {
        static_views(v.drop_last()).push((v.last().name@, v.last().callback))
    }
}

/// The callback a built constructor slot holds.
pub open spec fn ctor_view(o: Option<ConstructorDescriptor>) -> Option<usize> {
    match o {
        Some(c) => Some(c.callback),
        None => None,
    }
}

/// A descriptor is exactly what the schema `ms` prescribes under class name
/// `name`: same name, the schema's winning constructor, and its method and
/// static-method entries in order.
pub open spec fn descriptor_matches(r: ResourceDescriptor, name: Seq<char>, ms: Seq<Member>) -> bool {
    &&& r.name@ == name
    &&& ctor_view(r.constructor) == constructor_spec(ms)
    &&& method_views(r.methods@) == methods_spec(ms)
    &&& static_views(r.static_methods@) == statics_spec(ms)
}

/// Builds the descriptor a member schema prescribes: the last constructor
/// entry wins, methods and static methods keep their order. Property
/// accessors are declared in schemas but unsupported here, and schemas are
/// fixed at registration time, so a schema holding one is ruled out up
/// front rather than detected at run time.
pub fn descriptor_from_members(name: String, members: Vec<Member>) -> (r: ResourceDescriptor)
    requires
        no_property(members@),
    ensures
        descriptor_matches(r, name@, members@),
{
    let mut descriptor = ResourceDescriptor {
        name,
        constructor: None,
        methods: Vec::new(),
        static_methods: Vec::new(),
    };
    let n = members.len();
    let mut i: usize = 0;
    while i < n
        invariant
            no_property(members@),
            n == members@.len(),
            i <= n,
            descriptor.name@ == name@,
            ctor_view(descriptor.constructor) == constructor_spec(members@.take(i as int)),
            method_views(descriptor.methods@) == methods_spec(members@.take(i as int)),
            static_views(descriptor.static_methods@) == statics_spec(members@.take(i as int)),
        decreases n - i,
    {
        let ghost pre_methods = descriptor.methods@;
        let ghost pre_statics = descriptor.static_methods@;
        proof {
            let prefix = members@.take(i as int + 1);
            assert(prefix.drop_last() =~= members@.take(i as int));
            assert(prefix.last() == members@[i as int]);
        }
        match &members[i] {
            Member::Constructor { callback } => {
                descriptor.constructor = Some(ConstructorDescriptor { callback: *callback });
            },
            Member::Method { name: method_name, callback } => {
                descriptor.methods.push(
                    MethodDescriptor { name: method_name.clone(), callback: *callback },
                );
                proof {
                    assert(descriptor.methods@.drop_last() =~= pre_methods);
                }
            },
            Member::Property { .. } => {
                unreached()
            },
            Member::StaticMethod { name: method_name, callback } => {
                descriptor.static_methods.push(
                    StaticMethodDescriptor { name: method_name.clone(), callback: *callback },
                );
                proof {
                    assert(descriptor.static_methods@.drop_last() =~= pre_statics);
                }
            },
        }
        i = i + 1;
    }
    proof {
        assert(members@.take(n as int) =~= members@);
    }
    descriptor
}

} // verus!
