//! A bridge between native reference counting and a tracing host collector.
//!
//! Native code allocates resource instances and holds strong, cloneable
//! references to them. An instance may be exposed ("wrapped") to the host
//! runtime exactly once; from then on its destruction is deferred to the
//! host collector's finalizer instead of happening when the last strong
//! reference goes away. This crate states and verifies that protocol:
//! no instance is destroyed twice, none is destroyed while a strong
//! reference or a live wrapper still needs it, and none leaks across the
//! transition from counted to collector-managed life.

use vstd::pervasive::unreached;
use vstd::prelude::*;
use vstd::string::StringExecFns;

pub mod descriptor;
pub mod host;
pub mod registry;
pub mod resource;

pub use crate::descriptor::Member;
use crate::descriptor::ResourceDescriptor;
use crate::descriptor::descriptor_from_members;
use crate::descriptor::descriptor_matches;
use crate::descriptor::no_property;
use crate::host::FunctionCallbackInfo;
use crate::host::FunctionTemplate;
use crate::host::IsolatePtr;
use crate::host::Value;
use crate::host::type_of_spec;
pub use crate::registry::RegistryEntry;
pub use crate::registry::ResourceImpl;
pub use crate::registry::Resources;
use crate::registry::fresh_entry;
use crate::registry::has_key;
use crate::resource::Instances;
pub use crate::resource::Ref;
use crate::resource::new_instance;

verus! {

/// The kind of host exception an [`Error`] carries.
#[derive(Clone, Copy, Debug, PartialEq, Eq, Structural)]
pub enum ExceptionType {
    Error,
    TypeError,
    RangeError,
    SyntaxError,
    ReferenceError,
}

/// An error surfaced to the host runtime as an exception of a given kind.
#[derive(Debug)]
pub struct Error {
    pub name: ExceptionType,
    pub message: String,
}

impl Error {
    pub fn new(name: ExceptionType, message: String) -> (r: Error)
        ensures
            r.name == name,
            r.message == message,
    {
        Error { name, message }
    }
}

impl Default for Error {
    fn default() -> (r: Error)
        ensures
            r.name == ExceptionType::Error,
            r.message@ == "An unknown error occurred"@,
    {
        Error { name: ExceptionType::Error, message: "An unknown error occurred".to_owned() }
    }
}

/// Access to host operations within an isolate lock. A `Lock` stands for
/// holding the host engine's single global execution lock; it carries the
/// isolate it was taken on and, as the observable effect of throwing, the
/// message of the exception pending on that isolate.
pub struct Lock {
    pub isolate: IsolatePtr,
    pub pending: Option<String>,
}

impl Lock {
    /// The lock the host hands a callback, taken on the isolate the
    /// callback's arguments belong to.
    pub fn from_args(args: &FunctionCallbackInfo) -> (r: Lock)
        ensures
            r.isolate == args.isolate,
            r.pending is None,
    {
        Lock::from_isolate_ptr(args.isolate)
    }

    /// A lock on the given isolate, with no exception pending.
    pub fn from_isolate_ptr(isolate: IsolatePtr) -> (r: Lock)
        ensures
            r.isolate == isolate,
            r.pending is None,
    {
        Lock { isolate, pending: None }
    }

    /// The isolate this lock is held on.
    pub fn isolate(&self) -> (r: IsolatePtr)
        ensures
            r == self.isolate,
    {
        self.isolate
    }

    /// Creates a fresh, empty host object.
    pub fn new_object(&mut self) -> (r: Value)
        ensures
            r is Object,
            *final(self) == *old(self),
    {
        Value::Object
    }

    /// Throws a host exception: the message becomes the exception pending
    /// on this lock's isolate, replacing any earlier one.
    pub fn throw_error(&mut self, message: String)
        ensures
            final(self).isolate == old(self).isolate,
            final(self).pending == Some(message),
    {
        self.pending = Some(message);
    }
}

/// A native value exposed to the host runtime, or taken back from it.
/// Primitive marshaling itself belongs to the host collaborator; what this
/// core requires of each exposable type is the wrap / is-exact / unwrap
/// contract below, with `is_exact` the means of rejecting coercions.
pub trait Type: Sized {
    /// The input for [`wrap`](Self::wrap). For primitive types this is
    /// `Self`; resource types hand over a [`resource::Ref`] instead.
    type This;

    spec fn class_name_spec() -> Seq<char>;

    /// The class name the host displays for this type.
    fn class_name() -> (r: &'static str)
        ensures
            r@ == Self::class_name_spec(),
    ;

    spec fn is_exact_spec(value: Value) -> bool;

    /// True if the host value is exactly this type, with no coercion.
    fn is_exact(value: &Value) -> (r: bool)
        ensures
            r == Self::is_exact_spec(*value),
    ;

    spec fn unwrap_spec(value: Value) -> Self;

    /// Takes this type back out of a host value, without coercion.
    fn unwrap(isolate: IsolatePtr, value: Value) -> (r: Self)
        requires
            Self::is_exact_spec(value),
        ensures
            r == Self::unwrap_spec(value),
    ;

    spec fn wrap_spec(this: Self::This) -> Value;

    /// Exposes a native value to the host. What comes out is exactly this
    /// type: wrapping and then testing with `is_exact` accepts.
    fn wrap(this: Self::This, lock: &mut Lock) -> (r: Value)
        ensures
            r == Self::wrap_spec(this),
            Self::is_exact_spec(r),
            *final(lock) == *old(lock),
    ;
}

impl Type for String {
    type This = String;

    open spec fn class_name_spec() -> Seq<char> {
        "string"@
    }

    fn class_name() -> (r: &'static str) {
        "string"
    }

    open spec fn is_exact_spec(value: Value) -> bool {
        value is Str
    }

    fn is_exact(value: &Value) -> (r: bool) {
        value.is_string()
    }

    open spec fn unwrap_spec(value: Value) -> String {
        value->Str_0
    }

    fn unwrap(isolate: IsolatePtr, value: Value) -> (r: String) {
        match value {
            Value::Str(s) => s,
            _ => unreached(),
        }
    }

    open spec fn wrap_spec(this: String) -> Value {
        Value::Str(this)
    }

    fn wrap(this: String, lock: &mut Lock) -> (r: Value) {
        Value::Str(this)
    }
}

impl Type for bool {
    type This = bool;

    open spec fn class_name_spec() -> Seq<char> {
        "boolean"@
    }

    fn class_name() -> (r: &'static str) {
        "boolean"
    }

    open spec fn is_exact_spec(value: Value) -> bool {
        value is Boolean
    }

    fn is_exact(value: &Value) -> (r: bool) {
        value.is_boolean()
    }

    open spec fn unwrap_spec(value: Value) -> bool {
        value->Boolean_0
    }

    fn unwrap(isolate: IsolatePtr, value: Value) -> (r: bool) {
        match value {
            Value::Boolean(b) => b,
            _ => unreached(),
        }
    }

    open spec fn wrap_spec(this: bool) -> Value {
        Value::Boolean(this)
    }

    fn wrap(this: bool, lock: &mut Lock) -> (r: Value) {
        Value::Boolean(this)
    }
}

/// A wrapper that refuses automatic type coercion when unwrapping a host
/// value: the inner value is accepted only if the host value already is the
/// exact type, never by coercing it (so a null is not quietly turned into
/// the string it prints as).
#[derive(Debug, Clone, PartialEq, Eq)]
pub struct NonCoercible<T: Type> {
    pub value: T,
}

impl<T: Type> NonCoercible<T> {
    /// Wraps an already-native value.
    pub fn new(value: T) -> (r: NonCoercible<T>)
        ensures
            r == (NonCoercible { value }),
    {
        NonCoercible { value }
    }

    /// Takes a host value into `NonCoercible<T>`, throwing a host error and
    /// returning nothing if and only if the value is not exactly of type
    /// `T`.
    pub fn unwrap(lock: &mut Lock, value: Value) -> (r: Option<NonCoercible<T>>)
        ensures
            T::is_exact_spec(value) ==> r == Some(NonCoercible { value: T::unwrap_spec(value) })
                && *final(lock) == *old(lock),
            !T::is_exact_spec(value) ==> r is None && final(lock).isolate == old(lock).isolate && (
            final(lock).pending matches Some(m) && m@ == "Expected a "@ + T::class_name_spec()
                + " value but got "@ + type_of_spec(value)),
    {
        if !T::is_exact(&value) {
            let expected = T::class_name();
            let mut error_msg = "Expected a ".to_owned();
            error_msg.append(expected);
            error_msg.append(" value but got ");
            error_msg.append(value.type_of());
            lock.throw_error(error_msg);
            return None;
        }
        let inner = T::unwrap(lock.isolate(), value);
        Some(NonCoercible::new(inner))
    }

    /// A shared view of the inner value.
    pub fn as_ref(&self) -> (r: &T)
        ensures
            *r == self.value,
    {
        &self.value
    }
}

impl<T: Type> From<T> for NonCoercible<T> {
    fn from(value: T) -> (r: NonCoercible<T>) {
        NonCoercible::new(value)
    }
}

impl<T: Type> vstd::std_specs::convert::FromSpecImpl<T> for NonCoercible<T> {
    open spec fn obeys_from_spec() -> bool {
        true
    }

    open spec fn from_spec(value: T) -> NonCoercible<T> {
        NonCoercible { value }
    }
}

/// Hands a native result to the host: a success value is wrapped and set as
/// the callback's return value; an error is thrown on the isolate, with the
/// arguments left alone.
pub fn handle_result<T: Type<This = T>>(
    lock: &mut Lock,
    args: &mut FunctionCallbackInfo,
    result: Result<T, Error>,
)
    ensures
        result matches Ok(v) ==> final(args).isolate == old(args).isolate
            && final(args).return_value == Some(T::wrap_spec(v))
            && *final(lock) == *old(lock),
        result matches Err(e) ==> *final(args) == *old(args)
            && final(lock).isolate == old(lock).isolate
            && final(lock).pending == Some(e.message),
{
    match result {
        Ok(value) => {
            let wrapped = T::wrap(value, lock);
            args.set_return_value(wrapped);
        },
        Err(err) => {
            lock.throw_error(err.message);
        },
    }
}

/// A native type exposed to the host as a resource: host code holds a
/// wrapper object and calls back into native method implementations. A
/// resource declares the member schema of its callable surface and is
/// allocated into reference-counted instances whose life the wrap protocol
/// of [`resource`] governs.
pub trait Resource: Type + Sized {
    /// The cached template type for this resource's callable surface.
    type Template: ResourceTemplate;

    spec fn type_key_spec() -> u64;

    /// A process-wide key identifying this resource type; the model of the
    /// type's identity a registry files its entry under.
    fn type_key() -> (r: u64)
        ensures
            r == Self::type_key_spec(),
    ;

    spec fn members_spec() -> Seq<Member>;

    /// The schema of constructors, methods and static methods this type
    /// exposes to the host.
    fn members() -> (r: Vec<Member>)
        ensures
            r@ == Self::members_spec(),
    ;

    /// Allocates an instance of this resource and returns the one strong
    /// reference to it: count one, no wrapper, nothing destroyed.
    fn allocate(heap: &mut Instances<Self>, this: Self) -> (r: Ref<Self>)
        requires
            old(heap).wf(),
        ensures
            final(heap).wf(),
            r.id == old(heap).instances@.len(),
            final(heap).instances@ =~= old(heap).instances@.push(new_instance(this)),
            final(heap).dtor_runs == old(heap).dtor_runs,
    {
        heap.allocate(this)
    }
}

/// The cached callable template of one resource type. A template is built
/// once per execution context from the type's member schema and reused for
/// every wrapper the context creates.
pub trait ResourceTemplate: Sized {
    /// Whether this type's schema is one a template can be built from.
    spec fn schema_ok() -> bool;

    /// What holds of a correctly built template for this type.
    spec fn template_ok(t: FunctionTemplate) -> bool;

    /// The template this value caches.
    spec fn template_spec(self) -> FunctionTemplate;

    /// Builds the template for the given lock, consulting the type's
    /// member schema.
    fn new(lock: &mut Lock) -> (r: Self)
        requires
            Self::schema_ok(),
        ensures
            Self::template_ok(r.template_spec()),
            *final(lock) == *old(lock),
    ;

    /// The cached template used to create wrappers.
    fn get_constructor(&self) -> (r: &FunctionTemplate)
        ensures
            *r == self.template_spec(),
    ;
}

/// A native type deep-copied into the host as a value type: wrapping copies
/// the fields whole and the host keeps no tie back into native code.
pub trait Struct: Type {
}

/// The descriptor of a resource type's host-visible surface, read off its
/// member schema.
fn get_resource_descriptor<R: Resource>() -> (r: ResourceDescriptor)
    requires
        no_property(R::members_spec()),
    ensures
        descriptor_matches(r, R::class_name_spec(), R::members_spec()),
{
    let name = R::class_name().to_owned();
    let members = R::members();
    descriptor_from_members(name, members)
}

/// Hands a resource type's descriptor to the host's template builder and
/// returns the callable template it produces.
pub fn create_resource_constructor<R: Resource>(lock: &mut Lock) -> (r: FunctionTemplate)
    requires
        no_property(R::members_spec()),
    ensures
        descriptor_matches(r.descriptor, R::class_name_spec(), R::members_spec()),
        *final(lock) == *old(lock),
{
    let descriptor = get_resource_descriptor::<R>();
    FunctionTemplate { descriptor }
}

/// Per-context state for resources exposed to the host. A realm is created
/// for each host execution context; it owns that context's resource
/// registry, whose entries live exactly as long as the realm does and never
/// refer to individual instances.
pub struct Realm {
    pub isolate: IsolatePtr,
    pub resources: Resources,
}

impl Realm {
    /// A fresh realm on the given isolate, with an empty registry.
    pub fn from_isolate(isolate: IsolatePtr) -> (r: Realm)
        ensures
            r.isolate == isolate,
            r.resources.wf(),
            r.resources.entries@ =~= Seq::<RegistryEntry>::empty(),
    {
        Realm { isolate, resources: Resources::default() }
    }

    /// The isolate this realm belongs to.
    pub fn isolate(&self) -> (r: IsolatePtr)
        ensures
            r == self.isolate,
    {
        self.isolate
    }

    /// The registry entry for resource type `R` in this realm, built from
    /// the type's schema on first access and found again afterwards.
    pub fn get_resources<R: Resource>(&mut self) -> (i: usize)
        requires
            old(self).resources.wf(),
            no_property(R::members_spec()),
        ensures
            final(self).isolate == old(self).isolate,
            final(self).resources.wf(),
            i < final(self).resources.entries@.len(),
            final(self).resources.entries@[i as int].type_key == R::type_key_spec(),
            has_key(old(self).resources.entries@, R::type_key_spec()) ==> final(self).resources
                == old(self).resources,
            !has_key(old(self).resources.entries@, R::type_key_spec()) ==> fresh_entry(
                old(self).resources.entries@,
                final(self).resources.entries@,
                i,
                R::type_key_spec(),
                R::class_name_spec(),
                R::members_spec(),
            ),
    {
        let isolate = self.isolate;
        let mut lock = Lock::from_isolate_ptr(isolate);
        self.resources.get_or_create::<R>(&mut lock)
    }
}

} // verus!
