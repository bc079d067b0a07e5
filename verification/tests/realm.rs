//! A realm owns its registry: the typed access path builds a resource's
//! template on first use and finds the same entry afterwards.

use jsg::Lock;
use jsg::Member;
use jsg::Realm;
use jsg::Resource;
use jsg::ResourceImpl;
use jsg::ResourceTemplate;
use jsg::Type;
use jsg::create_resource_constructor;
use jsg::host::IsolatePtr;
use jsg::host::Value;
use jsg::resource::Instances;

struct Counter {
    value: u64,
}

// The *_spec trait items are the specification half of the trait; outside
// the verified build they are never invoked, so stubs satisfy the compiler.
impl Type for Counter {
    type This = Counter;

    fn class_name_spec() -> vstd::seq::Seq<char> {
        panic!()
    }

    fn is_exact_spec(_value: Value) -> bool {
        panic!()
    }

    fn unwrap_spec(_value: Value) -> Counter {
        panic!()
    }

    fn wrap_spec(_this: Counter) -> Value {
        panic!()
    }

    fn class_name() -> &'static str {
        "Counter"
    }

    fn is_exact(value: &Value) -> bool {
        matches!(value, Value::Object)
    }

    fn unwrap(_isolate: IsolatePtr, _value: Value) -> Counter {
        Counter { value: 0 }
    }

    fn wrap(_this: Counter, _lock: &mut Lock) -> Value {
        Value::Object
    }
}

impl Resource for Counter {
    type Template = ResourceImpl<Counter>;

    fn type_key_spec() -> u64 {
        panic!()
    }

    fn members_spec() -> vstd::seq::Seq<Member> {
        panic!()
    }

    fn type_key() -> u64 {
        17
    }

    fn members() -> Vec<Member> {
        vec![
            Member::Constructor { callback: 31 },
            Member::Method { name: "increment".to_owned(), callback: 32 },
        ]
    }
}

#[test]
fn realm_caches_one_entry_per_type() {
    let mut realm = Realm::from_isolate(IsolatePtr { addr: 5 });
    assert_eq!(realm.isolate(), IsolatePtr { addr: 5 });
    let i = realm.get_resources::<Counter>();
    assert_eq!(realm.resources.entries.len(), 1);
    let d = &realm.resources.entries[i].template.descriptor;
    assert_eq!(d.name, "Counter");
    assert_eq!(d.constructor.map(|c| c.callback), Some(31));
    assert_eq!(d.methods[0].name, "increment");
    let j = realm.get_resources::<Counter>();
    assert_eq!(j, i);
    assert_eq!(realm.resources.entries.len(), 1);
}

#[test]
fn template_builder_reads_the_schema() {
    let mut lock = Lock::from_isolate_ptr(IsolatePtr { addr: 5 });
    let template = create_resource_constructor::<Counter>(&mut lock);
    assert_eq!(template.descriptor.name, "Counter");
    assert_eq!(template.descriptor.methods.len(), 1);

    let cached = <ResourceImpl<Counter> as ResourceTemplate>::new(&mut lock);
    assert_eq!(cached.get_constructor().descriptor.name, "Counter");
}

#[test]
fn resources_allocate_through_the_trait() {
    let mut heap: Instances<Counter> = Instances::new();
    let r = Counter::allocate(&mut heap, Counter { value: 9 });
    assert_eq!(heap.get(r.id).map(|c| c.value), Some(9));
    heap.drop_ref(r);
    assert_eq!(heap.dtor_count(), 1);
}
