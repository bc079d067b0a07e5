//! Registry memoization: one template per (type, context) pair, found again
//! on every later access.

use jsg::Member;
use jsg::Resources;

fn widget_members() -> Vec<Member> {
    vec![
        Member::Constructor { callback: 21 },
        Member::Method { name: "getName".to_owned(), callback: 22 },
    ]
}

#[test]
fn get_or_create_builds_once() {
    let mut resources = Resources::default();
    let i = resources.get_or_create_with(7, "Widget".to_owned(), widget_members());
    assert_eq!(resources.entries.len(), 1);
    let d = &resources.entries[i].template.descriptor;
    assert_eq!(d.name, "Widget");
    assert_eq!(d.constructor.map(|c| c.callback), Some(21));
    assert_eq!(d.methods[0].name, "getName");

    let j = resources.get_or_create_with(7, "Widget".to_owned(), widget_members());
    assert_eq!(j, i);
    assert_eq!(resources.entries.len(), 1);
}

#[test]
fn distinct_types_get_distinct_entries() {
    let mut resources = Resources::default();
    let i = resources.get_or_create_with(1, "Widget".to_owned(), widget_members());
    let j = resources.get_or_create_with(2, "Gadget".to_owned(), vec![]);
    assert_ne!(i, j);
    assert_eq!(resources.entries.len(), 2);
    assert_eq!(resources.entries[j].template.descriptor.name, "Gadget");
    assert!(resources.entries[j].template.descriptor.constructor.is_none());
}
