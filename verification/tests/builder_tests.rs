use xim::attrs::{AttrIdMap, Attribute, AttributeBuilder, NestedListBuilder};

fn sample_map() -> AttrIdMap {
    let mut m = AttrIdMap::new();
    m.insert(String::from("inputStyle"), 1);
    m.insert(String::from("clientWindow"), 2);
    m.insert(String::from("preeditAttributes"), 5);
    m.insert(String::from("spotLocation"), 15);
    m.insert(String::from("separatorofNestedList"), 17);
    m
}

#[test]
fn id_map_lookup_present_and_absent() {
    let m = sample_map();
    assert_eq!(m.get("inputStyle"), Some(1));
    assert_eq!(m.get("spotLocation"), Some(15));
    assert_eq!(m.get("fontSet"), None);
}

#[test]
fn id_map_newer_binding_shadows_older() {
    let mut m = AttrIdMap::new();
    m.insert(String::from("inputStyle"), 1);
    m.insert(String::from("inputStyle"), 9);
    assert_eq!(m.get("inputStyle"), Some(9));
}

#[test]
fn push_absent_name_leaves_output_unchanged() {
    let m = sample_map();
    let builder = AttributeBuilder::new(&m);
    let builder = builder.push("inputStyle", vec![1, 0, 0, 0]);
    let builder = builder.push("noSuchAttribute", vec![9, 9, 9]);
    let out = builder.build();
    assert_eq!(out, vec![Attribute { id: 1, value: vec![1, 0, 0, 0] }]);
}

#[test]
fn push_present_name_appends_in_order() {
    let m = sample_map();
    let out = AttributeBuilder::new(&m)
        .push("clientWindow", vec![7, 0, 0, 0])
        .push("inputStyle", vec![1])
        .build();
    assert_eq!(
        out,
        vec![
            Attribute { id: 2, value: vec![7, 0, 0, 0] },
            Attribute { id: 1, value: vec![1] },
        ]
    );
}

#[test]
fn nested_list_missing_separator_skips_all() {
    let mut m = AttrIdMap::new();
    m.insert(String::from("preeditAttributes"), 5);
    m.insert(String::from("spotLocation"), 15);
    let out = AttributeBuilder::new(&m)
        .nested_list("preeditAttributes", |b: NestedListBuilder| {
            b.push("spotLocation", vec![3, 0, 4, 0])
        })
        .build();
    assert_eq!(out, Vec::<Attribute>::new());
}

#[test]
fn nested_list_missing_list_id_skips_all() {
    let mut m = AttrIdMap::new();
    m.insert(String::from("separatorofNestedList"), 17);
    m.insert(String::from("spotLocation"), 15);
    let out = AttributeBuilder::new(&m)
        .nested_list("preeditAttributes", |b: NestedListBuilder| {
            b.push("spotLocation", vec![3, 0, 4, 0])
        })
        .build();
    assert_eq!(out, Vec::<Attribute>::new());
}

#[test]
fn nested_list_emits_open_children_close() {
    let m = sample_map();
    let out = AttributeBuilder::new(&m)
        .push("inputStyle", vec![1])
        .nested_list("preeditAttributes", |b: NestedListBuilder| {
            b.push("spotLocation", vec![3, 0, 4, 0]).push("noSuchAttribute", vec![9])
        })
        .build();
    assert_eq!(
        out,
        vec![
            Attribute { id: 1, value: vec![1] },
            Attribute { id: 5, value: vec![] },
            Attribute { id: 15, value: vec![3, 0, 4, 0] },
            Attribute { id: 17, value: vec![] },
        ]
    );
}
