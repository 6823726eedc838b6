use altgetset::{
    getter, getter_clone, getter_mut, setter, ErrorKind, FieldName, FieldRepr, MetaItem, MetaKind,
    MetaValue, TypeRepr,
};

fn word(name: &str, loc: u64) -> MetaItem {
    MetaItem { name: name.to_string(), kind: MetaKind::Word, loc }
}

fn assign(name: &str, vis: &str, loc: u64) -> MetaItem {
    MetaItem {
        name: name.to_string(),
        kind: MetaKind::Assign(MetaValue::Text(vis.to_string())),
        loc,
    }
}

fn group(items: Vec<MetaItem>, loc: u64) -> MetaItem {
    MetaItem { name: "getset".to_string(), kind: MetaKind::Group(items), loc }
}

fn named_field(name: &str, ty: &str, attrs: Vec<MetaItem>, docs: Vec<String>, loc: u64) -> FieldRepr {
    FieldRepr {
        name: Some(FieldName { ident: name.to_string(), surface: name.to_string() }),
        docs,
        attrs,
        ty: ty.to_string(),
        loc,
    }
}

fn plain_type(name: &str, fields: Vec<FieldRepr>, attrs: Vec<MetaItem>) -> TypeRepr {
    TypeRepr {
        name: name.to_string(),
        generics_impl: String::new(),
        generics_ty: String::new(),
        where_clause: String::new(),
        is_struct: true,
        fields,
        attrs,
        loc: 0,
    }
}

// The declarations of the original round-trip test: `GetSetStruct` with
// field-level directives on both fields, and `GetSetStructPrefix` with a
// type-level default and one skipped field.
fn getset_struct() -> TypeRepr {
    plain_type(
        "GetSetStruct",
        vec![
            named_field(
                "field_a",
                "usize",
                vec![group(
                    vec![assign("get", "pub", 1), assign("get_mut", "pub", 2), assign("set", "pub", 3)],
                    4,
                )],
                vec![],
                5,
            ),
            named_field(
                "field_b",
                "String",
                vec![group(
                    vec![word("get", 6), word("set", 7), word("get_mut", 8), word("get_clone", 9)],
                    10,
                )],
                vec![],
                11,
            ),
        ],
        vec![],
    )
}

fn getset_struct_prefix() -> TypeRepr {
    plain_type(
        "GetSetStructPrefix",
        vec![
            named_field("field_a", "usize", vec![], vec![], 20),
            named_field(
                "field_b",
                "String",
                vec![group(vec![word("skip", 21)], 22)],
                vec!["/// name".to_string()],
                23,
            ),
        ],
        vec![group(
            vec![assign("get", "pub", 24), assign("get_mut", "pub", 25), assign("set", "pub", 26)],
            27,
        )],
    )
}

#[test]
fn test_getset() {
    let t = getset_struct();
    assert_eq!(
        getter(&t).unwrap().as_str(),
        "impl GetSetStruct {\n\
         #[inline(always)]\n\
         pub fn get_field_a(&self) -> &usize { &self.field_a }\n\
         #[inline(always)]\n\
         fn get_field_b(&self) -> &String { &self.field_b }\n\
         }\n"
    );
    assert_eq!(
        getter_mut(&t).unwrap().as_str(),
        "impl GetSetStruct {\n\
         #[inline(always)]\n\
         pub fn get_field_a_mut(&mut self) -> &mut usize { &mut self.field_a }\n\
         #[inline(always)]\n\
         fn get_field_b_mut(&mut self) -> &mut String { &mut self.field_b }\n\
         }\n"
    );
    assert_eq!(
        getter_clone(&t).unwrap().as_str(),
        "impl GetSetStruct {\n\
         #[inline(always)]\n\
         fn get_field_b_clone(&self) -> String { self.field_b.clone() }\n\
         }\n"
    );
    assert_eq!(
        setter(&t).unwrap().as_str(),
        "impl GetSetStruct {\n\
         #[inline(always)]\n\
         pub fn set_field_a(&mut self, val: usize) -> &mut Self { self.field_a = val; self }\n\
         #[inline(always)]\n\
         fn set_field_b(&mut self, val: String) -> &mut Self { self.field_b = val; self }\n\
         }\n"
    );

    let p = getset_struct_prefix();
    assert_eq!(
        getter(&p).unwrap().as_str(),
        "impl GetSetStructPrefix {\n\
         #[inline(always)]\n\
         pub fn get_field_a(&self) -> &usize { &self.field_a }\n\
         }\n"
    );
    assert_eq!(
        setter(&p).unwrap().as_str(),
        "impl GetSetStructPrefix {\n\
         #[inline(always)]\n\
         pub fn set_field_a(&mut self, val: usize) -> &mut Self { self.field_a = val; self }\n\
         }\n"
    );
    assert_eq!(
        getter_clone(&p).unwrap().as_str(),
        "impl GetSetStructPrefix {\n}\n"
    );
}

// Scenario: type-level `get = "pub", get_mut = "pub", set = "pub"` and a
// field without any directive of its own gets all three public methods.
#[test]
fn scenario_type_level_default() {
    let t = plain_type(
        "Point",
        vec![named_field("x", "i64", vec![], vec![], 1)],
        vec![group(
            vec![assign("get", "pub", 2), assign("get_mut", "pub", 3), assign("set", "pub", 4)],
            5,
        )],
    );
    assert_eq!(
        getter(&t).unwrap().as_str(),
        "impl Point {\n#[inline(always)]\npub fn get_x(&self) -> &i64 { &self.x }\n}\n"
    );
    assert_eq!(
        getter_mut(&t).unwrap().as_str(),
        "impl Point {\n#[inline(always)]\npub fn get_x_mut(&mut self) -> &mut i64 { &mut self.x }\n}\n"
    );
    assert_eq!(
        setter(&t).unwrap().as_str(),
        "impl Point {\n#[inline(always)]\npub fn set_x(&mut self, val: i64) -> &mut Self { self.x = val; self }\n}\n"
    );
    // No type-level `get_clone`, so the cloning run generates nothing.
    assert_eq!(getter_clone(&t).unwrap().as_str(), "impl Point {\n}\n");
}

// Scenario: a field with the four bare standalone annotations gets all four
// methods with default (non-public) visibility.
#[test]
fn scenario_bare_field_annotations() {
    let t = plain_type(
        "Message",
        vec![named_field(
            "y",
            "String",
            vec![word("get", 1), word("set", 2), word("get_mut", 3), word("get_clone", 4)],
            vec![],
            5,
        )],
        vec![],
    );
    assert_eq!(
        getter(&t).unwrap().as_str(),
        "impl Message {\n#[inline(always)]\nfn get_y(&self) -> &String { &self.y }\n}\n"
    );
    assert_eq!(
        setter(&t).unwrap().as_str(),
        "impl Message {\n#[inline(always)]\nfn set_y(&mut self, val: String) -> &mut Self { self.y = val; self }\n}\n"
    );
    assert_eq!(
        getter_mut(&t).unwrap().as_str(),
        "impl Message {\n#[inline(always)]\nfn get_y_mut(&mut self) -> &mut String { &mut self.y }\n}\n"
    );
    assert_eq!(
        getter_clone(&t).unwrap().as_str(),
        "impl Message {\n#[inline(always)]\nfn get_y_clone(&self) -> String { self.y.clone() }\n}\n"
    );
}

// Scenario: a skipped field under a type-level `get = "pub"` default gets
// no getter at all.
#[test]
fn scenario_skip_beats_default() {
    let t = plain_type(
        "Hidden",
        vec![named_field("z", "u8", vec![group(vec![word("skip", 1)], 2)], vec![], 3)],
        vec![assign("get", "pub", 4)],
    );
    assert_eq!(getter(&t).unwrap().as_str(), "impl Hidden {\n}\n");
}

// Scenario: an unknown keyword inside a grouped annotation is a fatal
// grammar error; nothing at all is generated for the type.
#[test]
fn scenario_unknown_keyword() {
    let t = plain_type(
        "Broken",
        vec![named_field(
            "a",
            "u8",
            vec![group(vec![word("get", 1), word("foo", 2)], 3)],
            vec![],
            4,
        )],
        vec![],
    );
    let e = getter(&t).unwrap_err();
    assert_eq!(e.kind, ErrorKind::UnknownDirective);
    assert_eq!(e.loc, 2);
    // The other modes fail on the same group as well.
    assert_eq!(setter(&t).unwrap_err().kind, ErrorKind::UnknownDirective);
}

// Documentation lines attached to a field appear, verbatim and in order, on
// every method generated for it.
#[test]
fn docs_carried_verbatim() {
    let docs = vec!["/// first line".to_string(), "/// second line".to_string()];
    let t = plain_type(
        "Doc",
        vec![named_field(
            "n",
            "u32",
            vec![group(vec![word("get", 1), word("set", 2)], 3)],
            docs,
            4,
        )],
        vec![],
    );
    assert_eq!(
        getter(&t).unwrap().as_str(),
        "impl Doc {\n\
         /// first line\n\
         /// second line\n\
         #[inline(always)]\n\
         fn get_n(&self) -> &u32 { &self.n }\n\
         }\n"
    );
    assert_eq!(
        setter(&t).unwrap().as_str(),
        "impl Doc {\n\
         /// first line\n\
         /// second line\n\
         #[inline(always)]\n\
         fn set_n(&mut self, val: u32) -> &mut Self { self.n = val; self }\n\
         }\n"
    );
}

// The generated setter returns `&mut Self`, so calls chain.
#[test]
fn setter_is_chainable() {
    let t = plain_type(
        "Chain",
        vec![named_field("v", "u8", vec![word("set", 1)], vec![], 2)],
        vec![],
    );
    let text = setter(&t).unwrap();
    assert!(text.contains("-> &mut Self"));
    assert!(text.ends_with("{ self.v = val; self }\n}\n"));
}

// Generics and the where clause are copied through around the methods.
#[test]
fn generics_copied_through() {
    let t = TypeRepr {
        name: "Wrap".to_string(),
        generics_impl: "<T: Clone>".to_string(),
        generics_ty: "<T>".to_string(),
        where_clause: "where T: Default".to_string(),
        is_struct: true,
        fields: vec![named_field("inner", "T", vec![word("get", 1)], vec![], 2)],
        attrs: vec![],
        loc: 0,
    };
    assert_eq!(
        getter(&t).unwrap().as_str(),
        "impl<T: Clone> Wrap<T> where T: Default {\n\
         #[inline(always)]\n\
         fn get_inner(&self) -> &T { &self.inner }\n\
         }\n"
    );
}

// A raw field identifier keeps its surface form in the body while the
// method name uses the stripped identifier.
#[test]
fn raw_identifier_field() {
    let t = plain_type(
        "Rawhide",
        vec![FieldRepr {
            name: Some(FieldName { ident: "type".to_string(), surface: "r#type".to_string() }),
            docs: vec![],
            attrs: vec![word("get", 1)],
            ty: "u8".to_string(),
            loc: 2,
        }],
        vec![],
    );
    assert_eq!(
        getter(&t).unwrap().as_str(),
        "impl Rawhide {\n#[inline(always)]\nfn get_type(&self) -> &u8 { &self.r#type }\n}\n"
    );
}
