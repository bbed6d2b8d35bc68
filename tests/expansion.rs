use extend::{
    expand, Diagnostic, DiagnosticKind, Extender, ImplData, ImplItem, ImplItemKind, Item, ItemKind,
    Path, PathSegment, Span, TraitItem, Visibility,
};

fn span(lo: u32, hi: u32) -> Span {
    Span { lo, hi }
}

fn segment(identifier: &str, args: &str) -> PathSegment {
    PathSegment { identifier: identifier.to_string(), args: args.to_string() }
}

fn path(segments: &[&str], at: Span) -> Path {
    Path { segments: segments.iter().map(|s| segment(s, "")).collect(), span: at }
}

fn method(name: &str, attrs: &[&str], sig: &str, block: &str, at: Span) -> ImplItem {
    ImplItem {
        ident: name.to_string(),
        attrs: attrs.iter().map(|s| s.to_string()).collect(),
        node: ImplItemKind::Method { sig: sig.to_string(), block: block.to_string() },
        span: at,
    }
}

fn impl_block(vis: Visibility, generics: &str, trait_ref: Option<Path>, ty: &str, items: Vec<ImplItem>, at: Span) -> Item {
    Item {
        ident: None,
        vis,
        node: ItemKind::Impl {
            generics: generics.to_string(),
            trait_ref,
            self_ty: ty.to_string(),
            items,
        },
        span: at,
    }
}

/// `pub impl<T: fmt::Debug> VecExt<T> for Vec<T> { fn print(&self) { ... } }`
fn vec_ext() -> Item {
    impl_block(
        Visibility::Public,
        "<T: fmt::Debug>",
        Some(Path { segments: vec![segment("VecExt", "<T>")], span: span(30, 39) }),
        "Vec<T>",
        vec![method("print", &[], "fn print(&self)", "{ println!(\"{:?}\", self); }", span(60, 120))],
        span(20, 130),
    )
}

fn assert_error(d: &Diagnostic, kind: DiagnosticKind, at: Span, message: &str) {
    assert_eq!(d.kind, kind);
    assert_eq!(d.span, at);
    assert_eq!(d.message, message);
}

#[test]
fn sample_block_becomes_trait_then_impl() {
    let r = expand(vec![vec_ext()]);
    assert!(r.diagnostics.is_empty());
    assert_eq!(r.items.len(), 2);
    let t = &r.items[0];
    assert_eq!(t.ident, Some("VecExt".to_string()));
    assert_eq!(t.vis, Visibility::Public);
    assert_eq!(t.span, span(20, 130));
    assert_eq!(
        t.node,
        ItemKind::Trait {
            generics: "<T: fmt::Debug>".to_string(),
            items: vec![TraitItem {
                ident: "print".to_string(),
                attrs: vec![],
                sig: "fn print(&self)".to_string(),
                default: None,
                span: span(60, 120),
            }],
        }
    );
    let i = &r.items[1];
    assert_eq!(i.ident, None);
    match &i.node {
        ItemKind::Impl { trait_ref, .. } => {
            assert_eq!(trait_ref, &Some(Path { segments: vec![segment("VecExt", "<T>")], span: span(30, 39) }));
        }
        other => panic!("expected an impl, got {:?}", other),
    }
    assert_eq!(i.vis, Visibility::Inherited);
    assert_eq!(i.span, span(20, 130));
    match vec_ext().node {
        ItemKind::Impl { generics, trait_ref, self_ty, items } => {
            assert_eq!(i.node, ItemKind::Impl { generics, trait_ref, self_ty, items });
        }
        _ => unreachable!(),
    }
}

#[test]
fn counts_of_members_follow_methods() {
    for k in 0..4usize {
        let methods: Vec<ImplItem> = (0..k)
            .map(|j| method(&format!("m{}", j), &[], &format!("fn m{}(&self)", j), "{}", span(j as u32, j as u32 + 1)))
            .collect();
        let item = impl_block(Visibility::Inherited, "", Some(path(&["Ext"], span(0, 3))), "u8", methods, span(0, 50));
        let r = expand(vec![item]);
        assert!(r.diagnostics.is_empty());
        assert_eq!(r.items.len(), 2);
        match &r.items[0].node {
            ItemKind::Trait { items, .. } => {
                assert_eq!(items.len(), k);
                assert!(items.iter().all(|m| m.default.is_none()));
            }
            other => panic!("expected a trait, got {:?}", other),
        }
        match &r.items[1].node {
            ItemKind::Impl { items, .. } => {
                assert_eq!(items.len(), k);
                assert!(items.iter().all(|m| matches!(m.node, ImplItemKind::Method { .. })));
            }
            other => panic!("expected an impl, got {:?}", other),
        }
    }
}

#[test]
fn trait_name_is_last_segment() {
    let item = impl_block(
        Visibility::Inherited,
        "",
        Some(path(&["crate", "ext", "StrExt"], span(5, 25))),
        "str",
        vec![],
        span(0, 40),
    );
    let e = Extender::new(item).unwrap();
    assert_eq!(e.data.trait_name(), "StrExt");
    let mut out = vec![];
    e.extend(&mut out);
    assert_eq!(out[0].ident, Some("StrExt".to_string()));
    match &out[1].node {
        ItemKind::Impl { trait_ref, .. } => {
            assert_eq!(trait_ref, &Some(path(&["crate", "ext", "StrExt"], span(5, 25))));
        }
        other => panic!("expected an impl, got {:?}", other),
    }
}

#[test]
fn visibility_follows_the_input() {
    for vis in [Visibility::Public, Visibility::Inherited] {
        let item = impl_block(vis, "", Some(path(&["Ext"], span(0, 3))), "u8", vec![], span(0, 9));
        let r = expand(vec![item]);
        assert_eq!(r.items[0].vis, vis);
        assert_eq!(r.items[1].vis, Visibility::Inherited);
    }
}

#[test]
fn attributes_signatures_and_bodies_pass_through() {
    let m1 = method("a", &["#[inline]", "#[must_use]"], "fn a<U>(&self, u: U) -> usize", "{ 1 }", span(10, 20));
    let m2 = method("b", &["/// doc"], "fn b(self)", "{ drop(self) }", span(21, 30));
    let item = impl_block(
        Visibility::Public,
        "<'a, T: Clone + 'a>",
        Some(path(&["Ext"], span(1, 4))),
        "&'a [T]",
        vec![m1.clone(), m2.clone()],
        span(0, 40),
    );
    let r = expand(vec![item]);
    match &r.items[0].node {
        ItemKind::Trait { generics, items } => {
            assert_eq!(generics, "<'a, T: Clone + 'a>");
            assert_eq!(items[0].attrs, vec!["#[inline]".to_string(), "#[must_use]".to_string()]);
            assert_eq!(items[0].sig, "fn a<U>(&self, u: U) -> usize");
            assert_eq!(items[0].span, span(10, 20));
            assert_eq!(items[1].ident, "b");
            assert_eq!(items[1].attrs, vec!["/// doc".to_string()]);
            assert_eq!(items[1].sig, "fn b(self)");
            assert_eq!(items[1].span, span(21, 30));
        }
        other => panic!("expected a trait, got {:?}", other),
    }
    match &r.items[1].node {
        ItemKind::Impl { generics, self_ty, items, .. } => {
            assert_eq!(generics, "<'a, T: Clone + 'a>");
            assert_eq!(self_ty, "&'a [T]");
            assert_eq!(items, &vec![m1, m2]);
        }
        other => panic!("expected an impl, got {:?}", other),
    }
}

#[test]
fn same_named_methods_are_kept() {
    let m = method("f", &[], "fn f(&self)", "{}", span(1, 2));
    let item = impl_block(Visibility::Inherited, "", Some(path(&["Ext"], span(0, 3))), "u8", vec![m.clone(), m.clone()], span(0, 9));
    let r = expand(vec![item]);
    match &r.items[1].node {
        ItemKind::Impl { items, .. } => assert_eq!(items, &vec![m.clone(), m]),
        other => panic!("expected an impl, got {:?}", other),
    }
}

#[test]
fn inherent_impl_is_not_an_impl() {
    let item = impl_block(Visibility::Public, "", None, "Foo", vec![], span(3, 17));
    let e = Extender::new(item.clone()).unwrap_err();
    assert_error(&e, DiagnosticKind::NotAnImpl, span(3, 17), "Expected an `impl` item, found: an inherent `impl` block");
    let r = expand(vec![item]);
    assert!(r.items.is_empty());
    assert_eq!(r.diagnostics, vec![e]);
}

#[test]
fn other_items_are_not_impls() {
    let f = Item { ident: Some("f".to_string()), vis: Visibility::Inherited, node: ItemKind::Other { kind: "a function".to_string() }, span: span(0, 12) };
    let e = Extender::new(f).unwrap_err();
    assert_error(&e, DiagnosticKind::NotAnImpl, span(0, 12), "Expected an `impl` item, found: a function");
    let t = Item {
        ident: Some("T".to_string()),
        vis: Visibility::Public,
        node: ItemKind::Trait { generics: String::new(), items: vec![] },
        span: span(4, 8),
    };
    let e = Extender::new(t).unwrap_err();
    assert_error(&e, DiagnosticKind::NotAnImpl, span(4, 8), "Expected an `impl` item, found: a trait");
}

#[test]
fn empty_trait_path_is_invalid() {
    let item = impl_block(Visibility::Inherited, "", Some(path(&[], span(7, 7))), "u8", vec![], span(0, 20));
    let e = Extender::new(item.clone()).unwrap_err();
    assert_error(&e, DiagnosticKind::InvalidTraitPath, span(7, 7), "Need a valid path for trait name");
    assert!(expand(vec![item]).items.is_empty());
}

#[test]
fn empty_trait_name_is_invalid() {
    let p = Path { segments: vec![segment("ext", ""), segment("", "<T>")], span: span(4, 9) };
    let item = impl_block(Visibility::Inherited, "", Some(p), "u8", vec![], span(0, 20));
    let e = Extender::new(item.clone()).unwrap_err();
    assert_error(&e, DiagnosticKind::InvalidTraitPath, span(4, 9), "Need a valid path for trait name");
    let r = expand(vec![item]);
    assert!(r.items.is_empty());
    assert_eq!(r.diagnostics, vec![e]);
}

#[test]
fn generic_arguments_stay_out_of_the_name() {
    let p = Path { segments: vec![segment("ext", ""), segment("MapExt", "<K, V>")], span: span(2, 20) };
    let item = impl_block(Visibility::Public, "<K, V>", Some(p.clone()), "HashMap<K, V>", vec![], span(0, 40));
    let e = Extender::new(item).unwrap();
    assert_eq!(e.data.trait_name(), "MapExt");
    let mut out = vec![];
    e.extend(&mut out);
    assert_eq!(out[0].ident, Some("MapExt".to_string()));
    match &out[1].node {
        ItemKind::Impl { trait_ref, .. } => assert_eq!(trait_ref, &Some(p)),
        other => panic!("expected an impl, got {:?}", other),
    }
}

#[test]
fn constant_member_is_not_a_method() {
    let c = ImplItem {
        ident: "N".to_string(),
        attrs: vec![],
        node: ImplItemKind::Const { ty: "usize".to_string(), expr: "3".to_string() },
        span: span(40, 55),
    };
    let ty = ImplItem { ident: "X".to_string(), attrs: vec![], node: ImplItemKind::Type { ty: "u8".to_string() }, span: span(56, 70) };
    let item = impl_block(
        Visibility::Public,
        "",
        Some(path(&["Ext"], span(5, 8))),
        "u8",
        vec![method("f", &[], "fn f(&self)", "{}", span(10, 30)), c, ty],
        span(0, 80),
    );
    let e = Extender::new(item.clone()).unwrap_err();
    assert_error(&e, DiagnosticKind::NotAMethod, span(40, 55), "Expected a method, got an associated constant");
    let r = expand(vec![item]);
    assert!(r.items.is_empty());
    assert_eq!(r.diagnostics.len(), 1);
}

#[test]
fn other_members_are_not_methods() {
    let ty = ImplItem { ident: "X".to_string(), attrs: vec![], node: ImplItemKind::Type { ty: "u8".to_string() }, span: span(1, 2) };
    let mac = ImplItem { ident: String::new(), attrs: vec![], node: ImplItemKind::Macro { mac: "m!()".to_string() }, span: span(3, 4) };
    let item = impl_block(Visibility::Public, "", Some(path(&["Ext"], span(0, 1))), "u8", vec![ty], span(0, 9));
    let e = ImplData::new(String::new(), path(&["Ext"], span(0, 1)), "u8".to_string(), vec![mac]).unwrap_err();
    assert_error(&e, DiagnosticKind::NotAMethod, span(3, 4), "Expected a method, got a macro invocation");
    let e = Extender::new(item).unwrap_err();
    assert_error(&e, DiagnosticKind::NotAMethod, span(1, 2), "Expected a method, got an associated type");
}

#[test]
fn bad_block_does_not_affect_good_one() {
    let bad = impl_block(Visibility::Public, "", None, "Foo", vec![], span(200, 210));
    for items in [vec![vec_ext(), bad.clone()], vec![bad.clone(), vec_ext()]] {
        let r = expand(items);
        assert_eq!(r.diagnostics.len(), 1);
        assert_eq!(r.diagnostics[0].span, span(200, 210));
        assert_eq!(r.items, expand(vec![vec_ext()]).items);
        assert_eq!(r.items.len(), 2);
    }
}

#[test]
fn several_blocks_expand_in_order() {
    let second = impl_block(Visibility::Inherited, "", Some(path(&["Second"], span(0, 6))), "u8", vec![], span(300, 310));
    let r = expand(vec![vec_ext(), second]);
    assert!(r.diagnostics.is_empty());
    let names: Vec<Option<String>> = r.items.iter().map(|i| i.ident.clone()).collect();
    assert_eq!(names, vec![Some("VecExt".to_string()), None, Some("Second".to_string()), None]);
}

#[test]
fn empty_invocation_expands_to_nothing() {
    let r = expand(vec![]);
    assert!(r.items.is_empty());
    assert!(r.diagnostics.is_empty());
}

#[test]
fn extraction_is_deterministic() {
    let a = Extender::new(vec_ext()).unwrap();
    let b = Extender::new(vec_ext()).unwrap();
    assert_eq!(a, b);
    assert_eq!(expand(vec![vec_ext()]), expand(vec![vec_ext()]));
}

#[test]
fn extend_appends_after_existing_items() {
    let existing = impl_block(Visibility::Inherited, "", Some(path(&["Old"], span(0, 3))), "u8", vec![], span(0, 9));
    let mut out = vec![existing.clone()];
    Extender::new(vec_ext()).unwrap().extend(&mut out);
    assert_eq!(out.len(), 3);
    assert_eq!(out[0], existing);
    assert_eq!(out[1].ident, Some("VecExt".to_string()));
    assert!(matches!(out[2].node, ItemKind::Impl { .. }));
}
