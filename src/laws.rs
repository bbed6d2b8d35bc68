//! What holds of every expansion, proved from the contracts of the extractor,
//! the emitter and the driver.
use vstd::prelude::*;
use crate::ast::{ImplItemKind, ItemKindView, ItemView, Visibility};
use crate::data::{
    extract, first_non_method, impl_decl, is_method, not_a_method, not_an_impl, outcome_view,
    trait_decl, Diagnostic, DiagnosticKind, DiagnosticView, Extender,
};
use crate::expand::{expanded_diagnostics, expanded_items};

verus! {

proof fn lemma_expand_one(item: ItemView)
    ensures
        expanded_items(seq![item]) == match extract(item) {
            Ok(e) => seq![trait_decl(e), impl_decl(e)],
            Err(_) => Seq::<ItemView>::empty(),
        },
        expanded_diagnostics(seq![item]) == match extract(item) {
            Ok(_) => Seq::<DiagnosticView>::empty(),
            Err(d) => seq![d],
        },
{
    let s = seq![item];
    assert(s.drop_last() =~= Seq::<ItemView>::empty());
    assert(s.last() == item);
    assert(expanded_items(Seq::<ItemView>::empty()) == Seq::<ItemView>::empty());
    assert(expanded_diagnostics(Seq::<ItemView>::empty()) == Seq::<DiagnosticView>::empty());
    assert(Seq::<ItemView>::empty() + seq![trait_decl(extract(item)->Ok_0), impl_decl(extract(item)->Ok_0)]
        =~= seq![trait_decl(extract(item)->Ok_0), impl_decl(extract(item)->Ok_0)]);
    assert(Seq::<DiagnosticView>::empty().push(extract(item)->Err_0) =~= seq![extract(item)->Err_0]);
}

/// An impl block that reads as an extension expands to exactly two
/// declarations, the trait first and then the impl, each with one member per
/// member of the block: bodiless in the trait, methods in the impl.
pub proof fn lemma_well_formed_expands_to_pair(item: ItemView)
    requires
        extract(item) is Ok,
    ensures
        item.node is Impl,
        expanded_diagnostics(seq![item]).len() == 0,
        ({
            let k = item.node->Impl_items.len();
            let out = expanded_items(seq![item]);
            &&& out.len() == 2
            &&& out[0].node is Trait
            &&& out[0].node->Trait_items.len() == k
            &&& forall|i: int| 0 <= i < k ==> (#[trigger] out[0].node->Trait_items[i]).default is None
            &&& out[1].node is Impl
            &&& out[1].node->Impl_items.len() == k
            &&& forall|i: int| 0 <= i < k ==> (#[trigger] out[1].node->Impl_items[i]).node is Method
        }),
{
    lemma_expand_one(item);
}

/// The synthesized trait is named by the identifier of the last segment of
/// the trait path of the input, as written, and that name is non-empty.
pub proof fn lemma_trait_name_is_last_segment(item: ItemView)
    requires
        extract(item) is Ok,
    ensures
        item.node matches ItemKindView::Impl { trait_ref: Some(p), .. } && trait_decl(
            extract(item)->Ok_0,
        ).ident == Some(p.segments.last().identifier) && p.segments.last().identifier@.len() > 0,
{
}

/// The synthesized trait is public exactly when the input item is; the impl
/// of it carries no visibility of its own.
pub proof fn lemma_visibility_carried(item: ItemView)
    requires
        extract(item) is Ok,
    ensures
        trait_decl(extract(item)->Ok_0).vis == item.vis,
        (trait_decl(extract(item)->Ok_0).vis == Visibility::Public) == (item.vis
            == Visibility::Public),
        impl_decl(extract(item)->Ok_0).vis == Visibility::Inherited,
{
}

/// Generics, the trait path, the extended type, and each method's name,
/// attributes, signature, body and span reach the output unchanged and in
/// their order: the impl's members are the input's members themselves.
pub proof fn lemma_pass_through(item: ItemView)
    requires
        extract(item) is Ok,
    ensures
        item.node matches ItemKindView::Impl { generics, trait_ref, self_ty, items } && {
            let e = extract(item)->Ok_0;
            let t = trait_decl(e).node;
            let m = impl_decl(e).node;
            &&& t->Trait_generics == generics
            &&& m->Impl_generics == generics
            &&& m->Impl_trait_ref == trait_ref
            &&& m->Impl_self_ty == self_ty
            &&& m->Impl_items == items
            &&& t->Trait_items.len() == items.len()
            &&& forall|i: int|
                0 <= i < items.len() ==> {
                    &&& (#[trigger] t->Trait_items[i]).ident == items[i].ident
                    &&& t->Trait_items[i].attrs == items[i].attrs
                    &&& t->Trait_items[i].span == items[i].span
                    &&& items[i].node matches ImplItemKind::Method { sig, .. } && t->Trait_items[i].sig
                        == sig
                }
        },
{
    let e = extract(item)->Ok_0;
    let items = item.node->Impl_items;
    let m = impl_decl(e).node;
    assert forall|i: int| 0 <= i < items.len() implies is_method(#[trigger] items[i]) by {
        if !is_method(items[i]) {
            lemma_first_non_method_exists(items, i);
        }
    }
    assert(m->Impl_items =~= items);
}

/// An impl block without a trait path is refused as not an impl, and
/// nothing is emitted for it.
pub proof fn lemma_inherent_impl_refused(item: ItemView)
    requires
        item.node matches ItemKindView::Impl { trait_ref: None, .. },
    ensures
        extract(item) == Err::<crate::data::ExtenderView, DiagnosticView>(not_an_impl(item)),
        not_an_impl(item).kind == DiagnosticKind::NotAnImpl,
        expanded_items(seq![item]).len() == 0,
        expanded_diagnostics(seq![item]) == seq![not_an_impl(item)],
{
    lemma_expand_one(item);
}

proof fn lemma_first_non_method_exists(items: Seq<crate::ast::ImplItemView>, j: int)
    requires
        0 <= j < items.len(),
        !is_method(items[j]),
    ensures
        exists|f: int| f <= j && first_non_method(items, f),
    decreases j,
{
    if forall|k: int| 0 <= k < j ==> is_method(#[trigger] items[k]) {
        assert(first_non_method(items, j));
    } else {
        let k = choose|k: int| 0 <= k < j && !is_method(#[trigger] items[k]);
        lemma_first_non_method_exists(items, k);
    }
}

/// An impl of a named trait with a member that is not a method is refused at
/// the first such member, and nothing is emitted for it.
pub proof fn lemma_non_method_refused(item: ItemView, j: int)
    requires
        item.node matches ItemKindView::Impl { trait_ref: Some(p), items, .. } && p.segments.len()
            > 0 && p.segments.last().identifier@.len() > 0 && 0 <= j < items.len() && !is_method(
            items[j],
        ),
    ensures
        exists|f: int|
            #![auto]
            f <= j && first_non_method(item.node->Impl_items, f) && extract(item) == Err::<
                crate::data::ExtenderView,
                DiagnosticView,
            >(not_a_method(item.node->Impl_items[f])),
        extract(item)->Err_0.kind == DiagnosticKind::NotAMethod,
        expanded_items(seq![item]).len() == 0,
        expanded_diagnostics(seq![item]).len() == 1,
{
    let items = item.node->Impl_items;
    lemma_first_non_method_exists(items, j);
    let f = choose|f: int| f <= j && first_non_method(items, f);
    let c = choose|c: int| first_non_method(items, c);
    crate::data::lemma_first_non_method_unique(items, f, c);
    lemma_expand_one(item);
}

/// Expanding a sequence of items is expanding each part of it in turn: what
/// one item gives does not depend on the items around it.
pub proof fn lemma_expansion_concat(a: Seq<ItemView>, b: Seq<ItemView>)
    ensures
        expanded_items(a + b) == expanded_items(a) + expanded_items(b),
        expanded_diagnostics(a + b) == expanded_diagnostics(a) + expanded_diagnostics(b),
    decreases b.len(),
{
    if b.len() == 0 {
        assert(a + b =~= a);
        assert(expanded_items(a) + expanded_items(b) =~= expanded_items(a));
        assert(expanded_diagnostics(a) + expanded_diagnostics(b) =~= expanded_diagnostics(a));
    } else {
        assert((a + b).drop_last() =~= a + b.drop_last());
        assert((a + b).last() == b.last());
        lemma_expansion_concat(a, b.drop_last());
        match extract(b.last()) {
            Ok(e) => {
                assert(expanded_items(a) + expanded_items(b.drop_last()) + seq![
                    trait_decl(e),
                    impl_decl(e),
                ] =~= expanded_items(a) + (expanded_items(b.drop_last()) + seq![
                    trait_decl(e),
                    impl_decl(e),
                ]));
            },
            Err(d) => {
                assert((expanded_diagnostics(a) + expanded_diagnostics(b.drop_last())).push(d)
                    =~= expanded_diagnostics(a) + expanded_diagnostics(b.drop_last()).push(d));
            },
        }
    }
}

/// Of two blocks, one well formed and one not, in either order, the
/// expansion holds one diagnostic and the well-formed block's trait and impl.
pub proof fn lemma_bad_block_isolated(good: ItemView, bad: ItemView)
    requires
        extract(good) is Ok,
        extract(bad) is Err,
    ensures
        expanded_items(seq![good, bad]) == seq![
            trait_decl(extract(good)->Ok_0),
            impl_decl(extract(good)->Ok_0),
        ],
        expanded_items(seq![bad, good]) == seq![
            trait_decl(extract(good)->Ok_0),
            impl_decl(extract(good)->Ok_0),
        ],
        expanded_diagnostics(seq![good, bad]) == seq![extract(bad)->Err_0],
        expanded_diagnostics(seq![bad, good]) == seq![extract(bad)->Err_0],
{
    lemma_expand_one(good);
    lemma_expand_one(bad);
    lemma_expansion_concat(seq![good], seq![bad]);
    lemma_expansion_concat(seq![bad], seq![good]);
    assert(seq![good] + seq![bad] =~= seq![good, bad]);
    assert(seq![bad] + seq![good] =~= seq![bad, good]);
    assert(expanded_items(seq![good]) + expanded_items(seq![bad]) =~= expanded_items(seq![good]));
    assert(expanded_items(seq![bad]) + expanded_items(seq![good]) =~= expanded_items(seq![good]));
    assert(expanded_diagnostics(seq![good]) + expanded_diagnostics(seq![bad]) =~= seq![
        extract(bad)->Err_0,
    ]);
    assert(expanded_diagnostics(seq![bad]) + expanded_diagnostics(seq![good]) =~= seq![
        extract(bad)->Err_0,
    ]);
}

/// Reading equal items twice gives equal results: no counter, no order that
/// could change between the calls.
pub proof fn lemma_extract_deterministic(
    first: crate::ast::Item,
    second: crate::ast::Item,
    r1: Result<Extender, Diagnostic>,
    r2: Result<Extender, Diagnostic>,
)
    requires
        first@ == second@,
        outcome_view(r1) == extract(first@),
        outcome_view(r2) == extract(second@),
    ensures
        outcome_view(r1) == outcome_view(r2),
{
}

} // verus!
