//! Expansion of a whole macro invocation: every item is read on its own, a
//! good block becomes a trait and an impl, a bad one a diagnostic.
use vstd::prelude::*;
use crate::ast::{items_view, Item, ItemView};
use crate::data::{
    extract, impl_decl, trait_decl, Diagnostic, DiagnosticView, Extender,
};

verus! {

/// What an invocation expands to: the declarations to splice in, in order,
/// and the diagnostics to report, in order.
#[derive(Debug, Clone, PartialEq, Eq)]
pub struct Expansion {
    pub items: Vec<Item>,
    pub diagnostics: Vec<Diagnostic>,
}

pub open spec fn diagnostics_view(s: Seq<Diagnostic>) -> Seq<DiagnosticView> {
    s.map_values(|d: Diagnostic| d@)
}

/// The declarations that the items `inputs` expand to.
pub open spec fn expanded_items(inputs: Seq<ItemView>) -> Seq<ItemView>
    decreases inputs.len(),
{
    if inputs.len() == 0 {
        Seq::empty()
    } else {
        let before = expanded_items(inputs.drop_last());
        match extract(inputs.last()) {
            Ok(e) => before + seq![trait_decl(e), impl_decl(e)],
            Err(_) => before,
        }
    }
}

/// The diagnostics that the items `inputs` give.
pub open spec fn expanded_diagnostics(inputs: Seq<ItemView>) -> Seq<DiagnosticView>
    decreases inputs.len(),
{
    if inputs.len() == 0 {
        Seq::empty()
    } else {
        let before = expanded_diagnostics(inputs.drop_last());
        match extract(inputs.last()) {
            Ok(_) => before,
            Err(d) => before.push(d),
        }
    }
}

/// Expands the items of one invocation, in order. A bad item gives its
/// diagnostic and does not stop the items after it.
pub fn expand(items: Vec<Item>) -> (r: Expansion)
    ensures
        items_view(r.items@) == expanded_items(items_view(items@)),
        diagnostics_view(r.diagnostics@) == expanded_diagnostics(items_view(items@)),
{
    let ghost inputs = items_view(items@);
    let n = items.len();
    // Reverse the items, so that popping yields them in their order.
    let mut source = items;
    let mut pending: Vec<Item> = Vec::new();
    while source.len() > 0
        invariant
            source@.len() + pending@.len() == n,
            n == items@.len(),
            forall|k: int| 0 <= k < source@.len() ==> #[trigger] source@[k] == items@[k],
            forall|k: int| 0 <= k < pending@.len() ==> #[trigger] pending@[k] == items@[n - 1 - k],
        decreases source@.len(),
    {
        let item = source.pop().unwrap();
        pending.push(item);
    }

    let mut out: Vec<Item> = Vec::new();
    let mut diagnostics: Vec<Diagnostic> = Vec::new();
    while pending.len() > 0
        invariant
            n == items@.len(),
            inputs == items_view(items@),
            pending@.len() <= n,
            forall|k: int| 0 <= k < pending@.len() ==> #[trigger] pending@[k] == items@[n - 1 - k],
            items_view(out@) == expanded_items(inputs.subrange(0, n - pending@.len())),
            diagnostics_view(diagnostics@) == expanded_diagnostics(
                inputs.subrange(0, n - pending@.len()),
            ),
        decreases pending@.len(),
    {
        let ghost done = n - pending@.len();
        let item = pending.pop().unwrap();
        proof {
            assert(item == items@[done]);
            assert(inputs.subrange(0, done + 1).drop_last() =~= inputs.subrange(0, done));
            assert(inputs.subrange(0, done + 1).last() == item@);
        }
        let ghost out_before = out@;
        let ghost diagnostics_before = diagnostics@;
        match Extender::new(item) {
            Ok(extender) => {
                extender.extend(&mut out);
                assert(items_view(out@) =~= items_view(out_before) + seq![
                    trait_decl(extender@),
                    impl_decl(extender@),
                ]);
            },
            Err(d) => {
                diagnostics.push(d);
                assert(diagnostics_view(diagnostics@) =~= diagnostics_view(diagnostics_before).push(
                    d@,
                ));
            },
        }
    }
    assert(inputs.subrange(0, n as int) =~= inputs);
    Expansion { items: out, diagnostics }
}

} // verus!
