//! The validated form of one impl block, how it is read from an item, and the
//! two declarations it is rewritten into.
use vstd::prelude::*;
use crate::ast::{
    copy_strings, impl_items_view, ImplItem, ImplItemKind, ImplItemView, ItemKind, ItemKindView, ItemView,
    Item, Path, PathView, Span, TraitItem, TraitItemView, Visibility, trait_items_view,
};

verus! {

/// The ways an item can fail to be an extension block.
#[derive(Debug, Clone, Copy, PartialEq, Eq, Structural)]
pub enum DiagnosticKind {
    /// The item is not an impl block that names a trait.
    NotAnImpl,
    /// The trait path has no segment to take the trait's name from.
    InvalidTraitPath,
    /// A member of the impl block is not a method.
    NotAMethod,
}

/// An error located in the source, to be reported by the host.
#[derive(Debug, Clone, PartialEq, Eq)]
pub struct Diagnostic {
    pub kind: DiagnosticKind,
    pub span: Span,
    pub message: String,
}

/// The value of a `Diagnostic`.
pub struct DiagnosticView {
    pub kind: DiagnosticKind,
    pub span: Span,
    pub message: Seq<char>,
}

impl View for Diagnostic {
    type V = DiagnosticView;

    open spec fn view(&self) -> DiagnosticView {
        DiagnosticView { kind: self.kind, span: self.span, message: self.message@ }
    }
}

/// How a diagnostic names an item that is not an impl of a trait.
pub open spec fn item_description(k: ItemKindView) -> Seq<char> {
    match k {
        ItemKindView::Impl { .. } => "an inherent `impl` block"@,
        ItemKindView::Trait { .. } => "a trait"@,
        ItemKindView::Other { kind } => kind@,
    }
}

/// How a diagnostic names a member of an impl block.
pub open spec fn member_description(k: ImplItemKind) -> Seq<char> {
    match k {
        ImplItemKind::Method { .. } => "a method"@,
        ImplItemKind::Const { .. } => "an associated constant"@,
        ImplItemKind::Type { .. } => "an associated type"@,
        ImplItemKind::Macro { .. } => "a macro invocation"@,
    }
}

pub open spec fn not_an_impl(item: ItemView) -> DiagnosticView {
    DiagnosticView {
        kind: DiagnosticKind::NotAnImpl,
        span: item.span,
        message: "Expected an `impl` item, found: "@ + item_description(item.node),
    }
}

pub open spec fn invalid_trait_path(p: PathView) -> DiagnosticView {
    DiagnosticView {
        kind: DiagnosticKind::InvalidTraitPath,
        span: p.span,
        message: "Need a valid path for trait name"@,
    }
}

pub open spec fn not_a_method(m: ImplItemView) -> DiagnosticView {
    DiagnosticView {
        kind: DiagnosticKind::NotAMethod,
        span: m.span,
        message: "Expected a method, got "@ + member_description(m.node),
    }
}

/// One method of the input impl block. Its signature and body are not read,
/// only carried.
#[derive(Debug, Clone, PartialEq, Eq)]
pub struct Method {
    pub attrs: Vec<String>,
    pub ident: String,
    pub sig: String,
    pub block: String,
    pub span: Span,
}

/// The value of a `Method`.
pub struct MethodView {
    pub attrs: Seq<String>,
    pub ident: String,
    pub sig: String,
    pub block: String,
    pub span: Span,
}

impl View for Method {
    type V = MethodView;

    open spec fn view(&self) -> MethodView {
        MethodView {
            attrs: self.attrs@,
            ident: self.ident,
            sig: self.sig,
            block: self.block,
            span: self.span,
        }
    }
}

pub open spec fn methods_view(s: Seq<Method>) -> Seq<MethodView> {
    s.map_values(|m: Method| m@)
}

/// The impl block of an extension: its generics, the trait path, the name of
/// the trait to synthesize, the extended type and its methods in order.
#[derive(Debug, Clone, PartialEq, Eq)]
pub struct ImplData {
    pub generics: String,
    pub trait_ref: Path,
    pub trait_name: String,
    pub ty: String,
    pub methods: Vec<Method>,
}

impl ImplData {
    /// The trait name is non-empty.
    pub open spec fn wf(&self) -> bool {
        self.trait_name@.len() > 0
    }
}

/// The value of an `ImplData`.
pub struct ImplDataView {
    pub generics: String,
    pub trait_ref: PathView,
    pub trait_name: String,
    pub ty: String,
    pub methods: Seq<MethodView>,
}

impl View for ImplData {
    type V = ImplDataView;

    open spec fn view(&self) -> ImplDataView {
        ImplDataView {
            generics: self.generics,
            trait_ref: self.trait_ref@,
            trait_name: self.trait_name,
            ty: self.ty,
            methods: methods_view(self.methods@),
        }
    }
}

pub open spec fn is_method(m: ImplItemView) -> bool {
    m.node is Method
}

/// The method record kept for a member that is a method.
pub open spec fn method_record(m: ImplItemView) -> MethodView {
    MethodView {
        attrs: m.attrs,
        ident: m.ident,
        sig: m.node->Method_sig,
        block: m.node->Method_block,
        span: m.span,
    }
}

/// `j` is the first member of `items` that is not a method.
pub open spec fn first_non_method(items: Seq<ImplItemView>, j: int) -> bool {
    &&& 0 <= j < items.len()
    &&& !is_method(items[j])
    &&& forall|k: int| 0 <= k < j ==> is_method(#[trigger] items[k])
}

/// What reading an impl block of the given parts gives: the trait's name is
/// the identifier of the path's last segment, which must be non-empty, and
/// every member must be a method.
pub open spec fn impl_data(
    generics: String,
    trait_ref: PathView,
    ty: String,
    items: Seq<ImplItemView>,
) -> Result<ImplDataView, DiagnosticView> {
    if trait_ref.segments.len() == 0 || trait_ref.segments.last().identifier@.len() == 0 {
        Err(invalid_trait_path(trait_ref))
    } else if exists|j: int| first_non_method(items, j) {
        Err(not_a_method(items[choose|j: int| first_non_method(items, j)]))
    } else {
        Ok(
            ImplDataView {
                generics,
                trait_ref,
                trait_name: trait_ref.segments.last().identifier,
                ty,
                methods: items.map_values(|m: ImplItemView| method_record(m)),
            },
        )
    }
}

pub proof fn lemma_first_non_method_unique(items: Seq<ImplItemView>, i: int, j: int)
    requires
        first_non_method(items, i),
        first_non_method(items, j),
    ensures
        i == j,
{
    if i < j {
        assert(is_method(items[i]));
    } else if j < i {
        assert(is_method(items[j]));
    }
}

fn item_kind_description(k: &ItemKind) -> (r: String)
    ensures
        r@ == item_description(k@),
{
    match k {
        ItemKind::Impl { .. } => "an inherent `impl` block".to_owned(),
        ItemKind::Trait { .. } => "a trait".to_owned(),
        ItemKind::Other { kind } => kind.clone(),
    }
}

fn member_kind_description(k: &ImplItemKind) -> (r: String)
    ensures
        r@ == member_description(*k),
{
    match k {
        ImplItemKind::Method { .. } => "a method".to_owned(),
        ImplItemKind::Const { .. } => "an associated constant".to_owned(),
        ImplItemKind::Type { .. } => "an associated type".to_owned(),
        ImplItemKind::Macro { .. } => "a macro invocation".to_owned(),
    }
}

impl ImplData {
    /// Reads the parts of an impl block: fails on a trait path without a
    /// name to take, then on the first member that is not a method.
    pub fn new(generics: String, trait_ref: Path, ty: String, items: Vec<ImplItem>) -> (r: Result<
        ImplData,
        Diagnostic,
    >)
        ensures
            match r {
                Ok(d) => d.wf() && impl_data(generics, trait_ref@, ty, impl_items_view(items@)) == Ok::<
                    ImplDataView,
                    DiagnosticView,
                >(d@),
                Err(e) => impl_data(generics, trait_ref@, ty, impl_items_view(items@)) == Err::<
                    ImplDataView,
                    DiagnosticView,
                >(e@),
            },
    {
        let n_segments = trait_ref.segments.len();
        let no_name = String::new();
        if n_segments == 0 || trait_ref.segments[n_segments - 1].identifier.eq(&no_name) {
            return Err(
                Diagnostic {
                    kind: DiagnosticKind::InvalidTraitPath,
                    span: trait_ref.span,
                    message: "Need a valid path for trait name".to_owned(),
                },
            );
        }
        let trait_name = trait_ref.segments[n_segments - 1].identifier.clone();
        assert(trait_name@.len() == 0 ==> trait_name@ =~= no_name@);
        let ghost views = impl_items_view(items@);
        let mut methods: Vec<Method> = Vec::new();
        let mut i: usize = 0;
        while i < items.len()
            invariant
                i <= items@.len(),
                views == impl_items_view(items@),
                trait_ref@.segments.len() > 0,
                trait_ref@.segments.last().identifier@.len() > 0,
                methods@.len() == i,
                forall|k: int| 0 <= k < i ==> is_method(#[trigger] views[k]),
                forall|k: int| 0 <= k < i ==> #[trigger] methods@[k]@ == method_record(views[k]),
            decreases items@.len() - i,
        {
            let item = &items[i];
            assert(views[i as int] == item@);
            match &item.node {
                ImplItemKind::Method { sig, block } => {
                    methods.push(
                        Method {
                            attrs: copy_strings(&item.attrs),
                            ident: item.ident.clone(),
                            sig: sig.clone(),
                            block: block.clone(),
                            span: item.span,
                        },
                    );
                },
                _ => {
                    let found = member_kind_description(&item.node);
                    let message = "Expected a method, got ".to_owned().concat(found.as_str());
                    proof {
                        assert(first_non_method(views, i as int));
                        let j = choose|j: int| first_non_method(views, j);
                        lemma_first_non_method_unique(views, i as int, j);
                        assert(message@ == "Expected a method, got "@ + found@);
                    }
                    return Err(Diagnostic { kind: DiagnosticKind::NotAMethod, span: item.span, message });
                },
            }
            i = i + 1;
        }
        proof {
            assert(!exists|j: int| first_non_method(views, j));
            assert(methods_view(methods@) =~= views.map_values(|m: ImplItemView| method_record(m)));
        }
        Ok(ImplData { generics, trait_ref, trait_name, ty, methods })
    }

    /// The name of the trait to synthesize.
    pub fn trait_name(&self) -> (r: &str)
        ensures
            r@ == self.trait_name@,
    {
        self.trait_name.as_str()
    }
}


/// An extension block ready to be emitted: its impl data, the visibility of
/// the input item and the span of the whole block.
#[derive(Debug, Clone, PartialEq, Eq)]
pub struct Extender {
    pub data: ImplData,
    pub vis: Visibility,
    pub span: Span,
}

/// The value of an `Extender`.
pub struct ExtenderView {
    pub data: ImplDataView,
    pub vis: Visibility,
    pub span: Span,
}

impl View for Extender {
    type V = ExtenderView;

    open spec fn view(&self) -> ExtenderView {
        ExtenderView { data: self.data@, vis: self.vis, span: self.span }
    }
}

/// What reading an item as an extension block gives: it must be an impl
/// block that names a trait, and its parts must read as `impl_data` says.
pub open spec fn extract(item: ItemView) -> Result<ExtenderView, DiagnosticView> {
    match item.node {
        ItemKindView::Impl { generics, trait_ref: Some(trait_ref), self_ty, items } => {
            match impl_data(generics, trait_ref, self_ty, items) {
                Ok(data) => Ok(ExtenderView { data, vis: item.vis, span: item.span }),
                Err(e) => Err(e),
            }
        },
        _ => Err(not_an_impl(item)),
    }
}

/// The value of the outcome of reading an item.
pub open spec fn outcome_view(r: Result<Extender, Diagnostic>) -> Result<ExtenderView, DiagnosticView> {
    match r {
        Ok(e) => Ok(e@),
        Err(d) => Err(d@),
    }
}

/// A method as the synthesized trait declares it: no body.
pub open spec fn trait_member(m: MethodView) -> TraitItemView {
    TraitItemView { ident: m.ident, attrs: m.attrs, sig: m.sig, default: None, span: m.span }
}

/// A method as the rewritten impl defines it: with the body it was written with.
pub open spec fn impl_member(m: MethodView) -> ImplItemView {
    ImplItemView {
        ident: m.ident,
        attrs: m.attrs,
        node: ImplItemKind::Method { sig: m.sig, block: m.block },
        span: m.span,
    }
}

/// The synthesized trait: named after the trait path's last segment, with
/// the block's generics and visibility and one bodiless method per method.
pub open spec fn trait_decl(e: ExtenderView) -> ItemView {
    ItemView {
        ident: Some(e.data.trait_name),
        vis: e.vis,
        node: ItemKindView::Trait {
            generics: e.data.generics,
            items: e.data.methods.map_values(|m: MethodView| trait_member(m)),
        },
        span: e.span,
    }
}

/// The rewritten impl: the trait path and the type as written in the input, with
/// the block's generics and every method with its body.
pub open spec fn impl_decl(e: ExtenderView) -> ItemView {
    ItemView {
        ident: None,
        vis: Visibility::Inherited,
        node: ItemKindView::Impl {
            generics: e.data.generics,
            trait_ref: Some(e.data.trait_ref),
            self_ty: e.data.ty,
            items: e.data.methods.map_values(|m: MethodView| impl_member(m)),
        },
        span: e.span,
    }
}

impl Extender {
    /// Reads an item as an extension block, or says why it is not one.
    pub fn new(item: Item) -> (r: Result<Extender, Diagnostic>)
        ensures
            outcome_view(r) == extract(item@),
            r matches Ok(e) ==> e.data.wf(),
    {
        let ghost item_view = item@;
        let Item { ident: _, vis, node, span } = item;
        match node {
            ItemKind::Impl { generics, trait_ref: Some(trait_ref), self_ty, items } => {
                match ImplData::new(generics, trait_ref, self_ty, items) {
                    Ok(data) => Ok(Extender { data, vis, span }),
                    Err(e) => Err(e),
                }
            },
            node => {
                let found = item_kind_description(&node);
                let message = "Expected an `impl` item, found: ".to_owned().concat(found.as_str());
                Err(Diagnostic { kind: DiagnosticKind::NotAnImpl, span, message })
            },
        }
    }

    /// Appends to `items` the synthesized trait, then the impl of it.
    pub fn extend(&self, items: &mut Vec<Item>)
        ensures
            final(items)@.len() == old(items)@.len() + 2,
            final(items)@.subrange(0, old(items)@.len() as int) == old(items)@,
            final(items)@[old(items)@.len() as int]@ == trait_decl(self@),
            final(items)@[old(items)@.len() + 1int]@ == impl_decl(self@),
    {
        let methods = &self.data.methods;
        let ghost mviews = methods_view(methods@);
        let mut trait_items: Vec<TraitItem> = Vec::new();
        let mut i: usize = 0;
        while i < methods.len()
            invariant
                i <= methods@.len(),
                mviews == methods_view(methods@),
                trait_items@.len() == i,
                forall|k: int| 0 <= k < i ==> #[trigger] trait_items@[k]@ == trait_member(mviews[k]),
            decreases methods@.len() - i,
        {
            let m = &methods[i];
            assert(mviews[i as int] == m@);
            trait_items.push(
                TraitItem {
                    ident: m.ident.clone(),
                    attrs: copy_strings(&m.attrs),
                    sig: m.sig.clone(),
                    default: None,
                    span: m.span,
                },
            );
            i = i + 1;
        }
        assert(trait_items_view(trait_items@) =~= mviews.map_values(|m: MethodView| trait_member(m)));
        items.push(
            Item {
                ident: Some(self.data.trait_name.clone()),
                vis: self.vis,
                node: ItemKind::Trait { generics: self.data.generics.clone(), items: trait_items },
                span: self.span,
            },
        );

        let mut impl_items: Vec<ImplItem> = Vec::new();
        let mut i: usize = 0;
        while i < methods.len()
            invariant
                i <= methods@.len(),
                mviews == methods_view(methods@),
                impl_items@.len() == i,
                forall|k: int| 0 <= k < i ==> #[trigger] impl_items@[k]@ == impl_member(mviews[k]),
            decreases methods@.len() - i,
        {
            let m = &methods[i];
            assert(mviews[i as int] == m@);
            impl_items.push(
                ImplItem {
                    ident: m.ident.clone(),
                    attrs: copy_strings(&m.attrs),
                    node: ImplItemKind::Method { sig: m.sig.clone(), block: m.block.clone() },
                    span: m.span,
                },
            );
            i = i + 1;
        }
        assert(impl_items_view(impl_items@) =~= mviews.map_values(|m: MethodView| impl_member(m)));
        items.push(
            Item {
                ident: None,
                vis: Visibility::Inherited,
                node: ItemKind::Impl {
                    generics: self.data.generics.clone(),
                    trait_ref: Some(self.data.trait_ref.duplicate()),
                    self_ty: self.data.ty.clone(),
                    items: impl_items,
                },
                span: self.span,
            },
        );
        assert(items@.subrange(0, old(items)@.len() as int) =~= old(items)@);
    }
}

} // verus!
