//! The syntax the extension reads and writes: top-level items, impl and trait
//! members, paths and spans. Generics, types, signatures, bodies and
//! attributes are opaque source text, carried through unchanged.
use vstd::prelude::*;

verus! {

/// A source location: byte offsets of its start and of its end.
#[derive(Debug, Clone, Copy, PartialEq, Eq, Structural)]
pub struct Span {
    pub lo: u32,
    pub hi: u32,
}

/// Whether an item is visible outside its module.
#[derive(Debug, Clone, Copy, PartialEq, Eq, Structural)]
pub enum Visibility {
    Public,
    Inherited,
}

/// One segment of a path: its identifier and its generic arguments as
/// written (`<T>`), empty where it has none.
#[derive(Debug, Clone, PartialEq, Eq)]
pub struct PathSegment {
    pub identifier: String,
    pub args: String,
}

/// A path such as `a::b::Name<T>`, one segment per identifier.
#[derive(Debug, Clone, PartialEq, Eq)]
pub struct Path {
    pub segments: Vec<PathSegment>,
    pub span: Span,
}

/// What a member of an impl block is.
#[derive(Debug, Clone, PartialEq, Eq)]
pub enum ImplItemKind {
    Method { sig: String, block: String },
    Const { ty: String, expr: String },
    Type { ty: String },
    Macro { mac: String },
}

/// A member of an impl block.
#[derive(Debug, Clone, PartialEq, Eq)]
pub struct ImplItem {
    pub ident: String,
    pub attrs: Vec<String>,
    pub node: ImplItemKind,
    pub span: Span,
}

/// A method of a trait, with its default body if it has one.
#[derive(Debug, Clone, PartialEq, Eq)]
pub struct TraitItem {
    pub ident: String,
    pub attrs: Vec<String>,
    pub sig: String,
    pub default: Option<String>,
    pub span: Span,
}

/// What a top-level item is.
#[derive(Debug, Clone, PartialEq, Eq)]
#[allow(inconsistent_fields)]
pub enum ItemKind {
    /// `impl<generics> trait_ref for self_ty { items }`; `trait_ref` is
    /// `None` for an inherent impl.
    Impl { generics: String, trait_ref: Option<Path>, self_ty: String, items: Vec<ImplItem> },
    /// `trait ident<generics> { items }`.
    Trait { generics: String, items: Vec<TraitItem> },
    /// Any other item; `kind` says what it is, for diagnostics.
    Other { kind: String },
}

/// A top-level item. `ident` is `None` for an impl block, which has no name.
#[derive(Debug, Clone, PartialEq, Eq)]
pub struct Item {
    pub ident: Option<String>,
    pub vis: Visibility,
    pub node: ItemKind,
    pub span: Span,
}

/// The value of a `Path`.
pub struct PathView {
    pub segments: Seq<PathSegment>,
    pub span: Span,
}

/// The value of an `ImplItem`.
pub struct ImplItemView {
    pub ident: String,
    pub attrs: Seq<String>,
    pub node: ImplItemKind,
    pub span: Span,
}

/// The value of a `TraitItem`.
pub struct TraitItemView {
    pub ident: String,
    pub attrs: Seq<String>,
    pub sig: String,
    pub default: Option<String>,
    pub span: Span,
}

/// The value of an `ItemKind`.
#[allow(inconsistent_fields)]
pub enum ItemKindView {
    Impl {
        generics: String,
        trait_ref: Option<PathView>,
        self_ty: String,
        items: Seq<ImplItemView>,
    },
    Trait { generics: String, items: Seq<TraitItemView> },
    Other { kind: String },
}

/// The value of an `Item`.
pub struct ItemView {
    pub ident: Option<String>,
    pub vis: Visibility,
    pub node: ItemKindView,
    pub span: Span,
}

impl View for Path {
    type V = PathView;

    open spec fn view(&self) -> PathView {
        PathView { segments: self.segments@, span: self.span }
    }
}

impl View for ImplItem {
    type V = ImplItemView;

    open spec fn view(&self) -> ImplItemView {
        ImplItemView { ident: self.ident, attrs: self.attrs@, node: self.node, span: self.span }
    }
}

impl View for TraitItem {
    type V = TraitItemView;

    open spec fn view(&self) -> TraitItemView {
        TraitItemView {
            ident: self.ident,
            attrs: self.attrs@,
            sig: self.sig,
            default: self.default,
            span: self.span,
        }
    }
}

pub open spec fn opt_path_view(p: Option<Path>) -> Option<PathView> {
    match p {
        Some(p) => Some(p@),
        None => None,
    }
}

pub open spec fn impl_items_view(s: Seq<ImplItem>) -> Seq<ImplItemView> {
    s.map_values(|i: ImplItem| i@)
}

pub open spec fn trait_items_view(s: Seq<TraitItem>) -> Seq<TraitItemView> {
    s.map_values(|i: TraitItem| i@)
}

impl View for ItemKind {
    type V = ItemKindView;

    open spec fn view(&self) -> ItemKindView {
        match self {
            ItemKind::Impl { generics, trait_ref, self_ty, items } => ItemKindView::Impl {
                generics: *generics,
                trait_ref: opt_path_view(*trait_ref),
                self_ty: *self_ty,
                items: impl_items_view(items@),
            },
            ItemKind::Trait { generics, items } => ItemKindView::Trait {
                generics: *generics,
                items: trait_items_view(items@),
            },
            ItemKind::Other { kind } => ItemKindView::Other { kind: *kind },
        }
    }
}

impl View for Item {
    type V = ItemView;

    open spec fn view(&self) -> ItemView {
        ItemView { ident: self.ident, vis: self.vis, node: self.node@, span: self.span }
    }
}

/// The values of a sequence of items.
pub open spec fn items_view(s: Seq<Item>) -> Seq<ItemView> {
    s.map_values(|i: Item| i@)
}

/// A copy of a list of strings.
pub fn copy_strings(v: &Vec<String>) -> (r: Vec<String>)
    ensures
        r@ == v@,
{
    let mut r: Vec<String> = Vec::new();
    let mut i: usize = 0;
    while i < v.len()
        invariant
            i <= v@.len(),
            r@ == v@.subrange(0, i as int),
        decreases v@.len() - i,
    {
        r.push(v[i].clone());
        i = i + 1;
        assert(r@ =~= v@.subrange(0, i as int));
    }
    assert(r@ =~= v@);
    r
}

impl Path {
    /// A copy of this path.
    pub fn duplicate(&self) -> (r: Path)
        ensures
            r@ == self@,
    {
        let mut segments: Vec<PathSegment> = Vec::new();
        let mut i: usize = 0;
        while i < self.segments.len()
            invariant
                i <= self.segments@.len(),
                segments@ == self.segments@.subrange(0, i as int),
            decreases self.segments@.len() - i,
        {
            let s = &self.segments[i];
            segments.push(PathSegment { identifier: s.identifier.clone(), args: s.args.clone() });
            i = i + 1;
            assert(segments@ =~= self.segments@.subrange(0, i as int));
        }
        assert(segments@ =~= self.segments@);
        Path { segments, span: self.span }
    }
}

} // verus!
