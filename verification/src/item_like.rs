//! The item abstraction layer: a model of the nine kinds of items the
//! transformation supports, holding exactly what the transformation reads and
//! writes — the attribute list, the visibility qualifier and, for a struct,
//! the visibility of each field. Kind-specific payload that the
//! transformation never touches (names, bodies, generics) is not part of the
//! model; the caller that owns the concrete syntax applies the model's result
//! back to it.

use vstd::prelude::*;

verus! {

/// The visibility qualifier of an item or of a struct field.
#[derive(Clone, Copy, Debug, PartialEq, Eq, Structural)]
pub enum Visibility {
    /// Fully public: visible outside the defining crate.
    Public,
    /// Restricted to the defining crate.
    Restricted,
    /// Private: the default visibility, with no qualifier written.
    Private,
}

/// One field of a struct item. Only the visibility takes part in the
/// transformation, so only the visibility is modelled.
#[derive(Clone, Copy, Debug, PartialEq, Eq, Structural)]
pub struct Field {
    pub vis: Visibility,
}

/// One attribute node of an item: a documentation attribute with its text, or
/// any other compiler directive, carried verbatim.
#[derive(Clone, Debug, PartialEq, Eq)]
pub enum Attribute {
    Doc(String),
    Directive(String),
}

/// The mathematical value of an [`Attribute`]: the same shape over `Seq<char>`.
#[verifier::ext_equal]
pub enum AttrView {
    Doc(Seq<char>),
    Directive(Seq<char>),
}

impl View for Attribute {
    type V = AttrView;

    open spec fn view(&self) -> AttrView {
        match self {
            Attribute::Doc(s) => AttrView::Doc(s@),
            Attribute::Directive(s) => AttrView::Directive(s@),
        }
    }
}

/// A compiler warning class that the hidden variant of an item suppresses.
#[derive(Clone, Copy, Debug, PartialEq, Eq, Structural)]
pub enum Lint {
    /// The unused-declaration warning class.
    DeadCode,
    /// The unused-import warning class.
    UnusedImports,
}

/// Which of the nine supported kinds an item is, with the kind-specific
/// substructure the transformation reads: a struct's field list.
#[derive(Clone, Debug, PartialEq, Eq)]
pub enum ItemKind {
    TypeAlias,
    Enum,
    Struct { fields: Vec<Field> },
    Function,
    Module,
    Trait,
    Constant,
    Static,
    Import,
}

/// The mathematical value of an [`ItemKind`].
#[verifier::ext_equal]
pub enum KindView {
    TypeAlias,
    Enum,
    Struct(Seq<Field>),
    Function,
    Module,
    Trait,
    Constant,
    Static,
    Import,
}

impl View for ItemKind {
    type V = KindView;

    open spec fn view(&self) -> KindView {
        match self {
            ItemKind::TypeAlias => KindView::TypeAlias,
            ItemKind::Enum => KindView::Enum,
            ItemKind::Struct { fields } => KindView::Struct(fields@),
            ItemKind::Function => KindView::Function,
            ItemKind::Module => KindView::Module,
            ItemKind::Trait => KindView::Trait,
            ItemKind::Constant => KindView::Constant,
            ItemKind::Static => KindView::Static,
            ItemKind::Import => KindView::Import,
        }
    }
}

/// One item of one of the nine supported kinds: its ordered attribute list,
/// its visibility qualifier and its kind.
#[derive(Clone, Debug, PartialEq, Eq)]
pub struct Item {
    pub attrs: Vec<Attribute>,
    pub vis: Visibility,
    pub kind: ItemKind,
}

/// The views of a sequence of attribute nodes, in order.
pub open spec fn attrs_view(attrs: Seq<Attribute>) -> Seq<AttrView> {
    attrs.map_values(|a: Attribute| a@)
}

/// The mathematical value of an [`Item`].
#[verifier::ext_equal]
pub struct ItemView {
    pub attrs: Seq<AttrView>,
    pub vis: Visibility,
    pub kind: KindView,
}

impl View for Item {
    type V = ItemView;

    open spec fn view(&self) -> ItemView {
        ItemView { attrs: attrs_view(self.attrs@), vis: self.vis, kind: self.kind@ }
    }
}

/// Whether an item is fully public. A restricted and a private item both
/// count as not public.
pub open spec fn spec_is_public(v: ItemView) -> bool {
    v.vis is Public
}

/// The warning classes suppressed on the hidden variant of an item of the
/// given kind: the unused-import class for an import, the unused-declaration
/// class for every other kind.
pub open spec fn spec_allowed_lints(kind: KindView) -> Seq<Lint> {
    if kind is Import {
        seq![Lint::UnusedImports]
    } else {
        seq![Lint::DeadCode]
    }
}

/// One field after its struct's visibility is set to `vis`: a fully public
/// field is lowered to `vis`, any other field keeps its own visibility.
pub open spec fn spec_narrow_field(f: Field, vis: Visibility) -> Field {
    if f.vis is Public {
        Field { vis }
    } else {
        f
    }
}

/// A struct's field list after the struct's visibility is set to `vis`.
pub open spec fn spec_narrow_fields(fields: Seq<Field>, vis: Visibility) -> Seq<Field> {
    fields.map_values(|f: Field| spec_narrow_field(f, vis))
}

/// An item after its visibility is set to `vis`. For a struct this cascades
/// into the fields: the target language forbids a field's visibility to
/// exceed its struct's, so every fully public field is lowered to `vis` too.
pub open spec fn spec_set_visibility(v: ItemView, vis: Visibility) -> ItemView {
    match v.kind {
        KindView::Struct(fields) => ItemView {
            vis,
            kind: KindView::Struct(spec_narrow_fields(fields, vis)),
            ..v
        },
        _ => ItemView { vis, ..v },
    }
}

/// A copy of `fields` in which every fully public field is lowered to
/// `visibility` and every other field is kept as it is.
fn narrow_public_fields(fields: &Vec<Field>, visibility: Visibility) -> (out: Vec<Field>)
    ensures
        out@ == spec_narrow_fields(fields@, visibility),
{
    let mut out: Vec<Field> = Vec::new();
    let mut i: usize = 0;
    while i < fields.len()
        invariant
            i <= fields@.len(),
            out@.len() == i as nat,
            forall|j: int| 0 <= j < i ==> out@[j] == spec_narrow_field(fields@[j], visibility),
        decreases fields@.len() - i,
    {
        let f = fields[i];
        if matches!(f.vis, Visibility::Public) {
            out.push(Field { vis: visibility });
        } else {
            out.push(f);
        }
        i += 1;
    }
    proof {
        assert(out@ =~= spec_narrow_fields(fields@, visibility));
    }
    out
}

impl Item {
    /// The item's current attribute sequence, as a read-only view.
    pub fn attrs(&self) -> (r: &Vec<Attribute>)
        ensures
            attrs_view(r@) == self@.attrs,
    {
        &self.attrs
    }

    /// Appends one attribute node to the item's attribute sequence; the
    /// visibility and the kind are untouched.
    pub fn push_attr(&mut self, attr: Attribute)
        ensures
            final(self)@.attrs == old(self)@.attrs.push(attr@),
            final(self)@.vis == old(self)@.vis,
            final(self)@.kind == old(self)@.kind,
    {
        self.attrs.push(attr);
        proof {
            assert(attrs_view(self.attrs@) =~= attrs_view(old(self).attrs@).push(attr@));
        }
    }

    /// The item's visibility qualifier.
    pub fn visibility(&self) -> (r: &Visibility)
        ensures
            *r == self@.vis,
    {
        &self.vis
    }

    /// Sets the item's visibility qualifier. For a struct this also lowers
    /// every fully public field to the new visibility, so that no field is
    /// left wider than the struct itself; fields already below fully public
    /// are left untouched.
    pub fn set_visibility(&mut self, visibility: Visibility)
        ensures
            final(self)@ == spec_set_visibility(old(self)@, visibility),
    {
        let narrowed: Option<Vec<Field>> = match &self.kind {
            ItemKind::Struct { fields } => Some(narrow_public_fields(fields, visibility)),
            _ => None,
        };
        match narrowed {
            Some(fields) => {
                self.kind = ItemKind::Struct { fields };
            },
            None => {},
        }
        self.vis = visibility;
        proof {
            assert(self@ =~= spec_set_visibility(old(self)@, visibility));
        }
    }

    /// Whether the item is fully public; restricted and private items both
    /// count as not public.
    pub fn is_public(&self) -> (r: bool)
        ensures
            r == spec_is_public(self@),
    {
        matches!(self.vis, Visibility::Public)
    }

    /// The warning classes to suppress on the item's hidden variant,
    /// determined by the item's kind alone.
    pub fn allowed_lints(&self) -> (r: Vec<Lint>)
        ensures
            r@ == spec_allowed_lints(self@.kind),
    {
        let mut r: Vec<Lint> = Vec::new();
        match &self.kind {
            ItemKind::Import => r.push(Lint::UnusedImports),
            _ => r.push(Lint::DeadCode),
        }
        proof {
            assert(r@ =~= spec_allowed_lints(self@.kind));
        }
        r
    }

    /// A deep, semantically faithful copy of the item: same attribute
    /// sequence, same visibility, same kind and field visibilities.
    pub fn duplicate(&self) -> (r: Item)
        ensures
            r@ == self@,
    {
        let mut attrs: Vec<Attribute> = Vec::new();
        let mut i: usize = 0;
        while i < self.attrs.len()
            invariant
                i <= self.attrs@.len(),
                attrs@.len() == i as nat,
                forall|j: int| 0 <= j < i ==> #[trigger] attrs@[j]@ == self.attrs@[j]@,
            decreases self.attrs@.len() - i,
        {
            attrs.push(self.attrs[i].duplicate());
            i += 1;
        }
        let kind = match &self.kind {
            ItemKind::TypeAlias => ItemKind::TypeAlias,
            ItemKind::Enum => ItemKind::Enum,
            ItemKind::Struct { fields } => ItemKind::Struct { fields: copy_fields(fields) },
            ItemKind::Function => ItemKind::Function,
            ItemKind::Module => ItemKind::Module,
            ItemKind::Trait => ItemKind::Trait,
            ItemKind::Constant => ItemKind::Constant,
            ItemKind::Static => ItemKind::Static,
            ItemKind::Import => ItemKind::Import,
        };
        let r = Item { attrs, vis: self.vis, kind };
        proof {
            assert(attrs_view(r.attrs@) =~= attrs_view(self.attrs@));
            assert(r@ =~= self@);
        }
        r
    }
}

/// Law: setting a struct's visibility lowers exactly the fields that were
/// fully public — each to the struct's new visibility — and leaves every
/// other field exactly as it was.
pub proof fn lemma_narrowing_touches_only_public_fields(fields: Seq<Field>, vis: Visibility)
    ensures
        spec_narrow_fields(fields, vis).len() == fields.len(),
        forall|i: int|
            0 <= i < fields.len() && fields[i].vis is Public
                ==> spec_narrow_fields(fields, vis)[i] == (Field { vis }),
        forall|i: int|
            0 <= i < fields.len() && !(fields[i].vis is Public)
                ==> spec_narrow_fields(fields, vis)[i] == fields[i],
{
}

/// Law: setting the same visibility a second time changes nothing more.
/// After the first pass no field is left wider than the item, so the second
/// pass finds nothing to lower.
pub proof fn lemma_set_visibility_idempotent(item: ItemView, vis: Visibility)
    ensures
        spec_set_visibility(spec_set_visibility(item, vis), vis) == spec_set_visibility(item, vis),
{
    match item.kind {
        KindView::Struct(fields) => {
            let once = spec_narrow_fields(fields, vis);
            assert(spec_narrow_fields(once, vis) =~= once);
            assert(spec_set_visibility(spec_set_visibility(item, vis), vis) =~= spec_set_visibility(
                item,
                vis,
            ));
        },
        _ => {
            assert(spec_set_visibility(spec_set_visibility(item, vis), vis) =~= spec_set_visibility(
                item,
                vis,
            ));
        },
    }
}

impl Attribute {
    /// A copy of the attribute node with the same text.
    pub fn duplicate(&self) -> (r: Attribute)
        ensures
            r@ == self@,
    {
        match self {
            Attribute::Doc(s) => Attribute::Doc(s.clone()),
            Attribute::Directive(s) => Attribute::Directive(s.clone()),
        }
    }
}

/// An element-for-element copy of a field list.
fn copy_fields(fields: &Vec<Field>) -> (out: Vec<Field>)
    ensures
        out@ == fields@,
{
    let mut out: Vec<Field> = Vec::new();
    let mut i: usize = 0;
    while i < fields.len()
        invariant
            i <= fields@.len(),
            out@ == fields@.subrange(0, i as int),
        decreases fields@.len() - i,
    {
        out.push(fields[i]);
        proof {
            assert(out@ =~= fields@.subrange(0, i + 1 as int));
        }
        i += 1;
    }
    proof {
        assert(out@ =~= fields@);
    }
    out
}

} // verus!
