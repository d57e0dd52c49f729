//! The expansion engine: from the attribute's arguments and one public item
//! it derives the two conditionally compiled variants — the feature-enabled
//! copy, kept fully public, and the feature-disabled copy, restricted to the
//! defining crate — and the documentation addendum and warning allowances
//! that go with them. A non-public item passes through unchanged.

use vstd::prelude::*;

use crate::item_like::{
    spec_allowed_lints, spec_is_public, spec_set_visibility, AttrView, Attribute, Item, ItemView,
    Lint, Visibility,
};

verus! {

/// The attribute's own parameters: an optional feature name and an optional
/// reference to a tracking issue.
#[derive(Clone, Debug, Default, PartialEq, Eq)]
pub struct UnstableAttribute {
    /// The name of the feature that enables the unstable API. When absent,
    /// the item is guarded by the catch-all `unstable` feature instead.
    pub feature: Option<String>,
    /// A link or reference to a tracking issue for the unstable feature,
    /// cited verbatim in the item's documentation.
    pub issue: Option<String>,
}

/// The text of an optional string parameter.
pub open spec fn spec_opt_chars(o: Option<String>) -> Option<Seq<char>> {
    match o {
        Some(s) => Some(s@),
        None => None,
    }
}

/// The mathematical value of an [`UnstableAttribute`].
#[verifier::ext_equal]
pub struct ConfigView {
    pub feature: Option<Seq<char>>,
    pub issue: Option<Seq<char>>,
}

impl View for UnstableAttribute {
    type V = ConfigView;

    open spec fn view(&self) -> ConfigView {
        ConfigView { feature: spec_opt_chars(self.feature), issue: spec_opt_chars(self.issue) }
    }
}

/// The qualified feature name: the fixed `unstable-` prefix followed by the
/// feature name, or the catch-all identifier `unstable` alone when no
/// feature name was given.
pub open spec fn spec_crate_feature_name(feature: Option<Seq<char>>) -> Seq<char> {
    match feature {
        Some(name) => "unstable-"@ + name,
        None => "unstable"@,
    }
}

/// The documentation addendum: an "Availability" heading, a sentence naming
/// the qualified feature flag, and — only when an issue reference was given —
/// one more line citing it verbatim.
pub open spec fn spec_doc_addendum(feature_name: Seq<char>, issue: Option<Seq<char>>) -> Seq<char> {
    let base = "\n# Availability\n\n**This API is marked as unstable** and is only available when the `"@
        + feature_name
        + "` crate feature is enabled. This comes with no stability guarantees, and could be changed or removed at any time."@;
    match issue {
        Some(reference) => base + "\nThe tracking issue is: `"@ + reference + "`"@,
        None => base,
    }
}

/// An item with one more documentation attribute appended.
pub open spec fn spec_with_doc(v: ItemView, doc: Seq<char>) -> ItemView {
    ItemView { attrs: v.attrs.push(AttrView::Doc(doc)), ..v }
}

/// The two variants a public item expands to, with the feature name that
/// keys their build-time conditionals: `enabled` is compiled exactly when
/// the feature is on, `disabled` exactly when it is off.
#[derive(Clone, Debug, PartialEq, Eq)]
pub struct DualVariant {
    /// The qualified feature name both conditionals are keyed on.
    pub feature_name: String,
    /// The fully public copy, with the documentation addendum appended;
    /// compiled only when the feature is enabled.
    pub enabled: Item,
    /// The copy restricted to the defining crate; compiled only when the
    /// feature is disabled, with the warning classes in `lints` suppressed
    /// on it.
    pub disabled: Item,
    /// The warning classes to suppress on the disabled copy.
    pub lints: Vec<Lint>,
}

/// What the transformation produced: a public item becomes a dual variant,
/// any other item passes through as a single unchanged unit.
#[derive(Clone, Debug, PartialEq, Eq)]
pub enum Expansion {
    Unchanged(Item),
    Dual(DualVariant),
}

/// The mathematical value of a [`DualVariant`].
#[verifier::ext_equal]
pub struct DualView {
    pub feature_name: Seq<char>,
    pub enabled: ItemView,
    pub disabled: ItemView,
    pub lints: Seq<Lint>,
}

impl View for DualVariant {
    type V = DualView;

    open spec fn view(&self) -> DualView {
        DualView {
            feature_name: self.feature_name@,
            enabled: self.enabled@,
            disabled: self.disabled@,
            lints: self.lints@,
        }
    }
}

/// The mathematical value of an [`Expansion`].
#[verifier::ext_equal]
pub enum ExpansionView {
    Unchanged(ItemView),
    Dual(DualView),
}

impl View for Expansion {
    type V = ExpansionView;

    open spec fn view(&self) -> ExpansionView {
        match self {
            Expansion::Unchanged(item) => ExpansionView::Unchanged(item@),
            Expansion::Dual(dual) => ExpansionView::Dual(dual@),
        }
    }
}

/// The whole transformation, as a function of the attribute's arguments and
/// the item's value: a fully public item becomes the dual variant — the
/// documented copy under the feature, the documented and restricted copy
/// under its complement — while any other item is passed through unchanged.
pub open spec fn spec_expand(cfg: ConfigView, item: ItemView) -> ExpansionView {
    if spec_is_public(item) {
        let feature_name = spec_crate_feature_name(cfg.feature);
        let documented = spec_with_doc(item, spec_doc_addendum(feature_name, cfg.issue));
        ExpansionView::Dual(
            DualView {
                feature_name,
                enabled: documented,
                disabled: spec_set_visibility(documented, Visibility::Restricted),
                lints: spec_allowed_lints(item.kind),
            },
        )
    } else {
        ExpansionView::Unchanged(item)
    }
}

/// The variant of a dual expansion that a given build compiles: the enabled
/// copy when the feature is on, the disabled copy when it is off.
pub open spec fn spec_compiled_variant(dual: DualView, feature_enabled: bool) -> ItemView {
    if feature_enabled {
        dual.enabled
    } else {
        dual.disabled
    }
}

/// Law: a fully public item — of any of the nine kinds — expands to exactly
/// two variants whose conditionals are mutually exclusive and jointly
/// exhaustive over the feature's states: every build compiles exactly one of
/// the two, the enabled copy precisely when the feature is on.
pub proof fn lemma_public_item_dual(cfg: ConfigView, item: ItemView)
    requires
        spec_is_public(item),
    ensures
        spec_expand(cfg, item) is Dual,
        spec_expand(cfg, item) matches ExpansionView::Dual(dual) ==> {
            &&& dual.enabled != dual.disabled
            &&& forall|on: bool|
                (#[trigger] spec_compiled_variant(dual, on) == dual.enabled) <==> on
            &&& forall|on: bool|
                spec_compiled_variant(dual, on) == dual.enabled || #[trigger] spec_compiled_variant(
                    dual,
                    on,
                ) == dual.disabled
        },
{
    let dual = spec_expand(cfg, item)->Dual_0;
    assert(dual.enabled.vis is Public);
    assert(dual.disabled.vis is Restricted);
}

/// Law: the transformation applied to an item that is not fully public —
/// restricted or private — is the identity: the output is the input as one
/// single unit, with no documentation added and no second variant.
pub proof fn lemma_non_public_identity(cfg: ConfigView, item: ItemView)
    requires
        !spec_is_public(item),
    ensures
        spec_expand(cfg, item) == ExpansionView::Unchanged(item),
{
}

/// Law: when no feature name is given, the qualified feature name is exactly
/// the catch-all identifier — never the bare prefix and never empty.
pub proof fn lemma_catch_all_feature_name(cfg: ConfigView)
    requires
        cfg.feature is None,
    ensures
        spec_crate_feature_name(cfg.feature) == "unstable"@,
        spec_crate_feature_name(cfg.feature).len() > 0,
{
    reveal_strlit("unstable");
}

/// Law: the two variants of a public item agree on everything but
/// visibility. Both carry the item's attributes with the one documentation
/// addendum appended; the enabled copy keeps the item's kind, payload and
/// full visibility as authored, while the disabled copy is the enabled one
/// with its visibility (and, for a struct, its public fields) restricted to
/// the defining crate.
pub proof fn lemma_variants_differ_only_in_visibility(cfg: ConfigView, item: ItemView)
    requires
        spec_is_public(item),
    ensures
        spec_expand(cfg, item) matches ExpansionView::Dual(dual) ==> {
            &&& dual.enabled.attrs == dual.disabled.attrs
            &&& dual.enabled.attrs == item.attrs.push(
                AttrView::Doc(
                    spec_doc_addendum(spec_crate_feature_name(cfg.feature), cfg.issue),
                ),
            )
            &&& dual.enabled.vis == item.vis
            &&& dual.enabled.kind == item.kind
            &&& dual.disabled == spec_set_visibility(dual.enabled, Visibility::Restricted)
            &&& dual.feature_name == spec_crate_feature_name(cfg.feature)
        },
{
}

/// Law: the hidden variant of a public import suppresses exactly the
/// unused-import warning class, and the hidden variant of every other kind
/// exactly the unused-declaration class.
pub proof fn lemma_lints_by_kind(cfg: ConfigView, item: ItemView)
    requires
        spec_is_public(item),
    ensures
        spec_expand(cfg, item) matches ExpansionView::Dual(dual) ==> {
            &&& (item.kind is Import ==> dual.lints == seq![Lint::UnusedImports])
            &&& (!(item.kind is Import) ==> dual.lints == seq![Lint::DeadCode])
        },
{
}

/// The documentation addendum for the given qualified feature name and
/// optional issue reference.
fn doc_addendum(feature_name: &String, issue: &Option<String>) -> (r: String)
    ensures
        r@ == spec_doc_addendum(feature_name@, spec_opt_chars(*issue)),
{
    let mut r = String::from_str(
        "\n# Availability\n\n**This API is marked as unstable** and is only available when the `",
    );
    r.append(feature_name.as_str());
    r.append(
        "` crate feature is enabled. This comes with no stability guarantees, and could be changed or removed at any time.",
    );
    match issue {
        Some(reference) => {
            r.append("\nThe tracking issue is: `");
            r.append(reference.as_str());
            r.append("`");
        },
        None => {},
    }
    r
}

impl UnstableAttribute {
    /// The qualified feature name: `unstable-` followed by the feature name,
    /// or the catch-all `unstable` when no feature name was given.
    pub fn crate_feature_name(&self) -> (r: String)
        ensures
            r@ == spec_crate_feature_name(self@.feature),
    {
        match &self.feature {
            Some(name) => {
                let mut r = String::from_str("unstable-");
                r.append(name.as_str());
                r
            },
            None => String::from_str("unstable"),
        }
    }

    /// Expands one item. A fully public item yields the dual variant: both
    /// copies carry the documentation addendum; the enabled copy keeps the
    /// item as authored, the disabled copy is restricted to the defining
    /// crate (lowering a struct's public fields with it) and carries the
    /// kind's warning allowances. A restricted or private item is returned
    /// unchanged, as a single unit.
    ///
    /// The addendum is appended without looking at the documentation already
    /// present: a re-export of an item that is itself marked unstable ends up
    /// describing its instability twice, an acknowledged rough edge that is
    /// deliberately kept.
    pub fn expand(&self, item: Item) -> (out: Expansion)
        ensures
            out@ == spec_expand(self@, item@),
    {
        let ghost orig = item@;
        if item.is_public() {
            let mut enabled = item;
            let feature_name = self.crate_feature_name();
            let doc = doc_addendum(&feature_name, &self.issue);
            enabled.push_attr(Attribute::Doc(doc));
            proof {
                assert(enabled@ =~= spec_with_doc(
                    orig,
                    spec_doc_addendum(spec_crate_feature_name(self@.feature), self@.issue),
                ));
            }
            let mut disabled = enabled.duplicate();
            disabled.set_visibility(Visibility::Restricted);
            let lints = enabled.allowed_lints();
            let out = Expansion::Dual(
                DualVariant { feature_name, enabled, disabled, lints },
            );
            proof {
                assert(out@ =~= spec_expand(self@, orig));
            }
            out
        } else {
            Expansion::Unchanged(item)
        }
    }
}

} // verus!
