use instability::item_like::{Attribute, Field, Item, ItemKind, Lint, Visibility};
use instability::unstable::{DualVariant, Expansion, UnstableAttribute};

fn plain_item(kind: ItemKind, vis: Visibility) -> Item {
    Item { attrs: Vec::new(), vis, kind }
}

fn with_feature(feature: &str) -> UnstableAttribute {
    UnstableAttribute { feature: Some(String::from(feature)), issue: None }
}

fn expect_dual(out: Expansion) -> DualVariant {
    match out {
        Expansion::Dual(dual) => dual,
        Expansion::Unchanged(_) => panic!("expected a dual-variant expansion"),
    }
}

fn doc_text(attr: &Attribute) -> &str {
    match attr {
        Attribute::Doc(text) => text,
        Attribute::Directive(_) => panic!("expected a documentation attribute"),
    }
}

const ADDENDUM_FOR_RISKY: &str = "\n# Availability\n\n**This API is marked as unstable** and is \
     only available when the `unstable-risky-function` crate feature is enabled. This comes with \
     no stability guarantees, and could be changed or removed at any time.";

#[test]
fn feature_name_gets_the_fixed_prefix() {
    assert_eq!(
        with_feature("risky-function").crate_feature_name(),
        "unstable-risky-function"
    );
}

#[test]
fn missing_feature_falls_back_to_catch_all() {
    let cfg = UnstableAttribute { feature: None, issue: None };
    assert_eq!(cfg.crate_feature_name(), "unstable");
}

#[test]
fn default_config_has_no_arguments() {
    let cfg = UnstableAttribute::default();
    assert_eq!(cfg.feature, None);
    assert_eq!(cfg.issue, None);
    assert_eq!(cfg.crate_feature_name(), "unstable");
}

#[test]
fn every_kind_expands_to_two_complementary_variants() {
    let kinds = vec![
        ItemKind::TypeAlias,
        ItemKind::Enum,
        ItemKind::Struct { fields: vec![Field { vis: Visibility::Public }] },
        ItemKind::Function,
        ItemKind::Module,
        ItemKind::Trait,
        ItemKind::Constant,
        ItemKind::Static,
        ItemKind::Import,
    ];
    for kind in kinds {
        let item = plain_item(kind, Visibility::Public);
        let dual = expect_dual(with_feature("k").expand(item));
        assert_eq!(dual.feature_name, "unstable-k");
        assert_eq!(dual.enabled.vis, Visibility::Public);
        assert_eq!(dual.disabled.vis, Visibility::Restricted);
        assert_ne!(dual.enabled, dual.disabled);
    }
}

#[test]
fn restricted_and_private_items_pass_through_unchanged() {
    for vis in [Visibility::Restricted, Visibility::Private] {
        let item = Item {
            attrs: vec![Attribute::Doc(String::from("original docs"))],
            vis,
            kind: ItemKind::Function,
        };
        let out = with_feature("anything").expand(item.clone());
        assert_eq!(out, Expansion::Unchanged(item));
    }
}

#[test]
fn addendum_without_issue_names_the_flag_and_no_tracking_line() {
    let item = plain_item(ItemKind::Function, Visibility::Public);
    let dual = expect_dual(with_feature("risky-function").expand(item));
    let text = doc_text(&dual.enabled.attrs[0]);
    assert!(text.contains("unstable-risky-function"));
    assert!(!text.contains("tracking issue"));
    assert_eq!(text, ADDENDUM_FOR_RISKY);
}

#[test]
fn addendum_with_issue_cites_it_verbatim() {
    let cfg = UnstableAttribute {
        feature: Some(String::from("risky-function")),
        issue: Some(String::from("#123")),
    };
    let item = plain_item(ItemKind::Function, Visibility::Public);
    let dual = expect_dual(cfg.expand(item));
    let text = doc_text(&dual.enabled.attrs[0]);
    assert!(text.contains("#123"));
    let expected = format!("{}\nThe tracking issue is: `#123`", ADDENDUM_FOR_RISKY);
    assert_eq!(text, expected);
}

#[test]
fn addendum_is_appended_after_existing_attributes() {
    let item = Item {
        attrs: vec![Attribute::Doc(String::from("original docs"))],
        vis: Visibility::Public,
        kind: ItemKind::Function,
    };
    let dual = expect_dual(with_feature("f").expand(item));
    assert_eq!(dual.enabled.attrs.len(), 2);
    assert_eq!(dual.enabled.attrs[0], Attribute::Doc(String::from("original docs")));
    assert!(matches!(dual.enabled.attrs[1], Attribute::Doc(_)));
    assert_eq!(dual.enabled.attrs, dual.disabled.attrs);
}

#[test]
fn public_function_variants_share_everything_but_visibility() {
    let item = plain_item(ItemKind::Function, Visibility::Public);
    let dual = expect_dual(with_feature("function").expand(item));
    assert_eq!(dual.feature_name, "unstable-function");
    assert_eq!(dual.enabled.kind, ItemKind::Function);
    assert_eq!(dual.disabled.kind, ItemKind::Function);
    assert_eq!(dual.enabled.attrs, dual.disabled.attrs);
    assert_eq!(dual.enabled.vis, Visibility::Public);
    assert_eq!(dual.disabled.vis, Visibility::Restricted);
    assert_eq!(dual.lints, vec![Lint::DeadCode]);
}

#[test]
fn public_import_suppresses_the_unused_import_class() {
    let item = plain_item(ItemKind::Import, Visibility::Public);
    let dual = expect_dual(UnstableAttribute::default().expand(item));
    assert_eq!(dual.feature_name, "unstable");
    assert_eq!(dual.lints, vec![Lint::UnusedImports]);
    assert_ne!(dual.lints, vec![Lint::DeadCode]);
}

#[test]
fn reexport_of_unstable_item_documents_instability_twice() {
    // The engine does not deduplicate availability sections: marking a
    // re-export of an already-unstable item describes the instability twice.
    let once = expect_dual(with_feature("reexport").expand(plain_item(
        ItemKind::Import,
        Visibility::Public,
    )));
    let inherited = doc_text(&once.enabled.attrs[0]).to_string();
    let reexport = Item {
        attrs: vec![Attribute::Doc(inherited)],
        vis: Visibility::Public,
        kind: ItemKind::Import,
    };
    let twice = expect_dual(with_feature("reexport").expand(reexport));
    assert_eq!(twice.enabled.attrs.len(), 2);
    assert!(doc_text(&twice.enabled.attrs[0]).contains("# Availability"));
    assert!(doc_text(&twice.enabled.attrs[1]).contains("# Availability"));
}

#[test]
fn hidden_struct_variant_narrows_only_its_public_fields() {
    let fields = vec![
        Field { vis: Visibility::Public },
        Field { vis: Visibility::Restricted },
        Field { vis: Visibility::Private },
    ];
    let item = plain_item(ItemKind::Struct { fields }, Visibility::Public);
    let dual = expect_dual(with_feature("struct").expand(item));
    assert_eq!(
        dual.enabled.kind,
        ItemKind::Struct {
            fields: vec![
                Field { vis: Visibility::Public },
                Field { vis: Visibility::Restricted },
                Field { vis: Visibility::Private },
            ]
        }
    );
    assert_eq!(
        dual.disabled.kind,
        ItemKind::Struct {
            fields: vec![
                Field { vis: Visibility::Restricted },
                Field { vis: Visibility::Restricted },
                Field { vis: Visibility::Private },
            ]
        }
    );
}
