use xkb_data::{
    concat_layout_lists, merge_rules, ConfigItem, KeyboardLayout, KeyboardLayouts, KeyboardVariant,
    LayoutList, VariantList,
};

fn plain(name: &str) -> KeyboardLayout {
    KeyboardLayout {
        config_item: ConfigItem {
            name: name.to_string(),
            short_description: None,
            description: format!("layout {}", name),
        },
        variant_list: None,
    }
}

fn with_variant(name: &str, variant: &str) -> KeyboardLayout {
    KeyboardLayout {
        config_item: ConfigItem {
            name: name.to_string(),
            short_description: Some(name.to_string()),
            description: format!("layout {}", name),
        },
        variant_list: Some(VariantList {
            variant: Some(vec![KeyboardVariant {
                config_item: ConfigItem {
                    name: variant.to_string(),
                    short_description: None,
                    description: format!("variant {}", variant),
                },
            }]),
        }),
    }
}

fn list(names: &[&str]) -> LayoutList {
    LayoutList { layout: names.iter().map(|name| plain(name)).collect() }
}

fn names(layouts: &[KeyboardLayout]) -> Vec<&str> {
    layouts.iter().map(|l| l.name()).collect()
}

#[test]
fn no_lists_join_to_an_empty_list() {
    let joined = concat_layout_lists(vec![]);
    assert!(joined.layout.is_empty());
}

#[test]
fn one_list_joins_to_itself() {
    let joined = concat_layout_lists(vec![list(&["us", "de"])]);
    assert_eq!(joined, list(&["us", "de"]));
}

#[test]
fn three_lists_join_in_the_order_given() {
    let joined = concat_layout_lists(vec![list(&["us", "de"]), list(&[]), list(&["fr"]), list(&["cz", "pl"])]);
    assert_eq!(names(&joined.layout), vec!["us", "de", "fr", "cz", "pl"]);
}

#[test]
fn empty_lists_add_nothing() {
    let joined = concat_layout_lists(vec![list(&[]), list(&[]), list(&[])]);
    assert!(joined.layout.is_empty());
}

#[test]
fn merged_catalog_holds_the_base_then_the_extras() {
    let base = KeyboardLayouts { layout_list: list(&["us", "de", "fr"]) };
    let extras = KeyboardLayouts {
        layout_list: LayoutList { layout: vec![with_variant("apl", "dyalog"), plain("brai")] },
    };
    let merged = merge_rules(base.clone(), extras.clone());
    assert_eq!(merged.layouts().len(), base.layouts().len() + extras.layouts().len());
    assert_eq!(&merged.layouts()[..3], base.layouts());
    assert_eq!(&merged.layouts()[3..], extras.layouts());
    assert_eq!(names(merged.layouts()), vec!["us", "de", "fr", "apl", "brai"]);
    let variants = merged.layouts()[3].variants().expect("apl has a variant");
    assert_eq!(variants[0].name(), "dyalog");
}

#[test]
fn merging_keeps_layouts_of_the_same_name() {
    let base = KeyboardLayouts { layout_list: list(&["us", "de"]) };
    let extras = KeyboardLayouts {
        layout_list: LayoutList { layout: vec![with_variant("us", "extra"), plain("de")] },
    };
    let merged = merge_rules(base, extras);
    assert_eq!(names(merged.layouts()), vec!["us", "de", "us", "de"]);
    assert!(merged.layouts()[0].variants().is_none());
    assert!(merged.layouts()[2].variants().is_some());
}

#[test]
fn merging_with_an_empty_catalog_changes_nothing() {
    let base = KeyboardLayouts { layout_list: list(&["us", "de"]) };
    let nothing = KeyboardLayouts { layout_list: list(&[]) };
    assert_eq!(merge_rules(base.clone(), nothing.clone()), base);
    assert_eq!(merge_rules(nothing, base.clone()), base);
}

#[test]
fn merging_is_not_symmetric() {
    let base = KeyboardLayouts { layout_list: list(&["us"]) };
    let extras = KeyboardLayouts { layout_list: list(&["apl"]) };
    assert_eq!(names(merge_rules(base.clone(), extras.clone()).layouts()), vec!["us", "apl"]);
    assert_eq!(names(merge_rules(extras, base).layouts()), vec!["apl", "us"]);
}

#[test]
fn merging_the_same_catalogs_twice_gives_equal_catalogs() {
    let base = KeyboardLayouts { layout_list: list(&["us", "de"]) };
    let extras = KeyboardLayouts {
        layout_list: LayoutList { layout: vec![with_variant("apl", "dyalog")] },
    };
    let first = merge_rules(base.clone(), extras.clone());
    let second = merge_rules(base, extras);
    assert_eq!(first, second);
}
