use hax_frontend_exporter::ident::DefId;
use hax_frontend_exporter::ident::DefPathItem;
use hax_frontend_exporter::ident::DisambiguatedDefPathItem;

fn item(data: DefPathItem, disambiguator: u32) -> DisambiguatedDefPathItem {
    DisambiguatedDefPathItem { data, disambiguator }
}

#[test]
fn path_keeps_only_named_segments() {
    let id = DefId::new(
        "core".to_string(),
        vec![
            item(DefPathItem::TypeNs("clone".to_string()), 0),
            item(DefPathItem::Impl, 3),
            item(DefPathItem::ValueNs("clone".to_string()), 0),
            item(DefPathItem::ClosureExpr, 1),
        ],
    );
    assert_eq!(id.into_path(), vec!["core".to_string(), "clone".to_string(), "clone".to_string()]);
}

#[test]
fn identifiers_differ_by_disambiguator() {
    let a = DefId::new("k".to_string(), vec![item(DefPathItem::Impl, 0)]);
    let b = DefId::new("k".to_string(), vec![item(DefPathItem::Impl, 1)]);
    assert!(a.same_as(&a));
    assert!(!a.same_as(&b));
}

fn sample() -> DefId {
    DefId::new(
        "alloc".to_string(),
        vec![
            item(DefPathItem::TypeNs("vec".to_string()), 0),
            item(DefPathItem::Impl, 2),
            item(DefPathItem::MacroNs("m".to_string()), 0),
            item(DefPathItem::LifetimeNs("'a".to_string()), 0),
            item(DefPathItem::AnonConst, 0),
        ],
    )
}

#[test]
fn the_path_of_an_identifier() {
    let expected: Vec<String> =
        vec!["alloc".to_string(), "vec".to_string(), "m".to_string(), "'a".to_string()];
    assert_eq!(sample().path(), expected);
    assert_eq!(hax_frontend_exporter::ident::Path::from(sample()), expected);
    let bare = DefId::new("k".to_string(), vec![]);
    assert_eq!(bare.path(), vec!["k".to_string()]);
}

#[test]
fn segments_are_compared_by_kind_and_name() {
    assert!(DefPathItem::TypeNs("a".to_string()).same_as(&DefPathItem::TypeNs("a".to_string())));
    assert!(!DefPathItem::TypeNs("a".to_string()).same_as(&DefPathItem::ValueNs("a".to_string())));
    assert!(!DefPathItem::TypeNs("a".to_string()).same_as(&DefPathItem::TypeNs("b".to_string())));
    assert!(DefPathItem::Ctor.same_as(&DefPathItem::Ctor));
    assert!(!DefPathItem::Ctor.same_as(&DefPathItem::Impl));
    assert_eq!(DefPathItem::ValueNs("f".to_string()).name(), Some("f".to_string()));
    assert_eq!(DefPathItem::Use.name(), None);
    let other_crate = DefId::new("core".to_string(), sample().path);
    assert!(!sample().same_as(&other_crate));
    let shorter = DefId::new("alloc".to_string(), vec![]);
    assert!(!sample().same_as(&shorter));
}

#[test]
fn an_item_is_identified_by_its_owner_when_the_names_agree() {
    let owner = DefId::new(
        "k".to_string(),
        vec![item(DefPathItem::TypeNs("m".to_string()), 0), item(DefPathItem::ValueNs("f".to_string()), 0)],
    );
    assert_eq!(DefId::def_id_of_item(owner.clone(), &"f".to_string()), Some(owner.clone()));
    assert_eq!(DefId::def_id_of_item(owner.clone(), &"g".to_string()), None);
    // An impl has no name of its own: the path ends in the name of what is around it.
    let an_impl = DefId::new(
        "k".to_string(),
        vec![item(DefPathItem::TypeNs("m".to_string()), 0), item(DefPathItem::Impl, 1)],
    );
    assert_eq!(DefId::def_id_of_item(an_impl.clone(), &"".to_string()), None);
    assert_eq!(DefId::def_id_of_item(an_impl.clone(), &"m".to_string()), Some(an_impl));
    let root = DefId::new("k".to_string(), vec![]);
    assert_eq!(DefId::def_id_of_item(root.clone(), &"k".to_string()), Some(root));
}
