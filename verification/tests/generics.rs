use op_signature::{
    parse_generics, parse_lifetime, BoundMap, GenericParam, Generics, LifetimeParam, Path,
    PathArguments, PathSegment, SignatureError, TypeParam, TypeParamBound, WherePredicate,
};

fn toks(parts: &[&str]) -> Vec<String> {
    parts.iter().map(|p| p.to_string()).collect()
}

fn lifetime(name: &str, bounded: bool) -> GenericParam {
    GenericParam::Lifetime(LifetimeParam { name: name.to_string(), bounded })
}

fn trait_bound(name: &str) -> TypeParamBound {
    TypeParamBound::Trait(Path {
        leading_colon: false,
        segments: vec![PathSegment { ident: name.to_string(), arguments: PathArguments::Absent }],
        tokens: toks(&[name]),
    })
}

fn bare(name: &str) -> GenericParam {
    GenericParam::Type(TypeParam {
        name: name.to_string(),
        bounds: vec![],
        plain: true,
        text: name.to_string(),
    })
}

fn bound(name: &str, bound: &str) -> GenericParam {
    GenericParam::Type(TypeParam {
        name: name.to_string(),
        bounds: vec![trait_bound(bound)],
        plain: true,
        text: format!("{name} : {bound}"),
    })
}

fn predicate(name: &str, bound: &str) -> WherePredicate {
    WherePredicate {
        subject: Some(name.to_string()),
        bounds: vec![trait_bound(bound)],
        text: format!("{name} : {bound}"),
    }
}

fn generics(params: Vec<GenericParam>, where_clause: Vec<WherePredicate>) -> Generics {
    Generics { params, where_clause }
}

fn listing(map: &BoundMap) -> Vec<(&str, &str)> {
    map.entries().iter().map(|(name, bound)| (name.as_str(), bound.as_str())).collect()
}

fn error(r: Result<BoundMap, SignatureError>) -> SignatureError {
    r.expect_err("the generics are invalid")
}

fn text(s: &str) -> String {
    s.to_string()
}

#[test]
fn no_lifetime() {
    assert_eq!(parse_lifetime(&generics(vec![], vec![])), Ok(None));
    assert_eq!(parse_lifetime(&generics(vec![bare("T"), GenericParam::Const], vec![])), Ok(None));
}

#[test]
fn one_lifetime() {
    assert_eq!(
        parse_lifetime(&generics(vec![bare("T"), lifetime("scope", false)], vec![])),
        Ok(Some(text("scope")))
    );
}

#[test]
fn two_lifetimes() {
    assert_eq!(
        parse_lifetime(&generics(vec![lifetime("a", false), bare("T"), lifetime("b", false)], vec![])),
        Err(SignatureError::TooManyLifetimes)
    );
}

#[test]
fn bounds_on_a_lifetime_come_first() {
    assert_eq!(
        parse_lifetime(&generics(vec![lifetime("a", false), lifetime("b", true)], vec![])),
        Err(SignatureError::LifetimesMayNotHaveBounds(text("'b")))
    );
}

#[test]
fn no_type_parameters() {
    let bounds = parse_generics(&generics(vec![lifetime("a", false)], vec![])).unwrap();
    assert!(bounds.is_empty());
    assert!(listing(&bounds).is_empty());
}

#[test]
fn bounds_where_declared_and_in_the_where_clause() {
    let bounds = parse_generics(&generics(
        vec![bound("T", "Clone"), bare("U"), GenericParam::Const],
        vec![predicate("U", "Send")],
    ))
    .unwrap();
    assert_eq!(listing(&bounds), vec![("T", "Clone"), ("U", "Send")]);
    assert!(!bounds.is_empty());
}

#[test]
fn bounds_are_listed_in_the_order_of_their_names() {
    let bounds = parse_generics(&generics(
        vec![bound("Zed", "A"), bare("Mid"), bound("B", "C"), bound("Ab", "D"), bound("A", "E")],
        vec![predicate("Mid", "F")],
    ))
    .unwrap();
    assert_eq!(
        listing(&bounds),
        vec![("A", "E"), ("Ab", "D"), ("B", "C"), ("Mid", "F"), ("Zed", "A")]
    );
}

#[test]
fn a_parameter_without_any_bound() {
    assert_eq!(
        error(parse_generics(&generics(vec![bare("B")], vec![]))),
        SignatureError::GenericBoundCardinality(text("B"))
    );
}

#[test]
fn a_parameter_with_two_bounds() {
    assert_eq!(
        error(parse_generics(&generics(vec![bound("B", "Trait")], vec![predicate("B", "Trait")]))),
        SignatureError::GenericBoundCardinality(text("B"))
    );
}

#[test]
fn a_predicate_for_no_parameter() {
    assert_eq!(
        error(parse_generics(&generics(vec![], vec![predicate("C", "Trait")]))),
        SignatureError::WherePredicateMustAppearInGenerics(text("C"))
    );
}

#[test]
fn the_least_leftover_name_is_reported() {
    assert_eq!(
        error(parse_generics(&generics(
            vec![bare("M")],
            vec![predicate("Z", "A"), predicate("M", "B"), predicate("C", "D"), predicate("K", "E")],
        ))),
        SignatureError::WherePredicateMustAppearInGenerics(text("C"))
    );
}

#[test]
fn a_predicate_given_twice() {
    assert_eq!(
        error(parse_generics(&generics(
            vec![bare("T")],
            vec![predicate("T", "A"), predicate("T", "B")],
        ))),
        SignatureError::DuplicateGeneric(text("T"))
    );
}

#[test]
fn a_parameter_declared_twice() {
    assert_eq!(
        error(parse_generics(&generics(vec![bound("T", "A"), bound("T", "B")], vec![]))),
        SignatureError::DuplicateGeneric(text("T"))
    );
    assert_eq!(
        error(parse_generics(&generics(vec![bare("T"), bound("T", "B")], vec![predicate("T", "A")]))),
        SignatureError::DuplicateGeneric(text("T"))
    );
    // The first parameter takes the predicate, so none is left for the second.
    assert_eq!(
        error(parse_generics(&generics(vec![bare("T"), bare("T")], vec![predicate("T", "A")]))),
        SignatureError::GenericBoundCardinality(text("T"))
    );
}

#[test]
fn parameters_of_other_forms() {
    let two = GenericParam::Type(TypeParam {
        name: text("T"),
        bounds: vec![trait_bound("A"), trait_bound("B")],
        plain: true,
        text: text("T : A + B"),
    });
    assert_eq!(
        error(parse_generics(&generics(vec![two], vec![]))),
        SignatureError::InvalidGeneric(text("T : A + B"))
    );
    let lifetime_bound = GenericParam::Type(TypeParam {
        name: text("T"),
        bounds: vec![TypeParamBound::Other],
        plain: true,
        text: text("T : 'a"),
    });
    assert_eq!(
        error(parse_generics(&generics(vec![lifetime_bound], vec![]))),
        SignatureError::InvalidGeneric(text("T : 'a"))
    );
    let with_default = GenericParam::Type(TypeParam {
        name: text("T"),
        bounds: vec![trait_bound("A")],
        plain: false,
        text: text("T : A = u8"),
    });
    assert_eq!(
        error(parse_generics(&generics(vec![with_default], vec![]))),
        SignatureError::InvalidGeneric(text("T : A = u8"))
    );
}

#[test]
fn predicates_of_other_forms() {
    let two = WherePredicate {
        subject: Some(text("T")),
        bounds: vec![trait_bound("A"), trait_bound("B")],
        text: text("T : A + B"),
    };
    assert_eq!(
        error(parse_generics(&generics(vec![bare("T")], vec![two]))),
        SignatureError::InvalidWherePredicate(text("T : A + B"))
    );
    let of_a_type = WherePredicate {
        subject: None,
        bounds: vec![trait_bound("A")],
        text: text("Vec < T > : A"),
    };
    assert_eq!(
        error(parse_generics(&generics(vec![bare("T")], vec![of_a_type]))),
        SignatureError::InvalidWherePredicate(text("Vec < T > : A"))
    );
    let none = WherePredicate { subject: Some(text("T")), bounds: vec![], text: text("T :") };
    assert_eq!(
        error(parse_generics(&generics(vec![bare("T")], vec![none]))),
        SignatureError::InvalidWherePredicate(text("T :"))
    );
}

#[test]
fn the_where_clause_is_read_first() {
    let bad = WherePredicate { subject: None, bounds: vec![], text: text("'a : 'b") };
    let two = GenericParam::Type(TypeParam {
        name: text("T"),
        bounds: vec![TypeParamBound::Other],
        plain: true,
        text: text("T : ?Sized"),
    });
    assert_eq!(
        error(parse_generics(&generics(vec![two], vec![bad]))),
        SignatureError::InvalidWherePredicate(text("'a : 'b"))
    );
}

#[test]
fn a_bound_map_keeps_its_names_in_order() {
    let mut map = BoundMap::new();
    assert!(map.is_empty());
    assert_eq!(map.first_key(), None);
    assert!(!map.insert(text("b"), text("B")));
    assert!(!map.insert(text("a"), text("A")));
    assert!(!map.insert(text("c"), text("C")));
    assert_eq!(listing(&map), vec![("a", "A"), ("b", "B"), ("c", "C")]);
    assert_eq!(map.first_key(), Some(&text("a")));
    assert!(map.contains_key("b"));
    assert!(!map.contains_key("d"));
    assert!(map.insert(text("b"), text("B2")));
    assert_eq!(listing(&map), vec![("a", "A"), ("b", "B2"), ("c", "C")]);
    assert_eq!(map.remove("a"), Some(text("A")));
    assert_eq!(map.remove("a"), None);
    assert_eq!(listing(&map), vec![("b", "B2"), ("c", "C")]);
    assert_eq!(map.first_key(), Some(&text("b")));
}
