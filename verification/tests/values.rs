use ts_checker::duplicate::DuplicateTracker;
use ts_checker::equal::eq_type;
use ts_checker::number::Number;
use ts_checker::span::Span;
use ts_checker::types::{Key, Keyword, Lit, Member, Type};

fn kw(k: Keyword) -> Type {
    Type::Keyword(k)
}

fn number(negative: bool, mantissa: u64, exponent: i16) -> Number {
    Number { negative, mantissa, exponent }
}

/// The parts of a finite double: its sign, its mantissa and its exponent.
fn parts(v: f64) -> Number {
    let bits = v.to_bits();
    let negative = bits >> 63 == 1;
    let e = ((bits >> 52) & 0x7ff) as i16;
    let m = bits & ((1u64 << 52) - 1);
    if e == 0 {
        number(negative, m, -1074)
    } else {
        number(negative, m | (1u64 << 52), e - 1075)
    }
}

#[test]
fn whole_numbers_round_to_themselves() {
    for v in [0i64, 1, -1, 2, 41, -1000, i64::MAX, i64::MIN] {
        assert_eq!(Number::from_int(v).round(), v);
        assert_eq!(Number::from_int(v).is_zero(), v == 0);
    }
    assert_eq!(Number::from_int(-5), number(true, 5, 0));
}

#[test]
fn rounding_goes_to_the_nearest_integer() {
    assert_eq!(number(false, 5, -1).round(), 3);
    assert_eq!(number(true, 5, -1).round(), -3);
    assert_eq!(number(false, 9, -2).round(), 2);
    assert_eq!(number(false, 11, -2).round(), 3);
    assert_eq!(number(false, 1, -1).round(), 1);
    assert_eq!(number(false, 1, -2).round(), 0);
    assert_eq!(number(false, 3, 2).round(), 12);
    assert_eq!(number(false, u64::MAX, -64).round(), 1);
    assert_eq!(number(false, u64::MAX, -66).round(), 0);
    assert_eq!(number(false, u64::MAX, -70).round(), 0);
    assert_eq!(number(false, 0, 500).round(), 0);
    assert_eq!(number(false, 0, -500).round(), 0);
}

#[test]
fn rounding_stays_within_the_integers() {
    assert_eq!(number(false, 1, 62).round(), 1i64 << 62);
    assert_eq!(number(false, 1, 63).round(), i64::MAX);
    assert_eq!(number(true, 1, 63).round(), i64::MIN);
    assert_eq!(number(false, 3, 62).round(), i64::MAX);
    assert_eq!(number(true, 7, 4000).round(), i64::MIN);
    assert_eq!(number(false, u64::MAX, 0).round(), i64::MAX);
}

#[test]
fn rounding_agrees_with_doubles() {
    for v in [0.0f64, 0.4, 0.5, 1.5, 2.5, -0.5, -2.5, 1e10, 123456.789, -1e300, 4.9e-324, 9007199254740993.0] {
        assert_eq!(parts(v).round(), v.round() as i64, "{}", v);
        assert_eq!(parts(v).is_zero(), v == 0.0);
    }
}

#[test]
fn union_in_normal_form() {
    let a = || kw(Keyword::Number);
    let b = || kw(Keyword::String);
    let c = || Type::Lit(Lit::Bool(true));
    assert_eq!(Type::union(vec![a(), b()]), Type::Union(vec![a(), b()]));
    assert_eq!(Type::union(vec![a(), a()]), a());
    assert_eq!(Type::union(vec![a()]), a());
    assert_eq!(Type::union(vec![]), Type::Union(vec![]));
    assert_eq!(
        Type::union(vec![a(), Type::Union(vec![b(), a(), c()]), c(), Type::Union(vec![])]),
        Type::Union(vec![a(), b(), c()])
    );
    assert_eq!(
        Type::union(vec![Type::Union(vec![Type::Union(vec![a(), b()]), b()])]),
        Type::Union(vec![Type::Union(vec![a(), b()]), b()])
    );
}

#[test]
fn widening_of_literals() {
    assert_eq!(Type::Lit(Lit::Str("a".to_string())).generalize_lit(), kw(Keyword::String));
    assert_eq!(Type::Lit(Lit::Num(Number::from_int(1))).generalize_lit(), kw(Keyword::Number));
    assert_eq!(Type::Lit(Lit::Bool(false)).generalize_lit(), kw(Keyword::Boolean));
    assert_eq!(Type::This.generalize_lit(), Type::This);
}

#[test]
fn copies_are_equal_to_their_original() {
    let t = Type::Interface {
        name: "I".to_string(),
        body: vec![
            Member::Property {
                key: Key::Symbol("iterator".to_string()),
                computed: true,
                optional: true,
                readonly: false,
                is_static: false,
                ty: Some(Type::Array(Box::new(Type::Tuple(vec![kw(Keyword::Any), Type::This])))),
            },
            Member::Index { readonly: true, key_ty: kw(Keyword::Number), ty: None },
        ],
        extends: vec![Type::Ref { path: vec!["J".to_string()], type_args: Some(vec![kw(Keyword::Void)]) }],
    };
    let copy = t.clone();
    assert_eq!(copy, t);
    assert!(eq_type(&copy, &t));
    assert!(t.same(&copy));
    assert!(!eq_type(&t, &Type::Interface { name: "I".to_string(), body: vec![], extends: vec![] }));
    assert!(!eq_type(&Type::Tuple(vec![kw(Keyword::Any)]), &Type::Tuple(vec![kw(Keyword::Any), kw(Keyword::Any)])));
    assert!(!eq_type(&Type::Tuple(vec![kw(Keyword::Any)]), &Type::Union(vec![kw(Keyword::Any)])));
}

#[test]
fn spans() {
    assert!(Span::dummy().is_dummy());
    assert!(!Span { lo: 0, hi: 1 }.is_dummy());
    assert_eq!(Span::new(4, 2), Span { lo: 2, hi: 4 });
    assert_eq!(Span { lo: 5, hi: 9 }.with_lo(2), Span { lo: 2, hi: 9 });
    assert_eq!(Span { lo: 5, hi: 9 }.with_lo(12), Span { lo: 9, hi: 12 });
}

const HERE: Span = Span { lo: 1, hi: 2 };

#[test]
fn tracker_records_each_node_once() {
    let mut t = DuplicateTracker::new();
    assert!(!t.contains(&"a".to_string()));
    t.record(HERE, "a".to_string());
    assert!(t.contains(&"a".to_string()));
    assert!(!t.contains(&"b".to_string()));
    assert!(t.try_record(HERE, "b".to_string()));
    assert!(!t.try_record(HERE, "a".to_string()));
    assert!(t.contains(&"a".to_string()));
    assert!(t.contains(&"b".to_string()));
}

#[test]
fn tracker_skips_nodes_without_a_place() {
    let mut t = DuplicateTracker::new();
    t.record(Span::dummy(), "a".to_string());
    assert!(!t.contains(&"a".to_string()));
    t.record(HERE, "a".to_string());
    t.record(Span::dummy(), "a".to_string());
    assert!(t.try_record(Span::dummy(), "a".to_string()));
    assert!(t.contains(&"a".to_string()));
}

#[test]
fn tracker_takes_over_the_records_of_another() {
    let mut t = DuplicateTracker::new();
    t.record(HERE, "a".to_string());
    let mut other = DuplicateTracker::new();
    other.record(HERE, "b".to_string());
    other.record(HERE, "c".to_string());
    t.record_all(other);
    for key in ["a", "b", "c"] {
        assert!(t.contains(&key.to_string()));
    }
    assert!(!t.contains(&"d".to_string()));

    let mut overlapping = DuplicateTracker::new();
    overlapping.record(HERE, "d".to_string());
    overlapping.record(HERE, "b".to_string());
    assert!(!t.try_record_all(overlapping));
    assert!(!t.contains(&"d".to_string()));

    let mut fresh = DuplicateTracker::new();
    fresh.record(HERE, "d".to_string());
    assert!(t.try_record_all(fresh));
    assert!(t.contains(&"d".to_string()));
    assert!(t.try_record_all(DuplicateTracker::new()));
}
