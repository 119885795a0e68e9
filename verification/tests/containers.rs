use snippets::associated_types;
use snippets::explicit_generics;

#[test]
fn explicit_scenario() {
    let number_1 = 3;
    let number_2 = 10;
    let container = explicit_generics::Container(number_1, number_2);
    assert!(explicit_generics::Contains::contains(
        &container, &number_1, &number_2
    ));
    assert_eq!(3, explicit_generics::Contains::first(&container));
    assert_eq!(10, explicit_generics::Contains::last(&container));
    assert_eq!(7, explicit_generics::difference(&container));
}

#[test]
fn explicit_scenario_swapped_probes() {
    let container = explicit_generics::Container(3, 10);
    assert!(!explicit_generics::Contains::contains(&container, &10, &3));
}

#[test]
fn associated_scenario() {
    let number_1 = 3;
    let number_2 = 10;
    let container = associated_types::Container(number_1, number_2);
    assert!(associated_types::Contains::contains(
        &container, &number_1, &number_2
    ));
    assert_eq!(3, associated_types::Contains::first(&container));
    assert_eq!(10, associated_types::Contains::last(&container));
    assert_eq!(7, associated_types::difference(&container));
}

#[test]
fn associated_scenario_swapped_probes() {
    let container = associated_types::Container(3, 10);
    assert!(!associated_types::Contains::contains(&container, &10, &3));
}

#[test]
fn construction_returns_the_pair() {
    for (a, b) in [(0, 0), (-5, 12), (i32::MIN, i32::MAX), (42, -42)] {
        let e = explicit_generics::Container(a, b);
        assert_eq!(a, explicit_generics::Contains::first(&e));
        assert_eq!(b, explicit_generics::Contains::last(&e));
        let s = associated_types::Container(a, b);
        assert_eq!(a, associated_types::Contains::first(&s));
        assert_eq!(b, associated_types::Contains::last(&s));
    }
}

#[test]
fn membership_probe_shifted() {
    for (a, b) in [(0, 0), (-5, 12), (100, 100)] {
        let e = explicit_generics::Container(a, b);
        assert!(explicit_generics::Contains::contains(&e, &a, &b));
        assert!(!explicit_generics::Contains::contains(&e, &(a + 1), &b));
    }
}

#[test]
fn difference_is_last_minus_first() {
    for (a, b) in [(0, 0), (-5, 12), (10, 3), (-100, -3)] {
        let e = explicit_generics::Container(a, b);
        assert_eq!(b - a, explicit_generics::difference(&e));
        let s = associated_types::Container(a, b);
        assert_eq!(b - a, associated_types::difference(&s));
    }
}

#[test]
fn encodings_agree() {
    for (a, b) in [(3, 10), (-7, 2), (0, 0), (50, -50)] {
        let e = explicit_generics::Container(a, b);
        let s = associated_types::Container(a, b);
        assert_eq!(
            explicit_generics::Contains::first(&e),
            associated_types::Contains::first(&s)
        );
        assert_eq!(
            explicit_generics::Contains::last(&e),
            associated_types::Contains::last(&s)
        );
        for (x, y) in [(a, b), (b, a), (a + 1, b), (0, 0)] {
            assert_eq!(
                explicit_generics::Contains::contains(&e, &x, &y),
                associated_types::Contains::contains(&s, &x, &y)
            );
        }
        assert_eq!(
            explicit_generics::difference(&e),
            associated_types::difference(&s)
        );
    }
}
