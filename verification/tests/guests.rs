use flappy::guest::find_visitor;
use flappy::guest::normalize_name;
use flappy::guest::Visitor;
use flappy::guest::VisitorAction;

#[test]
fn visitor_names_are_stored_lowercased() {
    let v = Visitor::new("Shawn", "Hello Shawn, enjoy your treehouse!", VisitorAction::Accept, 32);
    assert_eq!(v.name, "shawn");
    assert_eq!(v.greeting, "Hello Shawn, enjoy your treehouse!");
    assert_eq!(v.age, 32);
}

#[test]
fn normalize_name_trims_and_lowercases() {
    assert_eq!(normalize_name("  BERT \n"), "bert");
    assert_eq!(normalize_name("Tom"), "tom");
    assert_eq!(normalize_name(""), "");
}

#[test]
fn find_visitor_matches_normalized_names() {
    let list = vec![
        Visitor::new("Shawn", "Hello Shawn, enjoy your treehouse!", VisitorAction::Accept, 32),
        Visitor::new(
            "Bert",
            "Hey Bert, I like your stand up.",
            VisitorAction::AcceptWithNote { note: String::from("Severe alcoholic") },
            40,
        ),
        Visitor::new("Tom", "Tom, get out.", VisitorAction::Refuse, 40),
    ];
    assert_eq!(find_visitor(&list, &normalize_name(" Bert ")), Some(1));
    assert_eq!(find_visitor(&list, &normalize_name("TOM")), Some(2));
    assert_eq!(find_visitor(&list, &String::from("fred")), None);
}

#[test]
fn alcohol_warning_only_for_noted_minors() {
    let noted_minor = Visitor::new(
        "Kid",
        "hi",
        VisitorAction::AcceptWithNote { note: String::from("note") },
        20,
    );
    assert!(noted_minor.needs_alcohol_warning());
    let noted_adult = Visitor::new(
        "Bert",
        "hi",
        VisitorAction::AcceptWithNote { note: String::from("note") },
        40,
    );
    assert!(!noted_adult.needs_alcohol_warning());
    let plain_minor = Visitor::new("Sam", "hi", VisitorAction::Accept, 12);
    assert!(!plain_minor.needs_alcohol_warning());
    let probation = Visitor::new("Pat", "hi", VisitorAction::Probation, 18);
    assert!(!probation.needs_alcohol_warning());
}
