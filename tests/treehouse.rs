use arcade::treehouse::{arrive, find_visitor, normalize_name, Arrival, Greeting, Visitor, VisitorAction};

fn roster() -> Vec<Visitor> {
    vec![
        Visitor::new("bert", VisitorAction::Accept, 45),
        Visitor::new("steve", VisitorAction::AcceptWithNote { note: String::from("Juice in the fridge!") }, 11),
        Visitor::new("fred", VisitorAction::Refuse, 30),
    ]
}

#[test]
fn new_visitor_name_is_lowercased() {
    let v = Visitor::new("BeRT", VisitorAction::Accept, 45);
    assert_eq!(v.name, "bert");
    assert_eq!(v.age, 45);
}

#[test]
fn names_are_trimmed_and_lowercased() {
    assert_eq!(normalize_name("  Steve \n"), "steve");
    assert_eq!(normalize_name("\n"), "");
}

#[test]
fn greetings_follow_standing() {
    let list = roster();
    assert!(matches!(list[0].greet_visitor(), Greeting::Welcome));
    match list[1].greet_visitor() {
        Greeting::WelcomeWithNote { note, underage } => {
            assert_eq!(note, "Juice in the fridge!");
            assert!(underage);
        }
        other => panic!("unexpected greeting {:?}", other),
    }
    assert!(matches!(list[2].greet_visitor(), Greeting::Refused));
    let adult = Visitor::new("ann", VisitorAction::AcceptWithNote { note: String::from("hi") }, 21);
    assert!(matches!(adult.greet_visitor(), Greeting::WelcomeWithNote { underage: false, .. }));
}

#[test]
fn finds_first_match() {
    let mut list = roster();
    list.push(Visitor::new("fred", VisitorAction::Accept, 1));
    assert_eq!(find_visitor(&list, &String::from("fred")), Some(2));
    assert_eq!(find_visitor(&list, &String::from("zed")), None);
}

#[test]
fn unknown_name_joins_on_probation() {
    let mut list = roster();
    let r = arrive(&mut list, &String::from("maria"));
    assert!(matches!(r, Arrival::Listed));
    assert_eq!(list.len(), 4);
    assert_eq!(list[3].name, "maria");
    assert!(matches!(list[3].action, VisitorAction::Probation));
    let again = arrive(&mut list, &String::from("maria"));
    assert!(matches!(again, Arrival::Known { index: 3, greeting: Greeting::Probation }));
    assert_eq!(list.len(), 4);
}

#[test]
fn empty_name_closes_door() {
    let mut list = roster();
    assert!(matches!(arrive(&mut list, &String::new()), Arrival::Done));
    assert_eq!(list.len(), 3);
}
