use treehouse::normalize::normalize_input;
use treehouse::registry::Outcome;
use treehouse::registry::Registry;
use treehouse::registry::Visitor;
use treehouse::session::run_session;

fn seeded() -> Registry {
    Registry::seeded()
}

#[test]
fn seeded_names_are_lowercased() {
    let reg = seeded();
    assert_eq!(reg.len(), 3);
    assert_eq!(reg.visitor_at(0).name(), "ifan");
    assert_eq!(reg.visitor_at(1).name(), "dafydd");
    assert_eq!(reg.visitor_at(2).name(), "johnston");
}

#[test]
fn visitor_new_lowercases_name_and_keeps_greeting() {
    let v = Visitor::new("IFAN", "Hello ifan, der mewn.");
    assert_eq!(v.name(), "ifan");
    assert_eq!(v.greeting(), "Hello ifan, der mewn.");
}

#[test]
fn seeded_visitor_any_case_and_whitespace_is_greeted() {
    let mut reg = seeded();
    for raw in ["ifan", "IFAN", "  Ifan  ", "\tiFaN\n"] {
        let name = normalize_input(raw);
        match reg.step(&name) {
            Outcome::Greeted(line) => assert_eq!(line, "Hello ifan, der mewn."),
            _ => panic!("a seeded visitor must be greeted"),
        }
        assert_eq!(reg.len(), 3);
    }
}

#[test]
fn each_seeded_visitor_gets_its_own_greeting() {
    let mut reg = seeded();
    let expected = [
        ("Dafydd", "Hi pony, the trombone is in the corner"),
        ("JOHNSTON", "Hi Johnny, the pumpkin pie is on the tabble"),
    ];
    for (raw, greeting) in expected {
        let name = normalize_input(raw);
        match reg.step(&name) {
            Outcome::Greeted(line) => assert_eq!(line, greeting),
            _ => panic!("a seeded visitor must be greeted"),
        }
    }
}

#[test]
fn unknown_name_is_registered_once() {
    let mut reg = seeded();
    let name = normalize_input("  Alice \n");
    match reg.step(&name) {
        Outcome::Registered(notice) => {
            assert_eq!(notice, "alice is not on the visitor list.");
        },
        _ => panic!("an unknown non-empty name must be registered"),
    }
    assert_eq!(reg.len(), 4);
    assert_eq!(reg.visitor_at(3).name(), "alice");
    assert_eq!(reg.visitor_at(3).greeting(), "New friend.");
}

#[test]
fn same_new_name_twice_registers_then_greets() {
    let mut reg = seeded();
    let name = normalize_input("Bert");
    assert!(matches!(reg.step(&name), Outcome::Registered(_)));
    assert_eq!(reg.len(), 4);
    match reg.step(&name) {
        Outcome::Greeted(line) => assert_eq!(line, "New friend."),
        _ => panic!("the second supply of the same name must be greeted"),
    }
    assert_eq!(reg.len(), 4, "no second record may be appended");
}

#[test]
fn empty_input_quits_without_change() {
    let mut reg = seeded();
    let name = normalize_input("");
    assert!(matches!(reg.step(&name), Outcome::Quit));
    assert_eq!(reg.len(), 3);
}

#[test]
fn all_whitespace_input_quits_without_change() {
    let mut reg = seeded();
    let name = normalize_input(" \t  \n");
    assert_eq!(name, "");
    assert!(matches!(reg.step(&name), Outcome::Quit));
    assert_eq!(reg.len(), 3);
}

#[test]
fn greet_is_idempotent() {
    let reg = seeded();
    let first = reg.visitor_at(0).greet();
    let second = reg.visitor_at(0).greet();
    assert_eq!(first, second);
    assert_eq!(first, "Hello ifan, der mewn.");
}

#[test]
fn report_lists_every_visitor_in_order() {
    let reg = seeded();
    let lines = reg.report();
    assert_eq!(
        lines,
        vec![
            "Final list of visitors:",
            "name: ifan, greeting: Hello ifan, der mewn.",
            "name: dafydd, greeting: Hi pony, the trombone is in the corner",
            "name: johnston, greeting: Hi Johnny, the pumpkin pie is on the tabble",
        ]
    );
}

#[test]
fn session_with_known_name_then_quit() {
    let mut reg = seeded();
    let inputs = vec!["Ifan".to_string(), "".to_string()];
    let lines = run_session(&mut reg, &inputs);
    assert_eq!(lines, vec!["Hello ifan, der mewn."]);
    let report = reg.report();
    assert_eq!(report.len(), 4, "the final dump lists exactly the 3 seeded visitors");
    assert_eq!(report[0], "Final list of visitors:");
    assert_eq!(report[1], "name: ifan, greeting: Hello ifan, der mewn.");
    assert_eq!(report[2], "name: dafydd, greeting: Hi pony, the trombone is in the corner");
    assert_eq!(report[3], "name: johnston, greeting: Hi Johnny, the pumpkin pie is on the tabble");
}

#[test]
fn session_with_new_name_then_quit() {
    let mut reg = seeded();
    let inputs = vec!["Alice".to_string(), "".to_string()];
    let lines = run_session(&mut reg, &inputs);
    assert_eq!(lines, vec!["alice is not on the visitor list."]);
    assert_eq!(reg.len(), 4);
    assert_eq!(reg.visitor_at(3).name(), "alice");
    assert_eq!(reg.visitor_at(3).greeting(), "New friend.");
    let report = reg.report();
    assert_eq!(report.len(), 5);
    assert_eq!(report[4], "name: alice, greeting: New friend.");
}

#[test]
fn session_stops_at_quit_sentinel() {
    let mut reg = seeded();
    let inputs = vec!["  ".to_string(), "Ifan".to_string()];
    let lines = run_session(&mut reg, &inputs);
    assert!(lines.is_empty(), "nothing after the sentinel is processed");
    assert_eq!(reg.len(), 3);
}

#[test]
fn find_returns_first_match() {
    let mut reg = Registry::new();
    reg.add(Visitor::new("carol", "first"));
    reg.add(Visitor::new("carol", "second"));
    let idx = reg.find(&"carol".to_string());
    assert_eq!(idx, Some(0));
    match reg.step(&"carol".to_string()) {
        Outcome::Greeted(line) => assert_eq!(line, "first"),
        _ => panic!("a matching name must be greeted"),
    }
}

#[test]
fn empty_registry_registers_then_remembers() {
    let mut reg = Registry::new();
    assert_eq!(reg.len(), 0);
    assert_eq!(reg.find(&"dora".to_string()), None);
    assert!(matches!(reg.step(&"dora".to_string()), Outcome::Registered(_)));
    assert_eq!(reg.find(&"dora".to_string()), Some(0));
}
