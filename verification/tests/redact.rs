use f5_programmability::redact::{redact_ssns, Person};

fn person(f: &str, l: &str, c: &str, s: &str) -> Person {
    Person { firstname: f.to_owned(), lastname: l.to_owned(), city: c.to_owned(), ssn: s.to_owned() }
}

#[test]
fn ssns_are_redacted_and_nothing_else_changes() {
    let mut people = vec![
        person("Pat", "Hickey", "Portland", "234-56-7890"),
        person("Chris", "Fallin", "Sunnyvale", "123-45-6789"),
        person("Nick", "Fitzgerald", "Portland", "987-65-4321"),
    ];
    redact_ssns(&mut people);
    assert_eq!(people.len(), 3);
    let expected = [("Pat", "Hickey", "Portland"), ("Chris", "Fallin", "Sunnyvale"), ("Nick", "Fitzgerald", "Portland")];
    for (p, (f, l, c)) in people.iter().zip(expected) {
        assert_eq!(p.firstname, f);
        assert_eq!(p.lastname, l);
        assert_eq!(p.city, c);
        assert_eq!(p.ssn, "REDACTED");
    }
}

#[test]
fn empty_list_stays_empty() {
    let mut people: Vec<Person> = Vec::new();
    redact_ssns(&mut people);
    assert!(people.is_empty());
}
