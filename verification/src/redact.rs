//! Redaction of the social security numbers in a list of people, as the
//! proxy in front of the example origin's `/people.json` does it.
use vstd::prelude::*;

verus! {

/// One person of the `/people.json` list.
pub struct Person {
    pub firstname: String,
    pub lastname: String,
    pub city: String,
    pub ssn: String,
}

/// What stands in place of a redacted number.
pub open spec fn redacted() -> Seq<char> {
    "REDACTED"@
}

/// `after` is `before` with the social security number redacted.
pub open spec fn is_redaction_of(after: Person, before: Person) -> bool {
    &&& after.firstname@ == before.firstname@
    &&& after.lastname@ == before.lastname@
    &&& after.city@ == before.city@
    &&& after.ssn@ == redacted()
}

/// Replaces every person's social security number with `REDACTED`,
/// keeping the people, their order and their other fields.
pub fn redact_ssns(people: &mut Vec<Person>)
    ensures
        final(people)@.len() == old(people)@.len(),
        forall|i: int|
            0 <= i < old(people)@.len() ==> is_redaction_of(
                #[trigger] final(people)@[i],
                old(people)@[i],
            ),
{
    let ghost before = people@;
    let mut i: usize = 0;
    while i < people.len()
        invariant
            i <= people.len(),
            people@.len() == before.len(),
            forall|j: int| 0 <= j < i ==> is_redaction_of(#[trigger] people@[j], before[j]),
            forall|j: int| i <= j < people@.len() ==> #[trigger] people@[j] == before[j],
        decreases people.len() - i,
    {
        people[i].ssn = "REDACTED".to_owned();
        i += 1;
    }
}

} // verus!
