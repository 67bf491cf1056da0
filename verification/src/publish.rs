//! The publishing side: building a task envelope for a chosen kind. The
//! surrounding process serializes the envelope to its wire form and appends
//! it to the topic; which kind is drawn, and what its payload holds, is
//! decided here.

use vstd::prelude::*;

verus! {

/// A task envelope before serialization: the kind tag and the flat fields of
/// its payload document, in the order they are written out.
pub struct Envelope {
    pub kind: String,
    pub fields: Vec<(String, String)>,
}

/// The field names and values of a payload, as sequences.
pub open spec fn fields_view(fields: Seq<(String, String)>) -> Seq<(Seq<char>, Seq<char>)> {
    fields.map_values(|f: (String, String)| (f.0@, f.1@))
}

/// Relies on `rand::rng` and `rand::Rng::random_range`: an index below `n`.
/// Nothing more is promised of a random value.
#[verifier::external_body]
fn random_index(n: usize) -> (r: usize)
    requires
        n > 0,
    ensures
        r < n,
{
    rand::Rng::random_range(&mut rand::rng(), 0..n)
}

/// Draws one of the task kinds the producer emits.
pub fn pick_task_kind() -> (r: &'static str)
    ensures
        r@ == "email"@ || r@ == "sms"@ || r@ == "push"@,
{
    let i = random_index(3);
    if i == 0 {
        "email"
    } else if i == 1 {
        "sms"
    } else {
        "push"
    }
}

/// String equality by view.
pub fn str_eq(a: &str, b: &str) -> (r: bool)
    ensures
        r == (a@ == b@),
{
    let owned_a: String = a.to_owned();
    let owned_b: String = b.to_owned();
    owned_a == owned_b
}

/// The payload fields the producer sends for an email task.
pub open spec fn email_fields() -> Seq<(Seq<char>, Seq<char>)> {
    seq![("to"@, "user@example.com"@), ("subject"@, "Hello"@), ("body"@, "Hi there!"@)]
}

/// The payload fields the producer sends for an sms task.
pub open spec fn sms_fields() -> Seq<(Seq<char>, Seq<char>)> {
    seq![("to"@, "+1234567890"@), ("message"@, "Your code is 1234"@)]
}

/// The payload fields the producer sends for a push task.
pub open spec fn push_fields() -> Seq<(Seq<char>, Seq<char>)> {
    seq![("device_id"@, "abc123"@), ("message"@, "New update available!"@)]
}

/// Builds the envelope the producer publishes for a task kind: the kind tag
/// itself, with the payload fields fixed for the three known kinds and an
/// empty payload for any other.
pub fn build_envelope(kind: &str) -> (e: Envelope)
    ensures
        e.kind@ == kind@,
        kind@ == "email"@ ==> fields_view(e.fields@) == email_fields(),
        kind@ == "sms"@ ==> fields_view(e.fields@) == sms_fields(),
        kind@ == "push"@ ==> fields_view(e.fields@) == push_fields(),
        (kind@ != "email"@ && kind@ != "sms"@ && kind@ != "push"@) ==> fields_view(e.fields@)
            == Seq::<(Seq<char>, Seq<char>)>::empty(),
{
    proof {
        reveal_strlit("email");
        reveal_strlit("sms");
        reveal_strlit("push");
        assert("email"@.len() == 5 && "sms"@.len() == 3 && "push"@.len() == 4);
        assert("email"@ != "sms"@ && "email"@ != "push"@ && "sms"@ != "push"@);
    }
    let mut fields: Vec<(String, String)> = Vec::new();
    if str_eq(kind, "email") {
        fields.push(("to".to_owned(), "user@example.com".to_owned()));
        fields.push(("subject".to_owned(), "Hello".to_owned()));
        fields.push(("body".to_owned(), "Hi there!".to_owned()));
        proof {
            assert(fields_view(fields@) =~= email_fields());
        }
    } else if str_eq(kind, "sms") {
        fields.push(("to".to_owned(), "+1234567890".to_owned()));
        fields.push(("message".to_owned(), "Your code is 1234".to_owned()));
        proof {
            assert(fields_view(fields@) =~= sms_fields());
        }
    } else if str_eq(kind, "push") {
        fields.push(("device_id".to_owned(), "abc123".to_owned()));
        fields.push(("message".to_owned(), "New update available!".to_owned()));
        proof {
            assert(fields_view(fields@) =~= push_fields());
        }
    } else {
        proof {
            assert(fields_view(fields@) =~= Seq::<(Seq<char>, Seq<char>)>::empty());
        }
    }
    Envelope { kind: kind.to_owned(), fields }
}

} // verus!
