//! The handler registry: a mapping from task-kind strings to handlers,
//! fixed at process startup. Resolution is first-match over the entries.

use vstd::prelude::*;

verus! {

/// The handler families a process can register. The work a handler performs
/// is an opaque side effect of the surrounding process; the library only
/// routes to it.
#[derive(Clone, Copy, Debug, PartialEq, Eq, Structural)]
pub enum HandlerKind {
    Email,
    Sms,
    Push,
}

/// First-match lookup of `kind` among `entries`.
pub open spec fn lookup(entries: Seq<(Seq<char>, HandlerKind)>, kind: Seq<char>) -> Option<
    HandlerKind,
>
    decreases entries.len(),
{
    if entries.len() == 0 {
        None
    } else if entries[0].0 == kind {
        Some(entries[0].1)
    } else {
        lookup(entries.drop_first(), kind)
    }
}

/// Maps task-kind strings to handlers. Built once at startup; read-only
/// afterwards, so the consumer loop needs no locking around it.
pub struct HandlerRegistry {
    entries: Vec<(String, HandlerKind)>,
}

impl View for HandlerRegistry {
    type V = Seq<(Seq<char>, HandlerKind)>;

    closed spec fn view(&self) -> Seq<(Seq<char>, HandlerKind)> {
        self.entries@.map_values(|e: (String, HandlerKind)| (e.0@, e.1))
    }
}

impl HandlerRegistry {
    /// A registry with no entries.
    pub fn new() -> (r: HandlerRegistry)
        ensures
            r@ == Seq::<(Seq<char>, HandlerKind)>::empty(),
    {
        let r = HandlerRegistry { entries: Vec::new() };
        proof {
            assert(r@ =~= Seq::<(Seq<char>, HandlerKind)>::empty());
        }
        r
    }

    /// Appends one entry. A kind registered earlier shadows a later one,
    /// since resolution is first-match.
    pub fn register(&mut self, kind: String, handler: HandlerKind)
        ensures
            final(self)@ == old(self)@.push((kind@, handler)),
    {
        let ghost prior = self@;
        let ghost k = kind@;
        self.entries.push((kind, handler));
        proof {
            assert(self@ =~= prior.push((k, handler)));
        }
    }

    /// The number of entries.
    pub fn len(&self) -> (n: usize)
        ensures
            n == self@.len(),
    {
        self.entries.len()
    }

    /// Resolves a task kind to its handler: `Some` exactly when the kind is
    /// registered, and then the handler of its first entry.
    pub fn resolve(&self, kind: &str) -> (r: Option<HandlerKind>)
        ensures
            r == lookup(self@, kind@),
    {
        let wanted: String = kind.to_owned();
        let n = self.entries.len();
        let mut i: usize = 0;
        proof {
            assert(self@.skip(0) =~= self@);
        }
        while i < n
            invariant
                n == self@.len(),
                i <= n,
                wanted@ == kind@,
                lookup(self@, kind@) == lookup(self@.skip(i as int), kind@),
            decreases n - i,
        {
            proof {
                assert(self@.skip(i as int)[0] == self@[i as int]);
            }
            if self.entries[i].0 == wanted {
                return Some(self.entries[i].1);
            }
            proof {
                assert(self@.skip(i as int).drop_first() =~= self@.skip(i as int + 1));
            }
            i = i + 1;
        }
        proof {
            assert(self@.skip(n as int) =~= Seq::<(Seq<char>, HandlerKind)>::empty());
        }
        None
    }
}

/// The registry a process starts with: email, sms and push task handlers.
pub fn default_registry() -> (r: HandlerRegistry)
    ensures
        r@ == seq![
            ("email"@, HandlerKind::Email),
            ("sms"@, HandlerKind::Sms),
            ("push"@, HandlerKind::Push),
        ],
{
    let mut r = HandlerRegistry::new();
    r.register(String::from_str("email"), HandlerKind::Email);
    r.register(String::from_str("sms"), HandlerKind::Sms);
    r.register(String::from_str("push"), HandlerKind::Push);
    proof {
        assert(r@ =~= seq![
            ("email"@, HandlerKind::Email),
            ("sms"@, HandlerKind::Sms),
            ("push"@, HandlerKind::Push),
        ]);
    }
    r
}

} // verus!
