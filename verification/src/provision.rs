//! Topic provisioning: the idempotent ensure-topic-exists decision. The
//! broker's admin interface answers a create-topic request with "created",
//! "already exists" or an error; provisioning treats "already exists" exactly
//! like success, and surfaces every other error as fatal.

use vstd::prelude::*;

verus! {

/// What the broker reported for one create-topic request, as plain data.
#[derive(Debug, Clone, PartialEq, Eq)]
pub enum CreateOutcome {
    /// The topic was created with the requested settings.
    Created,
    /// The topic was already present; the request changed nothing.
    AlreadyExists,
    /// Any other failure, with the broker's description.
    Failed(String),
}

/// The result of provisioning, as the caller sees it.
#[derive(Debug, Clone, PartialEq, Eq)]
pub enum ProvisionStatus {
    /// The topic did not exist and was created.
    CreatedFresh,
    /// The topic was already present: idempotent success, never an error.
    AlreadyPresent,
    /// A fatal provisioning failure; setup must not continue.
    Fatal(String),
}

/// The provisioning status, with the failure text as a sequence.
pub enum StatusModel {
    CreatedFresh,
    AlreadyPresent,
    Fatal(Seq<char>),
}

impl View for ProvisionStatus {
    type V = StatusModel;

    closed spec fn view(&self) -> StatusModel {
        match self {
            ProvisionStatus::CreatedFresh => StatusModel::CreatedFresh,
            ProvisionStatus::AlreadyPresent => StatusModel::AlreadyPresent,
            ProvisionStatus::Fatal(e) => StatusModel::Fatal(e@),
        }
    }
}

/// Interprets the broker's answer to a create-topic request: creation and
/// "already exists" are both success, and only they; anything else is fatal.
pub fn interpret_create_outcome(outcome: CreateOutcome) -> (r: ProvisionStatus)
    ensures
        (outcome is Created) <==> (r@ is CreatedFresh),
        (outcome is AlreadyExists) <==> (r@ is AlreadyPresent),
        outcome matches CreateOutcome::Failed(e) ==> r@ == StatusModel::Fatal(e@),
{
    match outcome {
        CreateOutcome::Created => ProvisionStatus::CreatedFresh,
        CreateOutcome::AlreadyExists => ProvisionStatus::AlreadyPresent,
        CreateOutcome::Failed(e) => ProvisionStatus::Fatal(e),
    }
}

/// First-match lookup of a topic's partition count in a directory listing.
pub open spec fn topic_partitions(topics: Seq<(Seq<char>, u32)>, name: Seq<char>) -> Option<u32>
    decreases topics.len(),
{
    if topics.len() == 0 {
        None
    } else if topics[0].0 == name {
        Some(topics[0].1)
    } else {
        topic_partitions(topics.drop_first(), name)
    }
}

/// What one create-topic request does to a directory: an existing topic is
/// left untouched and reported as already present; an absent one is added
/// with the requested partition count.
pub open spec fn create_model(topics: Seq<(Seq<char>, u32)>, name: Seq<char>, partitions: u32) -> (
    Seq<(Seq<char>, u32)>,
    StatusModel,
) {
    if topic_partitions(topics, name) is Some {
        (topics, StatusModel::AlreadyPresent)
    } else {
        (topics.push((name, partitions)), StatusModel::CreatedFresh)
    }
}

/// A directory of the broker's topics with their partition counts: the model
/// of the admin interface that provisioning decides against.
pub struct TopicDirectory {
    topics: Vec<(String, u32)>,
}

impl View for TopicDirectory {
    type V = Seq<(Seq<char>, u32)>;

    closed spec fn view(&self) -> Seq<(Seq<char>, u32)> {
        self.topics@.map_values(|t: (String, u32)| (t.0@, t.1))
    }
}

impl TopicDirectory {
    /// An empty directory.
    pub fn new() -> (r: TopicDirectory)
        ensures
            r@ == Seq::<(Seq<char>, u32)>::empty(),
    {
        let r = TopicDirectory { topics: Vec::new() };
        proof {
            assert(r@ =~= Seq::<(Seq<char>, u32)>::empty());
        }
        r
    }

    /// Whether the directory lists a topic of this name.
    pub fn contains(&self, name: &str) -> (r: bool)
        ensures
            r == (topic_partitions(self@, name@) is Some),
    {
        self.partitions_of(name).is_some()
    }

    /// The partition count of a listed topic.
    pub fn partitions_of(&self, name: &str) -> (r: Option<u32>)
        ensures
            r == topic_partitions(self@, name@),
    {
        let wanted: String = name.to_owned();
        let n = self.topics.len();
        let mut i: usize = 0;
        proof {
            assert(self@.skip(0) =~= self@);
        }
        while i < n
            invariant
                n == self@.len(),
                i <= n,
                wanted@ == name@,
                topic_partitions(self@, name@) == topic_partitions(self@.skip(i as int), name@),
            decreases n - i,
        {
            proof {
                assert(self@.skip(i as int)[0] == self@[i as int]);
            }
            if self.topics[i].0 == wanted {
                return Some(self.topics[i].1);
            }
            proof {
                assert(self@.skip(i as int).drop_first() =~= self@.skip(i as int + 1));
            }
            i = i + 1;
        }
        proof {
            assert(self@.skip(n as int) =~= Seq::<(Seq<char>, u32)>::empty());
        }
        None
    }

    /// One create-topic request, with the broker's semantics: an existing
    /// topic is reported as already present and left unchanged; an absent one
    /// is added with the requested partition count.
    pub fn create_topic(&mut self, name: &str, partitions: u32) -> (r: CreateOutcome)
        ensures
            topic_partitions(old(self)@, name@) is Some ==> r is AlreadyExists && final(self)@
                == old(self)@,
            topic_partitions(old(self)@, name@) is None ==> r is Created && final(self)@ == old(
                self,
            )@.push((name@, partitions)),
    {
        let ghost prior = self@;
        if self.contains(name) {
            CreateOutcome::AlreadyExists
        } else {
            self.topics.push((name.to_owned(), partitions));
            proof {
                assert(self@ =~= prior.push((name@, partitions)));
            }
            CreateOutcome::Created
        }
    }
}

/// Ensures a topic exists: requests its creation and treats "already exists"
/// as success. After the call the topic is listed, with the requested
/// partition count if it was absent before; the status is never fatal.
pub fn ensure_topic(directory: &mut TopicDirectory, name: &str, partitions: u32) -> (r:
    ProvisionStatus)
    ensures
        (final(directory)@, r@) == create_model(old(directory)@, name@, partitions),
        !(r@ is Fatal),
        topic_partitions(final(directory)@, name@) is Some,
        topic_partitions(old(directory)@, name@) is None ==> topic_partitions(
            final(directory)@,
            name@,
        ) == Some(partitions),
{
    let ghost prior = directory@;
    let outcome = directory.create_topic(name, partitions);
    let status = interpret_create_outcome(outcome);
    proof {
        if topic_partitions(prior, name@) is None {
            lemma_partitions_after_push(prior, name@, partitions);
        }
    }
    status
}

/// After adding an absent topic, the directory lists it with the added count.
proof fn lemma_partitions_after_push(topics: Seq<(Seq<char>, u32)>, name: Seq<char>, partitions: u32)
    requires
        topic_partitions(topics, name) is None,
    ensures
        topic_partitions(topics.push((name, partitions)), name) == Some(partitions),
    decreases topics.len(),
{
    if topics.len() == 0 {
        assert(topics.push((name, partitions))[0] == (name, partitions));
    } else {
        assert(topics.push((name, partitions)).drop_first() =~= topics.drop_first().push(
            (name, partitions),
        ));
        lemma_partitions_after_push(topics.drop_first(), name, partitions);
    }
}

/// Idempotent provisioning: ensuring a topic twice never errors the second
/// time — the repeat is answered "already present" and changes nothing — and
/// both calls leave the topic listed, with the originally requested partition
/// count when the topic was absent at the start.
pub proof fn lemma_ensure_topic_idempotent(
    topics: Seq<(Seq<char>, u32)>,
    name: Seq<char>,
    partitions: u32,
)
    ensures
        ({
            let (once, first) = create_model(topics, name, partitions);
            let (twice, second) = create_model(once, name, partitions);
            &&& !(first is Fatal)
            &&& !(second is Fatal)
            &&& second is AlreadyPresent
            &&& twice == once
            &&& topic_partitions(twice, name) is Some
            &&& (topic_partitions(topics, name) is None ==> topic_partitions(twice, name)
                == Some(partitions))
        }),
{
    if topic_partitions(topics, name) is None {
        lemma_partitions_after_push(topics, name, partitions);
    }
}

/// Whether `name` stands among the topic names of a metadata listing.
pub fn topic_listed(names: &Vec<String>, name: &str) -> (r: bool)
    ensures
        r == (exists|i: int| 0 <= i < names@.len() && names@[i]@ == name@),
{
    let wanted: String = name.to_owned();
    let n = names.len();
    let mut i: usize = 0;
    while i < n
        invariant
            n == names@.len(),
            i <= n,
            wanted@ == name@,
            forall|j: int| 0 <= j < i ==> names@[j]@ != name@,
        decreases n - i,
    {
        if names[i] == wanted {
            return true;
        }
        i = i + 1;
    }
    false
}

} // verus!
