use vstd::prelude::*;

use std::sync::Arc;

use crate::channel::send_event;
use crate::checksum::{sha256_of, xor_bytes, zero_digest, Checksum};
use crate::partition::{per_thread_amount, split_spec};
use crate::text::push_str;
use crate::{Event, PipelineError};

verus! {

/// A unit of demand work: a name and the number of package events its build
/// consumes.
pub struct Idea {
    pub name: String,
    pub num_packages: usize,
}

/// The name of the idea at index `i` of the name-pair list; the index wraps
/// around once it reaches the number of pairs.
pub open spec fn idea_name_spec(pairs: Seq<(String, String)>, i: int) -> Seq<char>
    recommends
        pairs.len() > 0,
{
    pairs[i % pairs.len() as int].0@ + " for "@ + pairs[i % pairs.len() as int].1@
}

/// The accumulator obtained from `acc` by folding in the digests of the names
/// of `count` ideas generated from offset `start`.
pub open spec fn ideas_checksum_from(
    acc: Seq<u8>,
    pairs: Seq<(String, String)>,
    start: int,
    count: nat,
) -> Seq<u8>
    decreases count,
{
    if count == 0 {
        acc
    } else {
        xor_bytes(
            ideas_checksum_from(acc, pairs, start, (count - 1) as nat),
            sha256_of(idea_name_spec(pairs, start + count - 1)),
        )
    }
}

/// The checksum over the names of `count` ideas generated from offset `start`.
pub open spec fn ideas_checksum_spec(pairs: Seq<(String, String)>, start: int, count: nat) -> Seq<
    u8,
> {
    ideas_checksum_from(zero_digest(), pairs, start, count)
}

/// The digests of the names of `count` ideas generated from offset `start`,
/// in generation order.
pub open spec fn idea_digests(pairs: Seq<(String, String)>, start: int, count: nat) -> Seq<
    Seq<u8>,
> {
    Seq::new(count, |i: int| sha256_of(idea_name_spec(pairs, start + i)))
}

/// A generator's checksum is exactly the fold of the digests of the names it
/// emits, so the order-independence laws of `fold_digests` apply to it.
pub proof fn lemma_ideas_checksum_is_fold(
    acc: Seq<u8>,
    pairs: Seq<(String, String)>,
    start: int,
    count: nat,
)
    ensures
        ideas_checksum_from(acc, pairs, start, count) == crate::checksum::fold_digests(
            acc,
            idea_digests(pairs, start, count),
        ),
    decreases count,
{
    if count > 0 {
        lemma_ideas_checksum_is_fold(acc, pairs, start, (count - 1) as nat);
        assert(idea_digests(pairs, start, count).drop_last() =~= idea_digests(
            pairs,
            start,
            (count - 1) as nat,
        ));
    }
}

/// Idea names repeat with period equal to the size of the name-pair list:
/// index `i` and `i + pairs.len()` yield identical names.
pub proof fn lemma_idea_name_periodic(pairs: Seq<(String, String)>, i: int)
    requires
        pairs.len() > 0,
    ensures
        idea_name_spec(pairs, i + pairs.len()) == idea_name_spec(pairs, i),
{
    let m = pairs.len() as int;
    vstd::arithmetic::div_mod::lemma_mod_multiples_vanish(1, i, m);
}

/// Generates a contiguous slice of the idea name space, attaches each idea's
/// package requirement, emits the ideas and this thread's quota of
/// termination signals, and accumulates the idea checksum locally.
pub struct IdeaGenerator {
    ideas: Arc<Vec<(String, String)>>,
    start_i: usize,
    num_ideas: usize,
    num_students: usize,
    num_packages: usize,
    idea_send: crossbeam::channel::Sender<Event>,
    idea_checksum: Checksum,
}

impl IdeaGenerator {
    /// The shared name-pair list.
    pub closed spec fn pairs(&self) -> Seq<(String, String)> {
        self.ideas@
    }

    /// The first index of this generator's slice of the name space.
    pub closed spec fn start(&self) -> int {
        self.start_i as int
    }

    /// How many ideas this generator emits.
    pub closed spec fn count(&self) -> int {
        self.num_ideas as int
    }

    /// How many students this generator signals to stop.
    pub closed spec fn students(&self) -> int {
        self.num_students as int
    }

    /// The package budget distributed across this generator's ideas.
    pub closed spec fn package_budget(&self) -> int {
        self.num_packages as int
    }

    /// The local idea checksum accumulated so far.
    pub closed spec fn acc(&self) -> Seq<u8> {
        self.idea_checksum@
    }

    pub open spec fn wf(&self) -> bool {
        &&& self.pairs().len() > 0
        &&& self.count() >= 1
        &&& self.start() + self.count() <= usize::MAX
        &&& self.acc().len() == 32
    }

    /// A generator for `num_ideas` ideas starting at offset `start_i`, with a
    /// fresh local checksum.
    pub fn new(
        ideas: Arc<Vec<(String, String)>>,
        start_i: usize,
        num_ideas: usize,
        num_students: usize,
        num_packages: usize,
        idea_send: crossbeam::channel::Sender<Event>,
    ) -> (r: IdeaGenerator)
        requires
            num_ideas >= 1,
            ideas@.len() > 0,
            start_i + num_ideas <= usize::MAX,
        ensures
            r.wf(),
            r.pairs() == ideas@,
            r.start() == start_i as int,
            r.count() == num_ideas as int,
            r.students() == num_students as int,
            r.package_budget() == num_packages as int,
            r.acc() == zero_digest(),
    {
        IdeaGenerator {
            ideas,
            start_i,
            num_ideas,
            num_students,
            num_packages,
            idea_send,
            idea_checksum: Checksum::default(),
        }
    }

    /// Idea names are generated from the cross product of product names and
    /// customer names, formatted as "<product> for <customer>"; the index
    /// wraps around at the size of the cross product.
    fn get_next_idea_name(&self, i: usize) -> (name: String)
        requires
            self.pairs().len() > 0,
        ensures
            name@ == idea_name_spec(self.pairs(), i as int),
    {
        let pair = &self.ideas[i % self.ideas.len()];
        let mut name = pair.0.clone();
        push_str(&mut name, " for ");
        push_str(&mut name, pair.1.as_str());
        name
    }

    /// The `i`-th idea this generator emits: named after (wrapping) index
    /// `start + i`, and requiring the `i`-th share of the generator's package
    /// budget split evenly across its ideas.
    pub fn next_idea(&self, i: usize) -> (idea: Idea)
        requires
            self.wf(),
            i < self.count(),
        ensures
            idea.name@ == idea_name_spec(self.pairs(), self.start() + i),
            idea.num_packages == split_spec(self.package_budget(), self.count(), i as int),
    {
        let name = self.get_next_idea_name(self.start_i + i);
        let num_packages = per_thread_amount(i, self.num_packages, self.num_ideas);
        Idea { name, num_packages }
    }

    /// Emits this generator's ideas in generation order, then its quota of
    /// termination signals, and returns the local idea checksum.  The `i`-th
    /// emitted idea is `next_idea(i)`.  On success the returned checksum is
    /// exactly the fold of the digests of the emitted names; the only error
    /// is a torn-down channel.
    pub fn run(&mut self) -> (r: Result<Checksum, PipelineError>)
        requires
            old(self).wf(),
        ensures
            final(self).wf(),
            r matches Ok(c) ==> c@ == ideas_checksum_from(
                old(self).acc(),
                old(self).pairs(),
                old(self).start(),
                old(self).count() as nat,
            ),
            r matches Err(e) ==> e == PipelineError::ChannelClosed,
    {
        let ghost init = *self;
        let mut i: usize = 0;
        while i < self.num_ideas
            invariant
                self.wf(),
                i <= self.num_ideas,
                self.ideas == init.ideas,
                self.start_i == init.start_i,
                self.num_ideas == init.num_ideas,
                self.num_students == init.num_students,
                self.num_packages == init.num_packages,
                self.idea_checksum@ == ideas_checksum_from(
                    init.acc(),
                    init.pairs(),
                    init.start(),
                    i as nat,
                ),
            decreases self.num_ideas - i,
        {
            let idea = self.next_idea(i);
            self.idea_checksum.update(Checksum::with_sha256(idea.name.as_str()));
            match send_event(&self.idea_send, Event::NewIdea(idea)) {
                Ok(()) => {},
                Err(_) => {
                    return Err(PipelineError::ChannelClosed);
                },
            }
            i += 1;
        }
        let mut j: usize = 0;
        while j < self.num_students
            invariant
                self.wf(),
                self.idea_checksum@ == ideas_checksum_from(
                    init.acc(),
                    init.pairs(),
                    init.start(),
                    init.count() as nat,
                ),
            decreases self.num_students - j,
        {
            match send_event(&self.idea_send, Event::OutOfIdeas) {
                Ok(()) => {},
                Err(_) => {
                    return Err(PipelineError::ChannelClosed);
                },
            }
            j += 1;
        }
        Ok(self.idea_checksum.clone())
    }
}

} // verus!
