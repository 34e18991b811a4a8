use vstd::prelude::*;

pub mod channel;
pub mod checksum;
pub mod idea;
pub mod package;
pub mod partition;
pub mod student;
pub mod text;

verus! {

/// The tagged message placed on the shared event channel.
pub enum Event {
    /// A newly generated idea for students to work on.
    NewIdea(crate::idea::Idea),
    /// A termination signal: the student that dequeues it stops.
    OutOfIdeas,
    /// A package that students can take to work on their ideas.
    DownloadComplete(crate::package::Package),
}

/// Why a run aborted; the protocol has no recoverable fault.
#[derive(Clone, Copy, PartialEq, Eq, Structural, Debug)]
pub enum PipelineError {
    /// A channel endpoint was torn down while a peer was still active.
    ChannelClosed,
    /// A consumer observed an event that the protocol does not allow in its
    /// current state.
    ProtocolViolation,
}

/// The cross product of product names and customer names, in product-major
/// order: the idea name space shared by all idea generators.
pub fn read_ideas(products: &Vec<String>, customers: &Vec<String>) -> (ideas: Vec<
    (String, String),
>)
    requires
        products@.len() * customers@.len() <= usize::MAX,
    ensures
        ideas@.len() == products@.len() * customers@.len(),
        forall|k: int|
            0 <= k < ideas@.len() ==> (#[trigger] ideas@[k]).0@ == products@[k / customers@.len() as int]@
                && ideas@[k].1@ == customers@[k % customers@.len() as int]@,
{
    let mut ideas: Vec<(String, String)> = Vec::new();
    let mut i: usize = 0;
    while i < products.len()
        invariant
            products@.len() * customers@.len() <= usize::MAX,
            i <= products@.len(),
            ideas@.len() == i * customers@.len(),
            forall|k: int|
                0 <= k < ideas@.len() ==> (#[trigger] ideas@[k]).0@ == products@[k
                    / customers@.len() as int]@ && ideas@[k].1@ == customers@[k
                    % customers@.len() as int]@,
        decreases products@.len() - i,
    {
        let mut j: usize = 0;
        proof {
            vstd::arithmetic::mul::lemma_mul_inequality(
                i as int + 1,
                products@.len() as int,
                customers@.len() as int,
            );
            assert((i + 1) * customers@.len() == i * customers@.len() + customers@.len())
                by (nonlinear_arith);
        }
        while j < customers.len()
            invariant
                i < products@.len(),
                j <= customers@.len(),
                i * customers@.len() + customers@.len() <= usize::MAX,
                ideas@.len() == i * customers@.len() + j,
                forall|k: int|
                    0 <= k < ideas@.len() ==> (#[trigger] ideas@[k]).0@ == products@[k
                        / customers@.len() as int]@ && ideas@[k].1@ == customers@[k
                        % customers@.len() as int]@,
            decreases customers@.len() - j,
        {
            let pair = (products[i].clone(), customers[j].clone());
            proof {
                vstd::arithmetic::div_mod::lemma_fundamental_div_mod_converse(
                    ideas@.len() as int,
                    customers@.len() as int,
                    i as int,
                    j as int,
                );
            }
            ideas.push(pair);
            j += 1;
        }
        i += 1;
    }
    ideas
}

} // verus!
