use vstd::prelude::*;

use crate::checksum::{hex_of, sha256_of, xor_bytes, zero_digest, Checksum};
use crate::idea::Idea;
use crate::package::Package;
use crate::text::{dec_of, push_dec, push_str};
use crate::{Event, PipelineError};

verus! {

/// The accumulator obtained from `acc` by folding in the digests of the names
/// of the given packages, in order.
pub open spec fn packages_fold(acc: Seq<u8>, packages: Seq<Package>) -> Seq<u8>
    decreases packages.len(),
{
    if packages.len() == 0 {
        acc
    } else {
        xor_bytes(packages_fold(acc, packages.drop_last()), sha256_of(packages.last().name@))
    }
}

/// The digests of the names of the given packages, in order.
pub open spec fn consumed_package_digests(packages: Seq<Package>) -> Seq<Seq<u8>> {
    packages.map_values(|p: Package| sha256_of(p.name@))
}

/// A build's package accumulation is exactly the fold of the digests of the
/// consumed package names, so the order-independence laws of `fold_digests`
/// apply to it.
pub proof fn lemma_packages_fold_is_fold(acc: Seq<u8>, packages: Seq<Package>)
    ensures
        packages_fold(acc, packages) == crate::checksum::fold_digests(
            acc,
            consumed_package_digests(packages),
        ),
    decreases packages.len(),
{
    if packages.len() > 0 {
        lemma_packages_fold_is_fold(acc, packages.drop_last());
        assert(consumed_package_digests(packages).drop_last() =~= consumed_package_digests(
            packages.drop_last(),
        ));
    }
}

/// One log line per package used in a build.
pub open spec fn package_lines_spec(packages: Seq<Package>) -> Seq<char>
    decreases packages.len(),
{
    if packages.len() == 0 {
        Seq::empty()
    } else {
        package_lines_spec(packages.drop_last()) + "> "@ + packages.last().name@ + "\n"@
    }
}

/// The human-readable record appended to a student's log after one build,
/// where `idea_acc` and `pkg_acc` are the accumulators after the build.
pub open spec fn build_record_spec(
    ident: nat,
    name: Seq<char>,
    packages: Seq<Package>,
    idea_acc: Seq<u8>,
    pkg_acc: Seq<u8>,
) -> Seq<char> {
    "\nStudent "@ + dec_of(ident) + " built "@ + name + " using "@ + dec_of(packages.len())
        + " packages\nIdea checksum: "@ + hex_of(idea_acc) + "\nPackage checksum: "@ + hex_of(
        pkg_acc,
    ) + "\n"@ + package_lines_spec(packages)
}

/// The abstract state of one student worker.
pub ghost struct StudentModel {
    /// The worker's identifier, used in its log.
    pub ident: nat,
    /// The local idea-consumed checksum.
    pub idea_acc: Seq<u8>,
    /// The local package-consumed checksum.
    pub pkg_acc: Seq<u8>,
    /// The accumulated build records.
    pub log: Seq<char>,
    /// The idea being collected for, if any: `None` is the waiting state.
    pub pending: Option<Idea>,
    /// The packages received so far for the pending idea.
    pub collected: Seq<Package>,
    /// Whether a termination signal has been observed.
    pub done: bool,
}

/// The state after building `idea` from `packages`: both checksums are
/// updated, the build record is appended, and the student waits again.
pub open spec fn built_model(m: StudentModel, idea: Idea, packages: Seq<Package>) -> StudentModel {
    let idea_acc = xor_bytes(m.idea_acc, sha256_of(idea.name@));
    let pkg_acc = packages_fold(m.pkg_acc, packages);
    StudentModel {
        ident: m.ident,
        idea_acc: idea_acc,
        pkg_acc: pkg_acc,
        log: m.log + build_record_spec(m.ident, idea.name@, packages, idea_acc, pkg_acc),
        pending: None,
        collected: Seq::empty(),
        done: false,
    }
}

/// The student state machine: how one dequeued event transforms the state.
/// A package while waiting, or an idea or termination signal while
/// collecting, violates the protocol and is fatal.
pub open spec fn student_step(m: StudentModel, e: Event) -> Result<StudentModel, PipelineError> {
    match e {
        Event::NewIdea(idea) => match m.pending {
            Option::Some(_) => Err(PipelineError::ProtocolViolation),
            Option::None => if idea.num_packages == 0 {
                Ok(built_model(m, idea, Seq::empty()))
            } else {
                Ok(
                    StudentModel {
                        ident: m.ident,
                        idea_acc: m.idea_acc,
                        pkg_acc: m.pkg_acc,
                        log: m.log,
                        pending: Some(idea),
                        collected: Seq::empty(),
                        done: false,
                    },
                )
            },
        },
        Event::OutOfIdeas => match m.pending {
            Option::Some(_) => Err(PipelineError::ProtocolViolation),
            Option::None => Ok(
                StudentModel {
                    ident: m.ident,
                    idea_acc: m.idea_acc,
                    pkg_acc: m.pkg_acc,
                    log: m.log,
                    pending: None,
                    collected: m.collected,
                    done: true,
                },
            ),
        },
        Event::DownloadComplete(package) => match m.pending {
            Option::None => Err(PipelineError::ProtocolViolation),
            Option::Some(idea) => {
                let collected = m.collected.push(package);
                if collected.len() == idea.num_packages {
                    Ok(built_model(m, idea, collected))
                } else {
                    Ok(
                        StudentModel {
                            ident: m.ident,
                            idea_acc: m.idea_acc,
                            pkg_acc: m.pkg_acc,
                            log: m.log,
                            pending: Some(idea),
                            collected: collected,
                            done: false,
                        },
                    )
                }
            },
        },
    }
}

/// A consumer worker: drains the shared event channel, pairs each idea with
/// its required number of package events, aggregates both checksums locally,
/// and keeps a human-readable build log.
pub struct Student {
    id: usize,
    idea_checksum: Checksum,
    package_checksum: Checksum,
    done_message: String,
    in_progress: Option<(Idea, Vec<Package>)>,
    done: bool,
}

impl View for Student {
    type V = StudentModel;

    closed spec fn view(&self) -> StudentModel {
        StudentModel {
            ident: self.id as nat,
            idea_acc: self.idea_checksum@,
            pkg_acc: self.package_checksum@,
            log: self.done_message@,
            pending: match self.in_progress {
                Option::Some((idea, _)) => Some(idea),
                Option::None => None,
            },
            collected: match self.in_progress {
                Option::Some((_, packages)) => packages@,
                Option::None => Seq::empty(),
            },
            done: self.done,
        }
    }
}

impl Student {
    pub open spec fn wf(&self) -> bool {
        &&& self@.idea_acc.len() == 32
        &&& self@.pkg_acc.len() == 32
        &&& match self@.pending {
            Option::Some(idea) => self@.collected.len() < idea.num_packages,
            Option::None => self@.collected.len() == 0,
        }
    }

    /// A fresh worker in the waiting state with identity checksums, an empty
    /// log, and nothing collected.
    pub fn new(id: usize) -> (r: Student)
        ensures
            r.wf(),
            r@ == (StudentModel {
                ident: id as nat,
                idea_acc: zero_digest(),
                pkg_acc: zero_digest(),
                log: Seq::<char>::empty(),
                pending: None,
                collected: Seq::<Package>::empty(),
                done: false,
            }),
    {
        Student {
            id,
            idea_checksum: Checksum::default(),
            package_checksum: Checksum::default(),
            done_message: String::new(),
            in_progress: None,
            done: false,
        }
    }

    /// The accumulated build records, flushed by the caller as one atomic
    /// write once the worker is done.
    pub fn done_message(&self) -> (r: &String)
        ensures
            r@ == self@.log,
    {
        &self.done_message
    }

    /// The worker's two local checksums: ideas consumed and packages
    /// consumed.
    pub fn checksums(&self) -> (r: (Checksum, Checksum))
        ensures
            r.0@ == self@.idea_acc,
            r.1@ == self@.pkg_acc,
    {
        (self.idea_checksum.clone(), self.package_checksum.clone())
    }

    /// Builds one idea from the packages collected for it: folds the idea's
    /// name into the idea checksum and every package name into the package
    /// checksum, then appends the build record to the log.  The worker's
    /// phase is untouched.
    pub fn build_idea(&mut self, idea: Idea, packages: &Vec<Package>)
        requires
            old(self).wf(),
        ensures
            final(self).wf(),
            final(self)@.ident == old(self)@.ident,
            final(self)@.pending == old(self)@.pending,
            final(self)@.collected == old(self)@.collected,
            final(self)@.done == old(self)@.done,
            final(self)@.idea_acc == xor_bytes(old(self)@.idea_acc, sha256_of(idea.name@)),
            final(self)@.pkg_acc == packages_fold(old(self)@.pkg_acc, packages@),
            final(self)@.log == old(self)@.log + build_record_spec(
                old(self)@.ident,
                idea.name@,
                packages@,
                final(self)@.idea_acc,
                final(self)@.pkg_acc,
            ),
    {
        let ghost init = *self;
        self.idea_checksum.update(Checksum::with_sha256(idea.name.as_str()));
        let mut k: usize = 0;
        while k < packages.len()
            invariant
                k <= packages@.len(),
                self.id == init.id,
                self.in_progress == init.in_progress,
                self.done == init.done,
                self.done_message == init.done_message,
                self.idea_checksum@ == xor_bytes(init@.idea_acc, sha256_of(idea.name@)),
                self.idea_checksum@.len() == 32,
                self.package_checksum@.len() == 32,
                self.package_checksum@ == packages_fold(init@.pkg_acc, packages@.take(k as int)),
            decreases packages@.len() - k,
        {
            self.package_checksum.update(Checksum::with_sha256(packages[k].name.as_str()));
            proof {
                assert(packages@.take(k as int + 1).drop_last() =~= packages@.take(k as int));
            }
            k += 1;
        }
        proof {
            assert(packages@.take(packages@.len() as int) =~= packages@);
        }
        let ghost mid = self.done_message@;
        let ghost idea_acc = self.idea_checksum@;
        let ghost pkg_acc = self.package_checksum@;
        push_str(&mut self.done_message, "\nStudent ");
        push_dec(&mut self.done_message, self.id);
        push_str(&mut self.done_message, " built ");
        push_str(&mut self.done_message, idea.name.as_str());
        push_str(&mut self.done_message, " using ");
        push_dec(&mut self.done_message, packages.len());
        push_str(&mut self.done_message, " packages\nIdea checksum: ");
        let idea_hex = self.idea_checksum.to_hex();
        push_str(&mut self.done_message, idea_hex.as_str());
        push_str(&mut self.done_message, "\nPackage checksum: ");
        let pkg_hex = self.package_checksum.to_hex();
        push_str(&mut self.done_message, pkg_hex.as_str());
        push_str(&mut self.done_message, "\n");
        let ghost head = self.done_message@;
        proof {
            assert(packages@.take(0) =~= Seq::<Package>::empty());
            assert(head + package_lines_spec(packages@.take(0)) =~= head);
        }
        let mut k: usize = 0;
        while k < packages.len()
            invariant
                k <= packages@.len(),
                self.id == init.id,
                self.in_progress == init.in_progress,
                self.done == init.done,
                self.idea_checksum@ == idea_acc,
                self.package_checksum@ == pkg_acc,
                self.done_message@ == head + package_lines_spec(packages@.take(k as int)),
            decreases packages@.len() - k,
        {
            push_str(&mut self.done_message, "> ");
            push_str(&mut self.done_message, packages[k].name.as_str());
            push_str(&mut self.done_message, "\n");
            proof {
                assert(packages@.take(k as int + 1).drop_last() =~= packages@.take(k as int));
                assert(self.done_message@ =~= head + package_lines_spec(
                    packages@.take(k as int + 1),
                ));
            }
            k += 1;
        }
        proof {
            assert(packages@.take(packages@.len() as int) =~= packages@);
            assert(self.done_message@ =~= mid + build_record_spec(
                init@.ident,
                idea.name@,
                packages@,
                idea_acc,
                pkg_acc,
            ));
        }
    }

    /// One transition of the state machine: consumes a dequeued event exactly
    /// as `student_step` describes, and reports whether a termination signal
    /// was observed.  On a protocol violation the worker is unchanged.
    pub fn process_event(&mut self, event: Event) -> (r: Result<bool, PipelineError>)
        requires
            old(self).wf(),
            !old(self)@.done,
        ensures
            final(self).wf(),
            r matches Ok(stop) ==> (student_step(old(self)@, event) matches Ok(m2)
                && final(self)@ == m2 && stop == m2.done),
            r matches Err(e) ==> (student_step(old(self)@, event) matches Err(e2) && e == e2
                && final(self)@ == old(self)@),
    {
        match event {
            Event::NewIdea(idea) => {
                if self.in_progress.is_some() {
                    Err(PipelineError::ProtocolViolation)
                } else if idea.num_packages == 0 {
                    let collected: Vec<Package> = Vec::new();
                    proof {
                        assert(collected@ =~= Seq::<Package>::empty());
                    }
                    self.build_idea(idea, &collected);
                    Ok(false)
                } else {
                    self.in_progress = Some((idea, Vec::new()));
                    Ok(false)
                }
            },
            Event::OutOfIdeas => {
                if self.in_progress.is_some() {
                    Err(PipelineError::ProtocolViolation)
                } else {
                    self.done = true;
                    Ok(true)
                }
            },
            Event::DownloadComplete(package) => {
                match self.in_progress.take() {
                    None => Err(PipelineError::ProtocolViolation),
                    Some((idea, mut collected)) => {
                        collected.push(package);
                        if collected.len() == idea.num_packages {
                            self.build_idea(idea, &collected);
                            Ok(false)
                        } else {
                            self.in_progress = Some((idea, collected));
                            Ok(false)
                        }
                    },
                }
            },
        }
    }

}

} // verus!
