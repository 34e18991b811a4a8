use vstd::prelude::*;

use std::sync::Arc;

use crate::channel::send_event;
use crate::checksum::{sha256_of, xor_bytes, zero_digest, Checksum};
use crate::{Event, PipelineError};

verus! {

/// A unit of supply work: a package carries only its name.
pub struct Package {
    pub name: String,
}

/// The name of the package at index `i` of the name list; the index wraps
/// around once it reaches the number of names.
pub open spec fn package_name_spec(names: Seq<String>, i: int) -> Seq<char>
    recommends
        names.len() > 0,
{
    names[i % names.len() as int]@
}

/// The accumulator obtained from `acc` by folding in the digests of the names
/// of `count` packages generated from offset `start`.
pub open spec fn packages_checksum_from(
    acc: Seq<u8>,
    names: Seq<String>,
    start: int,
    count: nat,
) -> Seq<u8>
    decreases count,
{
    if count == 0 {
        acc
    } else {
        xor_bytes(
            packages_checksum_from(acc, names, start, (count - 1) as nat),
            sha256_of(package_name_spec(names, start + count - 1)),
        )
    }
}

/// The checksum over the names of `count` packages generated from offset
/// `start`.
pub open spec fn packages_checksum_spec(names: Seq<String>, start: int, count: nat) -> Seq<u8> {
    packages_checksum_from(zero_digest(), names, start, count)
}

/// The digests of the names of `count` packages generated from offset
/// `start`, in generation order.
pub open spec fn package_digests(names: Seq<String>, start: int, count: nat) -> Seq<Seq<u8>> {
    Seq::new(count, |i: int| sha256_of(package_name_spec(names, start + i)))
}

/// A downloader's checksum is exactly the fold of the digests of the names it
/// emits, so the order-independence laws of `fold_digests` apply to it.
pub proof fn lemma_packages_checksum_is_fold(
    acc: Seq<u8>,
    names: Seq<String>,
    start: int,
    count: nat,
)
    ensures
        packages_checksum_from(acc, names, start, count) == crate::checksum::fold_digests(
            acc,
            package_digests(names, start, count),
        ),
    decreases count,
{
    if count > 0 {
        lemma_packages_checksum_is_fold(acc, names, start, (count - 1) as nat);
        assert(package_digests(names, start, count).drop_last() =~= package_digests(
            names,
            start,
            (count - 1) as nat,
        ));
    }
}

/// Generates a contiguous slice of package events from a name list and
/// accumulates the package checksum locally.  Package downloaders never stop
/// consumers: no termination signal originates here.
pub struct PackageDownloader {
    packages: Arc<Vec<String>>,
    start_i: usize,
    num_packages: usize,
    package_send: crossbeam::channel::Sender<Event>,
    package_checksum: Checksum,
}

impl PackageDownloader {
    /// The shared package name list.
    pub closed spec fn names(&self) -> Seq<String> {
        self.packages@
    }

    /// The first index of this downloader's slice of the name space.
    pub closed spec fn start(&self) -> int {
        self.start_i as int
    }

    /// How many packages this downloader emits.
    pub closed spec fn count(&self) -> int {
        self.num_packages as int
    }

    /// The local package checksum accumulated so far.
    pub closed spec fn acc(&self) -> Seq<u8> {
        self.package_checksum@
    }

    pub open spec fn wf(&self) -> bool {
        &&& self.names().len() > 0
        &&& self.start() + self.count() <= usize::MAX
        &&& self.acc().len() == 32
    }

    /// A downloader for `num_packages` packages starting at offset `start_i`,
    /// with a fresh local checksum.
    pub fn new(
        packages: Arc<Vec<String>>,
        start_i: usize,
        num_packages: usize,
        package_send: crossbeam::channel::Sender<Event>,
    ) -> (r: PackageDownloader)
        requires
            packages@.len() > 0,
            start_i + num_packages <= usize::MAX,
        ensures
            r.wf(),
            r.names() == packages@,
            r.start() == start_i as int,
            r.count() == num_packages as int,
            r.acc() == zero_digest(),
    {
        PackageDownloader {
            packages,
            start_i,
            num_packages,
            package_send,
            package_checksum: Checksum::default(),
        }
    }

    /// The package name at (wrapping) index `i` of the name list.
    fn get_next_package_name(&self, i: usize) -> (name: &String)
        requires
            self.names().len() > 0,
        ensures
            name@ == package_name_spec(self.names(), i as int),
    {
        &self.packages[i % self.packages.len()]
    }

    /// Emits this downloader's packages in generation order and returns the
    /// local package checksum.  On success the returned checksum is exactly
    /// the fold of the digests of the emitted names; the only error is a
    /// torn-down channel.
    pub fn run(&mut self) -> (r: Result<Checksum, PipelineError>)
        requires
            old(self).wf(),
        ensures
            final(self).wf(),
            r matches Ok(c) ==> c@ == packages_checksum_from(
                old(self).acc(),
                old(self).names(),
                old(self).start(),
                old(self).count() as nat,
            ),
            r matches Err(e) ==> e == PipelineError::ChannelClosed,
    {
        let ghost init = *self;
        let mut i: usize = 0;
        while i < self.num_packages
            invariant
                self.wf(),
                i <= self.num_packages,
                self.packages == init.packages,
                self.start_i == init.start_i,
                self.num_packages == init.num_packages,
                self.package_checksum@ == packages_checksum_from(
                    init.acc(),
                    init.names(),
                    init.start(),
                    i as nat,
                ),
            decreases self.num_packages - i,
        {
            let name = self.get_next_package_name(self.start_i + i).clone();
            self.package_checksum.update(Checksum::with_sha256(name.as_str()));
            match send_event(&self.package_send, Event::DownloadComplete(Package { name })) {
                Ok(()) => {},
                Err(_) => {
                    return Err(PipelineError::ChannelClosed);
                },
            }
            i += 1;
        }
        Ok(self.package_checksum.clone())
    }
}

} // verus!
