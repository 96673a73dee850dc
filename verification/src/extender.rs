//! Measurement extension: validating an extension request before any
//! external call, and a model of the append-only register chain.

use vstd::prelude::*;
use crate::types::copy_bytes;
use crate::types::ExtendError;
use crate::types::DIGEST_LEN;
use crate::types::MAX_REGISTER_INDEX;

verus! {

/// A validated order to extend one register of the measurement chain.
///
/// A command only ever exists for a digest of exactly [`DIGEST_LEN`] bytes
/// and a register index within range; the firmware call that carries it out
/// is external and happens after validation, never before.
pub struct ExtendCommand {
    /// Index of the register to extend, already checked to be in range.
    pub register_index: u8,
    /// The digest to append, already checked to have [`DIGEST_LEN`] bytes.
    pub digest: Vec<u8>,
}

impl ExtendCommand {
    /// Both preconditions of the extension call hold.
    pub open spec fn wf(&self) -> bool {
        &&& self.register_index <= MAX_REGISTER_INDEX
        &&& self.digest@.len() == DIGEST_LEN
    }
}

/// Checks both preconditions of an extension and fails fast on a violation,
/// before any external call: a digest of the wrong length is rejected as
/// [`ExtendError::InvalidDigest`], then an out-of-range register index as
/// [`ExtendError::InvalidRegisterIndex`]. Only a request that passes both
/// checks yields a command, and the command carries the digest unchanged.
pub fn prepare_extend(event_digest: &Vec<u8>, register_index: u64) -> (r: Result<
    ExtendCommand,
    ExtendError,
>)
    ensures
        event_digest@.len() != DIGEST_LEN ==> r == Err::<ExtendCommand, ExtendError>(
            ExtendError::InvalidDigest,
        ),
        event_digest@.len() == DIGEST_LEN && register_index > MAX_REGISTER_INDEX ==> r == Err::<
            ExtendCommand,
            ExtendError,
        >(ExtendError::InvalidRegisterIndex),
        event_digest@.len() == DIGEST_LEN && register_index <= MAX_REGISTER_INDEX ==> (r matches Ok(
            cmd,
        ) && cmd.register_index == register_index && cmd.digest@ == event_digest@ && cmd.wf()),
{
    if event_digest.len() != DIGEST_LEN {
        return Err(ExtendError::InvalidDigest);
    }
    if register_index > MAX_REGISTER_INDEX {
        return Err(ExtendError::InvalidRegisterIndex);
    }
    let digest = copy_bytes(event_digest);
    Ok(ExtendCommand { register_index: register_index as u8, digest })
}

/// Model of one register's append-only hash chain, as the firmware keeps
/// it. The real chain is owned by firmware and is only ever extended by
/// this system, never read or reset; this model stands in for it when
/// reasoning about, or simulating, extension behaviour.
pub struct MeasurementChain {
    entries: Vec<Vec<u8>>,
}

impl View for MeasurementChain {
    type V = Seq<Seq<u8>>;

    closed spec fn view(&self) -> Seq<Seq<u8>> {
        Seq::new(self.entries@.len(), |i: int| self.entries@[i]@)
    }
}

impl MeasurementChain {
    /// A fresh register chain holds no entry.
    pub fn new() -> (chain: MeasurementChain)
        ensures
            chain@ == Seq::<Seq<u8>>::empty(),
    {
        let chain = MeasurementChain { entries: Vec::new() };
        proof {
            assert(chain@ =~= Seq::<Seq<u8>>::empty());
        }
        chain
    }

    /// Carries one validated command out against this chain: appends the
    /// digest, atomically and irreversibly. Not idempotent — every call
    /// appends one more entry, whatever was appended before.
    pub fn extend(&mut self, cmd: &ExtendCommand)
        requires
            cmd.wf(),
        ensures
            final(self)@ == old(self)@.push(cmd.digest@),
    {
        let digest = copy_bytes(&cmd.digest);
        self.entries.push(digest);
        proof {
            assert(self@ =~~= old(self)@.push(cmd.digest@));
        }
    }

    /// How many entries the chain holds: one per extension carried out.
    pub fn len(&self) -> (n: usize)
        ensures
            n == self@.len(),
    {
        self.entries.len()
    }

    /// The digest appended by the `i`-th extension.
    pub fn entry(&self, i: usize) -> (digest: &Vec<u8>)
        requires
            i < self@.len(),
        ensures
            digest@ == self@[i as int],
    {
        &self.entries[i]
    }
}

/// Extension is not idempotent: extending a chain twice with one and the
/// same digest yields two chain updates, not one — the chain grows by two
/// entries and differs from the chain after a single extension.
pub proof fn lemma_extend_twice_distinct(chain: Seq<Seq<u8>>, digest: Seq<u8>)
    ensures
        chain.push(digest).push(digest).len() == chain.len() + 2,
        chain.push(digest).push(digest) != chain.push(digest),
{
    assert(chain.push(digest).push(digest).len() != chain.push(digest).len());
}

} // verus!
