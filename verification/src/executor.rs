//! The block executor that the driver runs payloads with.

use crate::assemble::{
    message_passer_root, output_preimage, ExecutorError, MessagePasserRoot, StatelessL2Builder,
    TrieDBError,
};
use crate::config::RollupConfig;
use crate::header::SealedHeader;
use crate::primitives::{keccak256_digest, B256};
use crate::transaction::OpPayloadAttributes;
use vstd::prelude::*;

verus! {

/// An executor that makes a new builder for every safe head.
#[derive(Debug)]
pub struct KonaExecutor<P, H, V> {
    /// The rollup configuration.
    pub rollup_config: RollupConfig,
    /// The provider of trie nodes.
    pub trie_provider: P,
    /// The sender of hints for trie nodes.
    pub trie_hinter: H,
    /// The maker of virtual machines.
    pub evm_factory: V,
    /// The builder on the safe head that was set last.
    pub inner: Option<StatelessL2Builder<P, H, V>>,
}

impl<P, H, V> KonaExecutor<P, H, V> {
    /// An executor made of its parts.
    pub fn new(
        rollup_config: RollupConfig,
        trie_provider: P,
        trie_hinter: H,
        evm_factory: V,
        inner: Option<StatelessL2Builder<P, H, V>>,
    ) -> (r: Self)
        ensures
            r == (KonaExecutor { rollup_config, trie_provider, trie_hinter, evm_factory, inner }),
    {
        KonaExecutor { rollup_config, trie_provider, trie_hinter, evm_factory, inner }
    }

    /// Whether everything but the builder is the same.
    pub open spec fn same_parts(self, other: Self) -> bool {
        self == (KonaExecutor { inner: self.inner, ..other })
    }

    /// Executes the payload: hands out the builder that builds its block, together with the
    /// attributes to build it from. Without a safe head there is no builder.
    pub fn execute_payload<X>(&mut self, attributes: OpPayloadAttributes) -> (r: Result<
        (&mut StatelessL2Builder<P, H, V>, OpPayloadAttributes),
        ExecutorError<X>,
    >)
        ensures
            final(self).same_parts(*old(self)),
            match old(self).inner {
                Some(builder) => r matches Ok((b, a)) && *b == builder && a == attributes
                    && final(self).inner == Some(*final(b)),
                None => r == Err::<
                    (&mut StatelessL2Builder<P, H, V>, OpPayloadAttributes),
                    ExecutorError<X>,
                >(ExecutorError::MissingExecutor) && final(self).inner is None,
            },
    {
        match &mut self.inner {
            Some(builder) => Ok((builder, attributes)),
            None => Err(ExecutorError::MissingExecutor),
        }
    }

    /// Where the output root takes the storage root of the message passer from; without a safe head
    /// there is none to take.
    pub fn output_root_lookup(&self, cached: Option<B256>) -> (r: Option<MessagePasserRoot>)
        ensures
            r == (match self.inner {
                Some(builder) => Some(
                    message_passer_root(cached, builder.parent_header@.header.number),
                ),
                None => None,
            }),
    {
        match &self.inner {
            Some(builder) => Some(builder.output_root_lookup(cached)),
            None => None,
        }
    }

    /// The output root of the safe head, given the storage root of the message passer where
    /// [`Self::output_root_lookup`] asks for it.
    pub fn compute_output_root<X>(&self, storage_root: Option<Result<B256, TrieDBError<X>>>) -> (r:
        Result<B256, ExecutorError<X>>)
        requires
            self.inner is Some ==> storage_root is Some,
        ensures
            match (self.inner, storage_root) {
                (Some(builder), Some(Ok(storage_root))) => r matches Ok(root) && root@
                    == keccak256_digest(
                    output_preimage(
                        builder.parent_header@.header.state_root,
                        storage_root@,
                        builder.parent_header@.hash,
                    ),
                ),
                (Some(_), Some(Err(e))) => r == Err::<B256, _>(ExecutorError::TrieDB(e)),
                _ => r == Err::<B256, _>(ExecutorError::<X>::MissingExecutor),
            },
    {
        match (&self.inner, storage_root) {
            (Some(builder), Some(storage_root)) => builder.compute_output_root(storage_root),
            _ => Err(ExecutorError::MissingExecutor),
        }
    }
}

impl<P: Clone, H: Clone, V: Clone> KonaExecutor<P, H, V> {
    /// Sets the safe head: the next block is built on top of it, by a new builder with clones of
    /// the executor's parts.
    pub fn update_safe_head(&mut self, header: SealedHeader)
        ensures
            final(self).same_parts(*old(self)),
            final(self).inner matches Some(builder) && {
                &&& builder.config == old(self).rollup_config
                &&& cloned(old(self).evm_factory, builder.evm_factory)
                &&& cloned(old(self).trie_provider, builder.provider)
                &&& cloned(old(self).trie_hinter, builder.hinter)
                &&& builder.parent_header == header
            },
    {
        self.inner = Some(
            StatelessL2Builder::new(
                self.rollup_config,
                self.evm_factory.clone(),
                self.trie_provider.clone(),
                self.trie_hinter.clone(),
                header,
            ),
        );
    }
}

/// Executing and setting the safe head leave everything but the builder as it is.
pub proof fn law_same_parts_are_the_same<P, H, V>(a: KonaExecutor<P, H, V>, b: KonaExecutor<P, H, V>)
    requires
        a.same_parts(b),
    ensures
        a.rollup_config == b.rollup_config,
        a.trie_provider == b.trie_provider,
        a.trie_hinter == b.trie_hinter,
        a.evm_factory == b.evm_factory,
{
}

} // verus!
