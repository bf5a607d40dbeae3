//! The L2 chain as seen through the preimage oracle.

use crate::block_query::{BlockQuery, BlockQueryView};
use crate::block_read::{BlockRead, BlockReadAction, BlockReadView, ReadTarget};
use crate::config::RollupConfig;
use crate::header::{Header, HeaderView};
use crate::oracle::{
    hash_hint, hint_with, law_hint_holds_its_data, make_hint, Hint, HintType, NodeAction, NodeActionView, NodeQuery,
    OracleProviderError, PreimageQuery, PreimageQueryView, ProviderAction,
};
use crate::primitives::{
    append_slice, be_bytes, be_value, u64_to_be_bytes, Address, L2BlockInfo, B256, U256,
};
use crate::transaction::{
    attributes_json, encode_attributes, json_view, OpBlock, OpPayloadAttributes,
};
use crate::walk::{HeaderWalk, WalkView};
use vstd::prelude::*;

verus! {

/// The L2 chain provider of the client program.
///
/// `T` is the oracle client and `C` the cursor of the derivation pipeline.
#[derive(Clone, Debug)]
pub struct OracleL2ChainProvider<T, C> {
    /// The hash of the safe head that the program starts from.
    pub l2_head: B256,
    /// The rollup configuration.
    pub rollup_config: RollupConfig,
    /// The oracle client.
    pub oracle: T,
    /// The cursor of the derivation pipeline, once there is one.
    pub cursor: Option<C>,
    /// The chain ID that the hints carry.
    pub chain_id: Option<u64>,
}

impl<T, C> OracleL2ChainProvider<T, C> {
    /// A provider without a cursor and without a chain ID.
    pub fn new(l2_head: B256, rollup_config: RollupConfig, oracle: T) -> (r: Self)
        ensures
            r == (OracleL2ChainProvider {
                l2_head,
                rollup_config,
                oracle,
                cursor: None::<C>,
                chain_id: None,
            }),
    {
        OracleL2ChainProvider { l2_head, rollup_config, oracle, cursor: None, chain_id: None }
    }

    /// Sets the chain ID that the hints carry.
    pub fn set_chain_id(&mut self, chain_id: Option<u64>)
        ensures
            *final(self) == (OracleL2ChainProvider { chain_id, ..*old(self) }),
    {
        self.chain_id = chain_id;
    }

    /// Sets the cursor of the derivation pipeline.
    pub fn set_cursor(&mut self, cursor: C)
        ensures
            *final(self) == (OracleL2ChainProvider { cursor: Some(cursor), ..*old(self) }),
    {
        self.cursor = Some(cursor);
    }

    /// The hash of the safe head: that of the cursor, or the one that the program starts from if
    /// there is no cursor.
    pub open spec fn safe_head(self, cursor_head: Option<L2BlockInfo>) -> B256 {
        match (self.cursor, cursor_head) {
            (Some(_), Some(head)) => head.block_info.hash,
            _ => self.l2_head,
        }
    }

    /// The hash of the latest known safe head, where `cursor_head` is the safe head that the cursor
    /// holds, if there is a cursor.
    pub fn l2_safe_head<X>(&self, cursor_head: Option<L2BlockInfo>) -> (r: Result<
        B256,
        OracleProviderError<X>,
    >)
        requires
            self.cursor is Some ==> cursor_head is Some,
        ensures
            r == Ok::<B256, OracleProviderError<X>>(self.safe_head(cursor_head)),
    {
        Ok(self.head(cursor_head))
    }

    fn head(&self, cursor_head: Option<L2BlockInfo>) -> (r: B256)
        requires
            self.cursor is Some ==> cursor_head is Some,
        ensures
            r == self.safe_head(cursor_head),
    {
        match (&self.cursor, cursor_head) {
            (Some(_), Some(head)) => head.block_info.hash,
            _ => self.l2_head,
        }
    }

    /// Begins to look for the header with this number, by walking back from the safe head.
    pub fn header_by_number<X>(&self, block_number: u64, cursor_head: Option<L2BlockInfo>) -> (r: (
        HeaderWalk,
        ProviderAction<Header, X>,
    ))
        requires
            self.cursor is Some ==> cursor_head is Some,
        ensures
            (r.0@, r.1@) == WalkView::start::<X>(
                self.rollup_config,
                self.chain_id,
                self.safe_head(cursor_head)@,
                block_number,
            ),
    {
        let head = self.head(cursor_head);
        HeaderWalk::start(&self.rollup_config, self.chain_id, head, block_number)
    }

    /// Begins to fetch the block with this number.
    pub fn block_by_number<X>(&self, number: u64, cursor_head: Option<L2BlockInfo>) -> (r: (
        BlockQuery,
        ProviderAction<OpBlock, X>,
    ))
        requires
            self.cursor is Some ==> cursor_head is Some,
        ensures
            (r.0@, r.1@) == BlockQueryView::start::<X>(
                self.rollup_config,
                self.chain_id,
                self.safe_head(cursor_head)@,
                number,
            ),
    {
        let head = self.head(cursor_head);
        BlockQuery::start(&self.rollup_config, self.chain_id, head, number)
    }

    /// Begins to read the L2 block information of the block with this number.
    pub fn l2_block_info_by_number<X>(&self, number: u64, cursor_head: Option<L2BlockInfo>) -> (r: (
        BlockRead,
        BlockReadAction<L2BlockInfo, X>,
    ))
        requires
            self.cursor is Some ==> cursor_head is Some,
        ensures
            (r.0@, r.1@) == BlockReadView::start::<L2BlockInfo, X>(
                ReadTarget::BlockInfo(self.rollup_config.genesis),
                self.rollup_config,
                self.chain_id,
                self.safe_head(cursor_head)@,
                number,
            ),
    {
        let target = ReadTarget::BlockInfo(self.rollup_config.genesis);
        let head = self.head(cursor_head);
        BlockRead::start(target, &self.rollup_config, self.chain_id, head, number)
    }

    /// Begins to read the system configuration of the block with this number, under this
    /// configuration of the rollup.
    pub fn system_config_by_number<S, X>(
        &self,
        number: u64,
        rollup_config: RollupConfig,
        cursor_head: Option<L2BlockInfo>,
    ) -> (r: (BlockRead, BlockReadAction<S, X>))
        requires
            self.cursor is Some ==> cursor_head is Some,
        ensures
            (r.0@, r.1@) == BlockReadView::start::<S, X>(
                ReadTarget::SystemConfig(rollup_config),
                self.rollup_config,
                self.chain_id,
                self.safe_head(cursor_head)@,
                number,
            ),
    {
        let target = ReadTarget::SystemConfig(rollup_config);
        let head = self.head(cursor_head);
        BlockRead::start(target, &self.rollup_config, self.chain_id, head, number)
    }

    /// Begins to read a trie node. The hint for it has been sent before.
    pub fn trie_node_by_hash<N, X>(&self, key: B256) -> (r: (NodeQuery, NodeAction<N, X>))
        ensures
            r.0 == NodeQuery::Preimage,
            r.1@ == NodeActionView::<N, X>::GetPreimage(key@),
    {
        (NodeQuery::Preimage, NodeAction::GetPreimage(key))
    }

    /// Begins to read the code with this hash.
    pub fn bytecode_by_hash<X>(&self, hash: B256) -> (r: (PreimageQuery, ProviderAction<Vec<u8>, X>))
        ensures
            (r.0@, r.1@) == PreimageQueryView::start::<Seq<u8>, X>(
                HintType::L2Code,
                hash@,
                self.chain_id,
            ),
    {
        PreimageQuery::start(HintType::L2Code, hash, self.chain_id)
    }

    /// Begins to read the header with this hash; the query goes on by [`header_step`].
    pub fn header_by_hash<X>(&self, hash: B256) -> (r: (PreimageQuery, ProviderAction<Header, X>))
        ensures
            (r.0@, r.1@) == PreimageQueryView::start::<HeaderView, X>(
                HintType::L2BlockHeader,
                hash@,
                self.chain_id,
            ),
    {
        PreimageQuery::start(HintType::L2BlockHeader, hash, self.chain_id)
    }

    /// The hint for a node of the state trie.
    pub fn hint_trie_node(&self, hash: B256) -> (r: Hint)
        ensures
            r@ == hint_with(HintType::L2StateNode, hash@, self.chain_id),
    {
        hash_hint(HintType::L2StateNode, &hash, self.chain_id)
    }

    /// The hint for the proof of an account as of a block.
    pub fn hint_account_proof(&self, address: Address, block_number: u64) -> (r: Hint)
        ensures
            r@ == hint_with(
                HintType::L2AccountProof,
                be_bytes(block_number as nat, 8) + address@,
                self.chain_id,
            ),
    {
        let mut data: Vec<u8> = Vec::new();
        append_slice(&mut data, u64_to_be_bytes(block_number).as_slice());
        append_slice(&mut data, address.as_slice());
        assert(data@ =~= be_bytes(block_number as nat, 8) + address@);
        make_hint(HintType::L2AccountProof, data, self.chain_id)
    }

    /// The hint for the proof of a storage slot of an account as of a block.
    pub fn hint_storage_proof(&self, address: Address, slot: U256, block_number: u64) -> (r: Hint)
        ensures
            r@ == hint_with(
                HintType::L2AccountStorageProof,
                be_bytes(block_number as nat, 8) + address@ + be_bytes(slot.value(), 32),
                self.chain_id,
            ),
    {
        let mut data: Vec<u8> = Vec::new();
        append_slice(&mut data, u64_to_be_bytes(block_number).as_slice());
        append_slice(&mut data, address.as_slice());
        append_slice(&mut data, slot.to_be_bytes().as_slice());
        assert(data@ =~= be_bytes(block_number as nat, 8) + address@ + be_bytes(slot.value(), 32));
        make_hint(HintType::L2AccountStorageProof, data, self.chain_id)
    }

    /// Whether this is the hint for the witness of executing a payload whose attributes serialise
    /// so: the hash of the parent block, then the JSON form of the attributes. Without a JSON form
    /// there is no hint but the reason.
    pub open spec fn is_witness_hint<X>(
        self,
        parent_hash: Seq<u8>,
        json: Result<Seq<u8>, Seq<char>>,
        r: Result<Hint, OracleProviderError<X>>,
    ) -> bool {
        match json {
            Ok(json) => r matches Ok(hint) && hint@ == hint_with(
                HintType::L2PayloadWitness,
                parent_hash + json,
                self.chain_id,
            ),
            Err(reason) => r matches Err(OracleProviderError::Serde(e)) && e@ == reason,
        }
    }

    /// The hint for the witness of executing a payload with these attributes on top of a block.
    pub fn hint_execution_witness<X>(&self, parent_hash: B256, attributes: &OpPayloadAttributes) -> (r:
        Result<Hint, OracleProviderError<X>>)
        ensures
            self.is_witness_hint(parent_hash@, attributes_json(attributes@), r),
    {
        self.witness_hint(parent_hash, encode_attributes(attributes.copy()))
    }

    /// The hint for the witness of executing a payload, given what serialising its attributes gave.
    pub fn witness_hint<X>(&self, parent_hash: B256, json: Result<Vec<u8>, String>) -> (r: Result<
        Hint,
        OracleProviderError<X>,
    >)
        ensures
            self.is_witness_hint(parent_hash@, json_view(json), r),
    {
        match json {
            Ok(json) => {
                let mut data: Vec<u8> = Vec::new();
                append_slice(&mut data, parent_hash.as_slice());
                append_slice(&mut data, json.as_slice());
                assert(data@ =~= parent_hash@ + json@);
                Ok(make_hint(HintType::L2PayloadWitness, data, self.chain_id))
            },
            Err(e) => Err(OracleProviderError::Serde(e)),
        }
    }
}

/// The safe head is that of the cursor as soon as there is one, and the one that the program starts
/// from before that.
pub proof fn law_safe_head_follows_the_cursor<T, C>(
    provider: OracleL2ChainProvider<T, C>,
    head: L2BlockInfo,
)
    ensures
        provider.cursor is Some ==> provider.safe_head(Some(head)) == head.block_info.hash,
        provider.cursor is None ==> provider.safe_head(Some(head)) == provider.l2_head,
        provider.cursor is None ==> provider.safe_head(None) == provider.l2_head,
{
}

/// The hint for the witness of a payload holds the hash of the parent block, all of the JSON form
/// of the attributes behind it and then the chain ID, if one is set. Attributes without a JSON form
/// give their reason, and no hint.
pub proof fn law_witness_hint_holds_hash_and_attributes<T, C, X>(
    provider: OracleL2ChainProvider<T, C>,
    parent_hash: B256,
    json: Result<Seq<u8>, Seq<char>>,
    r: Result<Hint, OracleProviderError<X>>,
)
    requires
        provider.is_witness_hint(parent_hash@, json, r),
    ensures
        json is Ok <==> r is Ok,
        json matches Ok(json) ==> {
            let hint = r->Ok_0;
            let end = 32 + json.len();
            &&& hint.hint_type is L2PayloadWitness
            &&& hint.data@.take(32) == parent_hash@
            &&& hint.data@.subrange(32, end as int) == json
            &&& provider.chain_id is None ==> hint.data@.len() == end
            &&& provider.chain_id matches Some(id) ==> hint.data@.len() == end + 8 && be_value(
                hint.data@.skip(end as int),
            ) == id
        },
        json matches Err(reason) ==> r matches Err(OracleProviderError::Serde(e)) && e@ == reason,
{
    if let Ok(json) = json {
        let hint = r->Ok_0;
        let data = parent_hash@ + json;
        law_hint_holds_its_data(HintType::L2PayloadWitness, data, provider.chain_id);
        assert(hint.data@.take(data.len() as int) == data);
        assert(hint.data@.take(32) =~= data.take(32));
        assert(data.take(32) =~= parent_hash@);
        assert(hint.data@.subrange(32, (32 + json.len()) as int) =~= data.skip(32));
        assert(data.skip(32) =~= json);
    }
}

} // verus!
