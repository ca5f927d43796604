//! The factory contract's rules: the identifier under which a pair of
//! assets is registered, the refusal of a pair that already exists, and the
//! plans for instantiating a pair contract and registering it once it exists.

use vstd::prelude::*;
use crate::pair::PairInfo;
use crate::token::{asset_bytes, TokenInfo};

verus! {

/// The reply id under which the factory hears back from a pair instantiation.
pub const INSTANTIATE_PAIR_REPLY_ID: u64 = 1;

/// The reply id of the message that hands the liquidity token's minting
/// rights to the new pair.
pub const UPDATE_MINTER_REPLY_ID: u64 = 2;

/// Decimals of a new pair's liquidity token.
pub const LP_TOKEN_DECIMALS: u8 = 18;

/// The factory's configuration: the code id it instantiates pairs from.
#[derive(Debug, Clone, Copy, PartialEq, Eq, Structural)]
pub struct FactoryConfig {
    pub pair_code_id: u64,
}

/// A registered pair: the address of its contract and its two assets.
#[derive(Debug, Clone)]
pub struct PoolInfo {
    pub pair_addr: String,
    pub assets: [TokenInfo; 2],
}

/// The pair being created, kept while its instantiation is under way.
#[derive(Debug, Clone)]
pub struct TmpPoolInfo {
    pub pool_id: Vec<u8>,
    pub assets: [TokenInfo; 2],
}

/// A list of pairs, as the factory answers it.
#[derive(Debug, Clone)]
pub struct PairsResponse {
    pub pairs: Vec<PairInfo>,
}

/// The instantiation of a pair contract, answered under `reply_id`. Its
/// liquidity token starts with no balances, no cap and no marketing
/// information, no funds are sent along, and the pair's protocol fees go to
/// `treasury`.
#[derive(Debug)]
pub struct InstantiatePair {
    pub code_id: u64,
    pub admin: String,
    pub label: String,
    pub token_info: [TokenInfo; 2],
    pub lp_token_decimal: u8,
    pub lp_token_name: String,
    pub lp_token_symbol: String,
    pub lp_token_decimals: u8,
    pub minter: String,
    pub treasury: String,
    pub reply_id: u64,
}

/// What creating a pair does: remember the pair under way and instantiate it.
#[derive(Debug)]
pub struct PairCreation {
    pub temp: TmpPoolInfo,
    pub instantiate: InstantiatePair,
}

/// The message that makes `new_minter` the minter of the liquidity token of
/// the pair at `pair_addr`, answered under `reply_id`.
#[derive(Debug)]
pub struct UpdateMinter {
    pub pair_addr: String,
    pub new_minter: String,
    pub reply_id: u64,
}

/// What hearing back from an instantiated pair does: record it under its
/// identifier and hand it the minting rights of its liquidity token.
#[derive(Debug)]
pub struct PoolRegistration {
    pub pool_id: Vec<u8>,
    pub pool: PoolInfo,
    pub update_minter: UpdateMinter,
}

/// Why the factory refuses a request.
#[derive(Debug)]
pub enum FactoryError {
    /// "Pair already exists"
    PairAlreadyExists,
    /// The instantiation reply failed or could not be read; the reason.
    ReplyParse(String),
}

/// Byte strings in lexicographic order, as `Ord` orders byte slices.
pub open spec fn lex_le(a: Seq<u8>, b: Seq<u8>) -> bool
    decreases a.len(),
{
    if a.len() == 0 {
        true
    } else if b.len() == 0 {
        false
    } else if a[0] != b[0] {
        a[0] < b[0]
    } else {
        lex_le(a.drop_first(), b.drop_first())
    }
}

/// The identifier of a pair: the bytes of its two assets, smaller first, joined.
pub open spec fn pair_key(a: Seq<u8>, b: Seq<u8>) -> Seq<u8> {
    if lex_le(a, b) {
        a + b
    } else {
        b + a
    }
}

/// The identifier under which the pair of `assets` is registered.
pub open spec fn pool_key(assets: Seq<TokenInfo>) -> Seq<u8> {
    pair_key(asset_bytes(assets[0]@), asset_bytes(assets[1]@))
}

/// The contract address that the protobuf encoding `data` of an
/// instantiation response carries, or `None` if `data` is not such an encoding.
pub uninterp spec fn instantiate_response_address(data: Seq<u8>) -> Option<Seq<char>>;

/// `cw0::parse_reply_instantiate_data`, on a reply with the given id whose
/// result is `Err(message)` for a failed sub-message and `Ok(data)` for a
/// successful one. Its source fails on a failed sub-message and on missing
/// data; otherwise it decodes the contract address out of `data`, a protobuf
/// decoding that `instantiate_response_address` names. Events of the reply
/// are not read by it and are not passed. Its error type is not exported by
/// the crate, so an error is handed on as the text it displays.
#[verifier::external_body]
fn parse_reply_instantiate_data(id: u64, result: Result<Option<Vec<u8>>, String>) -> (r: Result<
    String,
    String,
>)
    ensures
        result is Err ==> r is Err,
        result matches Ok(data) && data is None ==> r is Err,
        result matches Ok(Some(data)) ==> match r {
            Ok(addr) => instantiate_response_address(data@) == Some(addr@),
            Err(_) => instantiate_response_address(data@) is None,
        },
{
    let result = match result {
        Ok(data) => cosmwasm_std::SubMsgResult::Ok(cosmwasm_std::SubMsgResponse {
            events: vec![],
            data: match data {
                Some(d) => Some(cosmwasm_std::Binary(d)),
                None => None,
            },
        }),
        Err(message) => cosmwasm_std::SubMsgResult::Err(message),
    };
    match cw0::parse_reply_instantiate_data(cosmwasm_std::Reply { id, result }) {
        Ok(response) => Ok(response.contract_address),
        Err(e) => Err(e.to_string()),
    }
}

/// Whether `a` comes before or equals `b` in lexicographic byte order.
pub fn bytes_le(a: &[u8], b: &[u8]) -> (r: bool)
    ensures
        r == lex_le(a@, b@),
{
    let mut i: usize = 0;
    assert(a@.skip(0) =~= a@ && b@.skip(0) =~= b@);
    while i < a.len() && i < b.len()
        invariant
            i <= a@.len(),
            i <= b@.len(),
            lex_le(a@, b@) == lex_le(a@.skip(i as int), b@.skip(i as int)),
        decreases a.len() - i,
    {
        if a[i] != b[i] {
            return a[i] < b[i];
        }
        assert(a@.skip(i as int).drop_first() =~= a@.skip(i + 1));
        assert(b@.skip(i as int).drop_first() =~= b@.skip(i + 1));
        i = i + 1;
    }
    i == a.len()
}

fn append_bytes(v: &mut Vec<u8>, s: &[u8])
    ensures
        final(v)@ == old(v)@ + s@,
{
    let ghost start = v@;
    let mut i: usize = 0;
    while i < s.len()
        invariant
            i <= s@.len(),
            v@ == start + s@.take(i as int),
        decreases s.len() - i,
    {
        v.push(s[i]);
        assert(s@.take(i + 1) =~= s@.take(i as int).push(s@[i as int]));
        i = i + 1;
    }
    assert(s@.take(s@.len() as int) =~= s@);
}

/// The identifier of the pair of `asset_infos`: the bytes of both assets,
/// the smaller first in lexicographic order, joined.
pub fn pair_id(asset_infos: &[TokenInfo; 2]) -> (id: Vec<u8>)
    ensures
        id@ == pool_key(asset_infos@),
{
    let a = asset_infos[0].get_as_bytes();
    let b = asset_infos[1].get_as_bytes();
    let mut id: Vec<u8> = Vec::new();
    if bytes_le(a, b) {
        append_bytes(&mut id, a);
        append_bytes(&mut id, b);
    } else {
        append_bytes(&mut id, b);
        append_bytes(&mut id, a);
    }
    assert(id@ =~= pool_key(asset_infos@));
    id
}

/// The factory's configuration at instantiation.
pub fn instantiate(pair_code_id: u64) -> (r: FactoryConfig)
    ensures
        r.pair_code_id == pair_code_id,
{
    FactoryConfig { pair_code_id }
}

/// Creates the pair of `asset_infos`, with `pool_exists` telling whether a
/// pair is registered under its identifier. Refuses an existing pair;
/// otherwise remembers the pair under way and instantiates a pair contract
/// from the configured code, with the factory at `factory_addr` as admin and
/// as minter of the pair's liquidity token "pair token" ("pair", 18 decimals)
/// and as the recipient of the pair's protocol fees.
pub fn create_pair(
    config: &FactoryConfig,
    factory_addr: &String,
    asset_infos: [TokenInfo; 2],
    pool_exists: bool,
) -> (r: Result<PairCreation, FactoryError>)
    ensures
        r is Err <==> pool_exists,
        r matches Err(e) ==> e is PairAlreadyExists,
        r matches Ok(p) ==> {
            &&& p.temp.pool_id@ == pool_key(asset_infos@)
            &&& p.temp.assets == asset_infos
            &&& p.instantiate.code_id == config.pair_code_id
            &&& p.instantiate.admin == *factory_addr
            &&& p.instantiate.label@ == "pair contract"@
            &&& p.instantiate.token_info == asset_infos
            &&& p.instantiate.lp_token_decimal == 18
            &&& p.instantiate.lp_token_name@ == "pair token"@
            &&& p.instantiate.lp_token_symbol@ == "pair"@
            &&& p.instantiate.lp_token_decimals == 18
            &&& p.instantiate.minter == *factory_addr
            &&& p.instantiate.treasury == *factory_addr
            &&& p.instantiate.reply_id == INSTANTIATE_PAIR_REPLY_ID == 1
        },
{
    let pool_id = pair_id(&asset_infos);
    if pool_exists {
        return Err(FactoryError::PairAlreadyExists);
    }
    let temp = TmpPoolInfo {
        pool_id,
        assets: [asset_infos[0].copied(), asset_infos[1].copied()],
    };
    assert(temp.assets =~= asset_infos);
    let instantiate = InstantiatePair {
        code_id: config.pair_code_id,
        admin: factory_addr.clone(),
        label: String::from_str("pair contract"),
        token_info: asset_infos,
        lp_token_decimal: LP_TOKEN_DECIMALS,
        lp_token_name: String::from_str("pair token"),
        lp_token_symbol: String::from_str("pair"),
        lp_token_decimals: LP_TOKEN_DECIMALS,
        minter: factory_addr.clone(),
        treasury: factory_addr.clone(),
        reply_id: INSTANTIATE_PAIR_REPLY_ID,
    };
    Ok(PairCreation { temp, instantiate })
}

/// Registers the pair under way as the contract at `contract_address`: its
/// record under the remembered identifier, and the hand-over of its
/// liquidity token's minting rights to the pair itself.
pub fn register_pool(temp: TmpPoolInfo, contract_address: String) -> (r: PoolRegistration)
    ensures
        r.pool_id == temp.pool_id,
        r.pool.pair_addr == contract_address,
        r.pool.assets == temp.assets,
        r.update_minter.pair_addr == contract_address,
        r.update_minter.new_minter == contract_address,
        r.update_minter.reply_id == UPDATE_MINTER_REPLY_ID == 2,
{
    let update_minter = UpdateMinter {
        pair_addr: contract_address.clone(),
        new_minter: contract_address.clone(),
        reply_id: UPDATE_MINTER_REPLY_ID,
    };
    PoolRegistration {
        pool_id: temp.pool_id,
        pool: PoolInfo { pair_addr: contract_address, assets: temp.assets },
        update_minter,
    }
}

/// Handles the reply to a pair instantiation, whose result is `Err(message)`
/// for a failed instantiation and `Ok(data)` for a successful one. Fails
/// when the instantiation failed or its data carries no contract address;
/// otherwise registers the pair as the contract at that address.
pub fn instantiate_reply(
    temp: TmpPoolInfo,
    id: u64,
    result: Result<Option<Vec<u8>>, String>,
) -> (r: Result<PoolRegistration, FactoryError>)
    ensures
        r is Ok <==> (result matches Ok(Some(data)) && instantiate_response_address(data@) is Some),
        r matches Err(e) ==> e is ReplyParse,
        r matches Ok(reg) ==> {
            &&& result matches Ok(Some(data)) && instantiate_response_address(data@) == Some(
                reg.pool.pair_addr@,
            )
            &&& reg.pool_id == temp.pool_id
            &&& reg.pool.assets == temp.assets
            &&& reg.update_minter.pair_addr == reg.pool.pair_addr
            &&& reg.update_minter.new_minter == reg.pool.pair_addr
            &&& reg.update_minter.reply_id == UPDATE_MINTER_REPLY_ID == 2
        },
{
    match parse_reply_instantiate_data(id, result) {
        Ok(contract_address) => Ok(register_pool(temp, contract_address)),
        Err(e) => Err(FactoryError::ReplyParse(e)),
    }
}

proof fn lemma_lex_total(a: Seq<u8>, b: Seq<u8>)
    ensures
        lex_le(a, b) || lex_le(b, a),
    decreases a.len(),
{
    if a.len() > 0 && b.len() > 0 && a[0] == b[0] {
        lemma_lex_total(a.drop_first(), b.drop_first());
    }
}

proof fn lemma_lex_antisymmetric(a: Seq<u8>, b: Seq<u8>)
    requires
        lex_le(a, b),
        lex_le(b, a),
    ensures
        a == b,
    decreases a.len(),
{
    if a.len() == 0 {
        assert(b.len() == 0);
        assert(a =~= b);
    } else {
        assert(b.len() > 0 && a[0] == b[0]);
        lemma_lex_antisymmetric(a.drop_first(), b.drop_first());
        assert(a =~= seq![a[0]] + a.drop_first());
        assert(b =~= seq![b[0]] + b.drop_first());
    }
}

proof fn lemma_lex_le_at_first_difference(a: Seq<u8>, b: Seq<u8>, k: int)
    requires
        0 <= k <= a.len(),
        k <= b.len(),
        forall|i: int| 0 <= i < k ==> a[i] == b[i],
        k == a.len() || (k < b.len() && a[k] < b[k]),
    ensures
        lex_le(a, b),
    decreases k,
{
    if k > 0 {
        assert(a[0] == b[0]);
        assert forall|i: int| 0 <= i < k - 1 implies a.drop_first()[i] == b.drop_first()[i] by {
            assert(a[i + 1] == b[i + 1]);
        }
        lemma_lex_le_at_first_difference(a.drop_first(), b.drop_first(), k - 1);
    }
}

/// The identifier of a pair puts the bytes of the asset that sorts first
/// first: if the two assets' bytes agree up to index `k`, and there the
/// first one ends or has the smaller byte, the identifier is the first
/// asset's bytes followed by the second's.
pub proof fn law_pair_id_puts_smaller_first(assets: [TokenInfo; 2], k: int)
    requires
        0 <= k <= asset_bytes(assets@[0]@).len(),
        k <= asset_bytes(assets@[1]@).len(),
        forall|i: int| 0 <= i < k ==> asset_bytes(assets@[0]@)[i] == asset_bytes(assets@[1]@)[i],
        k == asset_bytes(assets@[0]@).len() || (k < asset_bytes(assets@[1]@).len() && asset_bytes(
            assets@[0]@,
        )[k] < asset_bytes(assets@[1]@)[k]),
    ensures
        pool_key(assets@) == asset_bytes(assets@[0]@) + asset_bytes(assets@[1]@),
{
    lemma_lex_le_at_first_difference(asset_bytes(assets@[0]@), asset_bytes(assets@[1]@), k);
}

/// The identifier of a pair does not depend on the order in which its two
/// assets are given: `[a, b]` and `[b, a]` are registered, refused and
/// looked up under the same identifier.
pub proof fn law_pair_id_ignores_order(assets: [TokenInfo; 2], swapped: [TokenInfo; 2])
    requires
        swapped@[0]@ == assets@[1]@,
        swapped@[1]@ == assets@[0]@,
    ensures
        pool_key(swapped@) == pool_key(assets@),
{
    let a = asset_bytes(assets@[0]@);
    let b = asset_bytes(assets@[1]@);
    lemma_lex_total(a, b);
    if lex_le(a, b) && lex_le(b, a) {
        lemma_lex_antisymmetric(a, b);
    }
}

/// A pair created for `[a, b]` and registered once its contract exists is
/// recorded under the identifier that a lookup of `[a, b]` or of `[b, a]`
/// computes: the registration is found in either order, and a second
/// creation in either order finds the pair and is refused.
pub proof fn law_registered_pair_found_in_either_order(
    assets: [TokenInfo; 2],
    swapped: [TokenInfo; 2],
    creation: PairCreation,
    registration: PoolRegistration,
)
    requires
        swapped@[0]@ == assets@[1]@,
        swapped@[1]@ == assets@[0]@,
        creation.temp.pool_id@ == pool_key(assets@),
        registration.pool_id == creation.temp.pool_id,
    ensures
        registration.pool_id@ == pool_key(assets@),
        registration.pool_id@ == pool_key(swapped@),
{
    law_pair_id_ignores_order(assets, swapped);
}

/// The factory's migration message; it carries nothing.
#[derive(Debug, Clone, Copy, PartialEq, Eq, Structural)]
pub struct MigrateMsg {}

} // verus!
