//! Hyperliquid info endpoint: request and response payloads, and the pairing
//! of perpetual assets with their market data.
use vstd::prelude::*;
use crate::text::{eq_str, join2, owned};

verus! {

#[derive(Debug, Clone)]
pub struct UserOrder {
    pub asset: String,
    pub is_buy: bool,
    pub limit_px: String,
    pub sz: String,
    pub oid: u64,
    pub timestamp: u64,
    pub order_type: String,
    pub reduce_only: bool,
}

#[derive(Debug, Clone)]
pub struct FundingHistory {
    pub asset: String,
    pub time: u64,
    pub funding_rate: String,
    pub payment: String,
    pub position_size: String,
}

#[derive(Debug, Clone)]
pub struct HistoricalFundingRate {
    pub coin: String,
    pub funding_rate: String,
    pub premium: String,
    pub time: u64,
}

#[derive(Debug, Clone)]
pub struct SpotBalance {
    pub coin: String,
    pub token: u32,
    pub hold: String,
    pub total: String,
    pub entry_ntl: String,
}

#[derive(Debug, Clone)]
pub struct SpotClearinghouseState {
    pub balances: Vec<SpotBalance>,
}

#[derive(Debug, Clone)]
pub struct UserPerpetualsState {
    pub asset_positions: Vec<AssetPosition>,
    pub cross_maintenance_margin_used: String,
    pub cross_margin_summary: CrossMarginSummary,
    pub withdrawable: String,
}

#[derive(Debug, Clone)]
pub struct AssetPosition {
    pub position: Position,
    pub position_type: String,
}

#[derive(Debug, Clone)]
pub struct Position {
    pub coin: String,
    pub entry_px: Option<String>,
    pub leverage: Leverage,
    pub liquidation_px: Option<String>,
    pub margin_used: String,
    pub max_leverage: u32,
    pub position_value: String,
    pub return_on_equity: String,
    pub szi: String,
    pub unrealized_pnl: String,
}

#[derive(Debug, Clone)]
pub struct Leverage {
    pub leverage_type: String,
    pub value: u32,
}

#[derive(Debug, Clone)]
pub struct CrossMarginSummary {
    pub account_value: String,
    pub total_margin_used: String,
    pub total_ntl_pos: String,
    pub total_raw_usd: String,
}

#[derive(Debug, Clone)]
pub struct InfoApiRequest {
    pub typ: String,
}

#[derive(Debug, Clone)]
pub struct MetaAndAssetCtxs(pub Universe, pub Vec<MarketData>);

#[derive(Debug, Clone)]
pub struct Universe {
    pub universe: Vec<Asset>,
}

#[derive(Debug, Clone)]
pub struct Asset {
    pub name: String,
    pub sz_decimals: u8,
    pub max_leverage: u32,
    pub only_isolated: Option<bool>,
}

#[derive(Debug, Clone)]
pub struct MarketData {
    pub day_notional_volume: Option<String>,
    pub funding: Option<String>,
    pub impact_prices: Option<Vec<String>>,
    pub mark_price: Option<String>,
    pub mid_price: Option<String>,
    pub open_interest: Option<String>,
    pub oracle_price: Option<String>,
    pub premium: Option<String>,
    pub prev_day_price: Option<String>,
}

#[derive(Debug, Clone)]
pub struct AssetInfo {
    pub asset: Asset,
    pub market_data: MarketData,
}

#[derive(Debug, Clone)]
pub struct SpotMetaAndAssetCtxs(pub SpotMeta, pub Vec<SpotMarketData>);

#[derive(Debug, Clone)]
pub struct SpotMeta {
    pub tokens: Vec<SpotToken>,
    pub universe: Vec<SpotAsset>,
}

#[derive(Debug, Clone)]
pub struct SpotToken {
    pub name: String,
    pub sz_decimals: u8,
    pub wei_decimals: u8,
    pub index: u32,
    pub token_id: String,
    pub is_canonical: bool,
    pub evm_contract: Option<EvmContract>,
    pub full_name: Option<String>,
}

#[derive(Debug, Clone)]
pub struct EvmContract {
    pub address: String,
    pub evm_extra_wei_decimals: i8,
}

#[derive(Debug, Clone)]
pub struct SpotAsset {
    pub name: String,
    pub tokens: Vec<u32>,
    pub index: u32,
    pub is_canonical: bool,
}

#[derive(Debug, Clone)]
pub struct SpotMarketData {
    pub day_notional_volume: String,
    pub mark_price: String,
    pub mid_price: Option<String>,
    pub prev_day_price: String,
    pub circulating_supply: String,
    pub coin: String,
    pub total_supply: String,
    pub day_base_volume: String,
    pub tokens: Vec<u32>,
}

#[derive(Debug, Clone)]
pub struct InfoApi {
    base_url: String,
}

impl MetaAndAssetCtxs {
    /// The perpetual assets listed.
    pub open spec fn assets(&self) -> Seq<Asset> {
        match self {
            MetaAndAssetCtxs(u, _) => u.universe@,
        }
    }

    /// The market data listed, in the order of the assets.
    pub open spec fn contexts(&self) -> Seq<MarketData> {
        match self {
            MetaAndAssetCtxs(_, c) => c@,
        }
    }
}

/// Each asset with the market data at the same position, for the positions
/// both lists have.
pub open spec fn paired_assets(assets: Seq<Asset>, contexts: Seq<MarketData>) -> Seq<AssetInfo> {
    let n = if assets.len() <= contexts.len() { assets.len() } else { contexts.len() };
    Seq::new(n, |i: int| AssetInfo { asset: assets[i], market_data: contexts[i] })
}

impl View for InfoApi {
    type V = Seq<char>;

    /// The base URL requests go to.
    closed spec fn view(&self) -> Seq<char> {
        self.base_url@
    }
}

impl InfoApi {
    /// A client of the info endpoint at `base_url`, by default the
    /// production one.
    pub fn new(base_url: Option<String>) -> (r: Self)
        ensures
            r@ == match base_url {
                Some(u) => u@,
                None => "https://api.hyperliquid.xyz"@,
            },
    {
        let base_url = match base_url {
            Some(u) => u,
            None => owned("https://api.hyperliquid.xyz"),
        };
        InfoApi { base_url }
    }

    pub fn production() -> (r: Self)
        ensures
            r@ == "https://api.hyperliquid.xyz"@,
    {
        Self::new(None)
    }

    pub fn testnet() -> (r: Self)
        ensures
            r@ == "https://api.hyperliquid-testnet.xyz"@,
    {
        Self::new(Some(owned("https://api.hyperliquid-testnet.xyz")))
    }

    /// The URL every info request is posted to.
    pub fn info_url(&self) -> (r: String)
        ensures
            r@ == self@ + "/info"@,
    {
        join2(self.base_url.as_str(), "/info")
    }

    /// The base URL requests go to.
    pub fn base_url(&self) -> (r: &str)
        ensures
            r@ == self@,
    {
        self.base_url.as_str()
    }

    /// The assets of a `metaAndAssetCtxs` answer, each with its market data,
    /// in order; keyed by name they form the perpetuals' info.
    pub fn assets_from_meta(meta: MetaAndAssetCtxs) -> (r: Vec<AssetInfo>)
        ensures
            r@ == paired_assets(meta.assets(), meta.contexts()),
    {
        let ghost a0 = meta.assets();
        let ghost c0 = meta.contexts();
        let MetaAndAssetCtxs(universe, contexts) = meta;
        let mut assets = universe.universe;
        let mut contexts = contexts;
        let mut out: Vec<AssetInfo> = Vec::new();
        let ghost mut k: int = 0;
        while assets.len() > 0 && contexts.len() > 0
            invariant
                0 <= k,
                k + assets@.len() == a0.len(),
                k + contexts@.len() == c0.len(),
                assets@ == a0.subrange(k, a0.len() as int),
                contexts@ == c0.subrange(k, c0.len() as int),
                out@ == paired_assets(a0, c0).subrange(0, k),
            decreases assets.len(),
        {
            let a = assets.remove(0);
            let c = contexts.remove(0);
            out.push(AssetInfo { asset: a, market_data: c });
            proof {
                k = k + 1;
                assert(out@ =~= paired_assets(a0, c0).subrange(0, k));
                assert(assets@ =~= a0.subrange(k, a0.len() as int));
                assert(contexts@ =~= c0.subrange(k, c0.len() as int));
            }
        }
        assert(out@ =~= paired_assets(a0, c0));
        out
    }
}

/// The text of an optional string field, or `default` when it is absent.
pub open spec fn text_or(field: Option<String>, default: Seq<char>) -> Seq<char> {
    match field {
        Some(s) => s@,
        None => default,
    }
}

fn take_or(field: Option<String>, default: &str) -> (r: String)
    ensures
        r@ == text_or(field, default@),
{
    match field {
        Some(s) => s,
        None => owned(default),
    }
}

/// The fields of one entry of a `userFunding` answer, each absent when the
/// entry lacks it or holds it with another JSON type.
#[derive(Debug, Clone)]
pub struct FundingFields {
    pub asset: Option<String>,
    pub time: Option<u64>,
    pub funding_rate: Option<String>,
    pub payment: Option<String>,
    pub position_size: Option<String>,
}

/// The fields of one entry of an `openOrders` answer that did not read as a
/// whole order, each absent when the entry lacks it or holds it with another
/// JSON type.
#[derive(Debug, Clone)]
pub struct OrderFields {
    pub coin: Option<String>,
    pub side: Option<String>,
    pub limit_px: Option<String>,
    pub sz: Option<String>,
    pub oid: Option<u64>,
    pub timestamp: Option<u64>,
}

impl FundingHistory {
    /// A funding entry from its fields, a missing one taken as the empty
    /// asset, time 0, or the text `0`.
    pub fn from_fields(f: FundingFields) -> (r: FundingHistory)
        ensures
            r.asset@ == text_or(f.asset, ""@),
            r.time == match f.time { Some(t) => t, None => 0 },
            r.funding_rate@ == text_or(f.funding_rate, "0"@),
            r.payment@ == text_or(f.payment, "0"@),
            r.position_size@ == text_or(f.position_size, "0"@),
    {
        FundingHistory {
            asset: take_or(f.asset, ""),
            time: match f.time { Some(t) => t, None => 0 },
            funding_rate: take_or(f.funding_rate, "0"),
            payment: take_or(f.payment, "0"),
            position_size: take_or(f.position_size, "0"),
        }
    }
}

impl UserOrder {
    /// An order from its fields: a buy when its side is `B`, a limit order
    /// that does not only reduce, a missing field taken as the empty coin,
    /// the text `0`, or 0.
    pub fn from_fields(f: OrderFields) -> (r: UserOrder)
        ensures
            r.asset@ == text_or(f.coin, ""@),
            r.is_buy == (f.side matches Some(s) && s@ == "B"@),
            r.limit_px@ == text_or(f.limit_px, "0"@),
            r.sz@ == text_or(f.sz, "0"@),
            r.oid == match f.oid { Some(t) => t, None => 0 },
            r.timestamp == match f.timestamp { Some(t) => t, None => 0 },
            r.order_type@ == "limit"@,
            !r.reduce_only,
    {
        let is_buy = match &f.side {
            Some(s) => eq_str(s, "B"),
            None => false,
        };
        UserOrder {
            asset: take_or(f.coin, ""),
            is_buy,
            limit_px: take_or(f.limit_px, "0"),
            sz: take_or(f.sz, "0"),
            oid: match f.oid { Some(t) => t, None => 0 },
            timestamp: match f.timestamp { Some(t) => t, None => 0 },
            order_type: owned("limit"),
            reduce_only: false,
        }
    }
}

/// The position of the last market-data entry whose coin is `name`.
pub open spec fn last_market_of(contexts: Seq<SpotMarketData>, name: Seq<char>) -> Option<int>
    decreases contexts.len(),
{
    if contexts.len() == 0 {
        None
    } else if contexts.last().coin@ == name {
        Some(contexts.len() - 1)
    } else {
        last_market_of(contexts.drop_last(), name)
    }
}

/// The spot pairs that have market data, in the universe's order: each
/// pair's name with the position of its (last) market-data entry.
pub open spec fn spot_matches(universe: Seq<SpotAsset>, contexts: Seq<SpotMarketData>) -> Seq<(Seq<char>, int, Seq<u32>)>
    decreases universe.len(),
{
    if universe.len() == 0 {
        Seq::empty()
    } else {
        let rest = spot_matches(universe.drop_last(), contexts);
        let a = universe.last();
        match last_market_of(contexts, a.name@) {
            Some(i) => rest.push((a.name@, i, a.tokens@)),
            None => rest,
        }
    }
}

/// Whether `d` is the market data `c` with the tokens `tokens`.
pub open spec fn same_market_with_tokens(d: SpotMarketData, c: SpotMarketData, tokens: Seq<u32>) -> bool {
    &&& d.day_notional_volume@ == c.day_notional_volume@
    &&& d.mark_price@ == c.mark_price@
    &&& (match (d.mid_price, c.mid_price) {
        (Some(x), Some(y)) => x@ == y@,
        (None, None) => true,
        _ => false,
    })
    &&& d.prev_day_price@ == c.prev_day_price@
    &&& d.circulating_supply@ == c.circulating_supply@
    &&& d.coin@ == c.coin@
    &&& d.total_supply@ == c.total_supply@
    &&& d.day_base_volume@ == c.day_base_volume@
    &&& d.tokens@ == tokens
}

proof fn lemma_last_market_in_range(contexts: Seq<SpotMarketData>, name: Seq<char>)
    ensures
        last_market_of(contexts, name) matches Some(i) ==> 0 <= i < contexts.len() && contexts[i].coin@ == name,
    decreases contexts.len(),
{
    if contexts.len() > 0 && contexts.last().coin@ != name {
        lemma_last_market_in_range(contexts.drop_last(), name);
    }
}

fn copy_u32s(v: &Vec<u32>) -> (r: Vec<u32>)
    ensures
        r@ == v@,
{
    let mut out: Vec<u32> = Vec::new();
    let mut i: usize = 0;
    while i < v.len()
        invariant
            i <= v.len(),
            out@ == v@.take(i as int),
        decreases v.len() - i,
    {
        out.push(v[i]);
        assert(v@.take(i + 1) =~= v@.take(i as int).push(v@[i as int]));
        i = i + 1;
    }
    assert(v@.take(i as int) =~= v@);
    out
}

fn find_last_market(contexts: &Vec<SpotMarketData>, name: &String) -> (r: Option<usize>)
    ensures
        match (r, last_market_of(contexts@, name@)) {
            (Some(i), Some(j)) => i == j,
            (None, None) => true,
            _ => false,
        },
{
    let mut i: usize = contexts.len();
    assert(contexts@.take(i as int) =~= contexts@);
    while i > 0
        invariant
            i <= contexts@.len(),
            last_market_of(contexts@, name@) == last_market_of(contexts@.take(i as int), name@),
        decreases i,
    {
        let ghost pre = contexts@.take(i as int);
        assert(pre.drop_last() =~= contexts@.take(i - 1));
        if contexts[i - 1].coin == *name {
            return Some(i - 1);
        }
        i = i - 1;
    }
    None
}

fn market_with_tokens(c: &SpotMarketData, tokens: &Vec<u32>) -> (r: SpotMarketData)
    ensures
        same_market_with_tokens(r, *c, tokens@),
{
    SpotMarketData {
        day_notional_volume: c.day_notional_volume.clone(),
        mark_price: c.mark_price.clone(),
        mid_price: match &c.mid_price {
            Some(m) => Some(m.clone()),
            None => None,
        },
        prev_day_price: c.prev_day_price.clone(),
        circulating_supply: c.circulating_supply.clone(),
        coin: c.coin.clone(),
        total_supply: c.total_supply.clone(),
        day_base_volume: c.day_base_volume.clone(),
        tokens: copy_u32s(tokens),
    }
}

impl SpotMetaAndAssetCtxs {
    /// The spot pairs listed.
    pub open spec fn pairs(&self) -> Seq<SpotAsset> {
        match self {
            SpotMetaAndAssetCtxs(m, _) => m.universe@,
        }
    }

    /// The market data listed.
    pub open spec fn markets(&self) -> Seq<SpotMarketData> {
        match self {
            SpotMetaAndAssetCtxs(_, c) => c@,
        }
    }
}

impl InfoApi {
    /// The spot pairs of a `spotMetaAndAssetCtxs` answer that have market
    /// data, in the universe's order, each named and with the last market
    /// data of its coin, its tokens taken from the pair; keyed by name they
    /// form the spot info.
    pub fn spot_markets_from_meta(meta: &SpotMetaAndAssetCtxs) -> (r: Vec<(String, SpotMarketData)>)
        ensures
            r@.len() == spot_matches(meta.pairs(), meta.markets()).len(),
            forall|k: int| 0 <= k < r@.len() ==> {
                let (name, i, tokens) = #[trigger] spot_matches(meta.pairs(), meta.markets())[k];
                &&& r@[k].0@ == name
                &&& same_market_with_tokens(r@[k].1, meta.markets()[i], tokens)
            },
    {
        let SpotMetaAndAssetCtxs(m, contexts) = meta;
        let universe = &m.universe;
        let ghost markets = contexts@;
        let mut out: Vec<(String, SpotMarketData)> = Vec::new();
        let mut j: usize = 0;
        while j < universe.len()
            invariant
                j <= universe@.len(),
                universe@ == meta.pairs(),
                markets == meta.markets(),
                contexts@ == markets,
                out@.len() == spot_matches(universe@.take(j as int), markets).len(),
                forall|k: int| 0 <= k < out@.len() ==> {
                    let (name, i, tokens) = #[trigger] spot_matches(universe@.take(j as int), markets)[k];
                    &&& out@[k].0@ == name
                    &&& same_market_with_tokens(out@[k].1, markets[i], tokens)
                },
            decreases universe@.len() - j,
        {
            let ghost before = spot_matches(universe@.take(j as int), markets);
            let ghost next = universe@.take(j + 1);
            assert(next.drop_last() =~= universe@.take(j as int));
            let a = &universe[j];
            match find_last_market(contexts, &a.name) {
                Some(i) => {
                    proof { lemma_last_market_in_range(markets, a.name@); }
                    let d = market_with_tokens(&contexts[i], &a.tokens);
                    out.push((a.name.clone(), d));
                    assert(spot_matches(next, markets) == before.push((a.name@, i as int, a.tokens@)));
                },
                None => {
                    assert(spot_matches(next, markets) == before);
                },
            }
            j = j + 1;
        }
        assert(universe@.take(j as int) =~= universe@);
        out
    }
}

} // verus!
