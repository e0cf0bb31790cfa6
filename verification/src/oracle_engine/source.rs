//! Price sources (centralized exchanges), the updates they produce, and the
//! mapping of each exchange's symbols to supported assets.

use vstd::prelude::*;
use vstd::string::{StringExecFns, StringSliceAdditionalSpecFns};

use core::time::Duration;

use crate::oracle_engine::json::{
    JsonValue,
    get,
    get_number_text,
    get_str,
    json_document,
    json_get,
    json_number,
    json_str,
    parse_json,
    text_eq,
};
use crate::oracle_engine::price_parse::{parse_price_checked, price_of_text};
use crate::primitives::asset::AssetId;
use crate::word::{U256, bytes_equal};

verus! {

/// Identifies a price data source (CEX).
#[derive(Debug, Clone, Copy, PartialEq, Eq, Structural, Hash)]
pub enum SourceId {
    /// Binance: global highest volume.
    Binance,
    /// Coinbase: USD pair reference.
    Coinbase,
    /// OKX: Asia coverage.
    Okx,
    /// Bybit: derivatives reflection.
    Bybit,
    /// Kraken: Europe coverage.
    Kraken,
}

/// All sources, in order.
pub open spec fn all_sources() -> Seq<SourceId> {
    seq![SourceId::Binance, SourceId::Coinbase, SourceId::Okx, SourceId::Bybit, SourceId::Kraken]
}

impl SourceId {
    /// The source's number (`source as u8`): 0 to 4 in declaration order.
    pub open spec fn code(self) -> u8 {
        match self {
            SourceId::Binance => 0,
            SourceId::Coinbase => 1,
            SourceId::Okx => 2,
            SourceId::Bybit => 3,
            SourceId::Kraken => 4,
        }
    }

    /// The source's number (`source as u8`).
    pub fn as_u8(self) -> (r: u8)
        ensures
            r == self.code(),
    {
        match self {
            SourceId::Binance => 0,
            SourceId::Coinbase => 1,
            SourceId::Okx => 2,
            SourceId::Bybit => 3,
            SourceId::Kraken => 4,
        }
    }

    /// All sources in order.
    pub fn all() -> (r: [SourceId; 5])
        ensures
            r@ == all_sources(),
    {
        let r = [SourceId::Binance, SourceId::Coinbase, SourceId::Okx, SourceId::Bybit, SourceId::Kraken];
        assert(r@ =~= all_sources());
        r
    }

    /// Returns the `WebSocket` endpoint URL.
    pub fn ws_url(&self) -> (r: &'static str)
        ensures
            r@ == match self {
                SourceId::Binance => "wss://stream.binance.com:9443/ws"@,
                SourceId::Coinbase => "wss://ws-feed.exchange.coinbase.com"@,
                SourceId::Okx => "wss://ws.okx.com:8443/ws/v5/public"@,
                SourceId::Bybit => "wss://stream.bybit.com/v5/public/spot"@,
                SourceId::Kraken => "wss://ws.kraken.com/v2"@,
            },
    {
        match self {
            SourceId::Binance => "wss://stream.binance.com:9443/ws",
            SourceId::Coinbase => "wss://ws-feed.exchange.coinbase.com",
            SourceId::Okx => "wss://ws.okx.com:8443/ws/v5/public",
            SourceId::Bybit => "wss://stream.bybit.com/v5/public/spot",
            SourceId::Kraken => "wss://ws.kraken.com/v2",
        }
    }

    /// The display name of the source.
    pub fn name(&self) -> (r: &'static str)
        ensures
            r@ == match self {
                SourceId::Binance => "Binance"@,
                SourceId::Coinbase => "Coinbase"@,
                SourceId::Okx => "OKX"@,
                SourceId::Bybit => "Bybit"@,
                SourceId::Kraken => "Kraken"@,
            },
    {
        match self {
            SourceId::Binance => "Binance",
            SourceId::Coinbase => "Coinbase",
            SourceId::Okx => "OKX",
            SourceId::Bybit => "Bybit",
            SourceId::Kraken => "Kraken",
        }
    }
}

/// A single price update from a source.
#[derive(Debug, Clone, Copy)]
pub struct PriceUpdate {
    /// Which source produced this update.
    pub source: SourceId,
    /// Asset this price is for.
    pub asset: AssetId,
    /// Price in 8-decimal USD representation.
    pub price: U256,
    /// Unix timestamp of when this price was observed (seconds).
    pub timestamp: u64,
}

/// Message sent from a source connector to the engine.
#[derive(Debug, Clone, Copy)]
pub enum SourceMessage {
    /// A price update from a source.
    Price(PriceUpdate),
    /// Source disconnected (will attempt reconnect).
    Disconnected(SourceId),
    /// Source reconnected.
    Connected(SourceId),
}

/// A duration of whole seconds, as `Duration::from_secs` makes it.
pub uninterp spec fn whole_seconds(secs: u64) -> Duration;

/// `Duration::from_secs`. Claimed: the result is a function of `secs` alone,
/// named `whole_seconds`.
#[verifier::external_body]
fn duration_from_secs(secs: u64) -> (d: Duration)
    ensures
        d == whole_seconds(secs),
{
    Duration::from_secs(secs)
}

/// Configuration for a source connector.
#[derive(Debug, Clone, Copy)]
pub struct Source {
    /// Source identifier.
    pub id: SourceId,
    /// Maximum reconnection backoff duration.
    pub max_backoff: Duration,
}

impl Source {
    /// Creates a new source with the default backoff of 30 seconds.
    pub fn new(id: SourceId) -> (r: Source)
        ensures
            r.id == id,
            r.max_backoff == whole_seconds(30),
    {
        Source { id, max_backoff: duration_from_secs(30) }
    }
}

/// The first wait before a reconnect, and the wait after a clean disconnect,
/// in milliseconds.
pub const INITIAL_BACKOFF_MILLIS: u64 = 500;

/// The wait before the next reconnect: twice the last one, at most `max`
/// (milliseconds).
pub fn next_backoff_millis(current: u64, max: u64) -> (r: u64)
    ensures
        r == if 2 * current <= max {
            2 * current
        } else {
            max as int
        },
{
    if current <= max / 2 {
        current * 2
    } else {
        max
    }
}

/// The items, each between `pre` and `post`, separated by commas.
pub open spec fn listing(items: Seq<Seq<char>>, pre: Seq<char>, post: Seq<char>) -> Seq<char>
    decreases items.len(),
{
    if items.len() == 0 {
        Seq::empty()
    } else if items.len() == 1 {
        pre + items[0] + post
    } else {
        listing(items.drop_last(), pre, post) + seq![','] + pre + items.last() + post
    }
}

/// The symbols a source subscribes to, in asset order.
pub open spec fn subscription_symbols(id: SourceId) -> Seq<Seq<char>> {
    match id {
        SourceId::Binance => seq![
            "btcusdt"@,
            "ethusdt"@,
            "solusdt"@,
            "usdcusdt"@,
            "fdusdusdt"@,
            "daiusdt"@,
        ],
        SourceId::Coinbase => seq![
            "BTC-USD"@,
            "ETH-USD"@,
            "SOL-USD"@,
            "USDC-USD"@,
            "USDT-USD"@,
            "DAI-USD"@,
        ],
        SourceId::Okx => seq![
            "BTC-USDT"@,
            "ETH-USDT"@,
            "SOL-USDT"@,
            "USDC-USDT"@,
            "USDT-USDC"@,
            "DAI-USDT"@,
        ],
        SourceId::Bybit => seq![
            "BTCUSDT"@,
            "ETHUSDT"@,
            "SOLUSDT"@,
            "USDCUSDT"@,
            "USDTDAI"@,
            "DAIUSDT"@,
        ],
        SourceId::Kraken => seq![
            "BTC/USD"@,
            "ETH/USD"@,
            "SOL/USD"@,
            "USDC/USD"@,
            "USDT/USD"@,
            "DAI/USD"@,
        ],
    }
}

/// The subscription message a source sends once connected.
pub open spec fn subscription_text(id: SourceId) -> Seq<char> {
    let syms = subscription_symbols(id);
    match id {
        SourceId::Binance => "{\"method\":\"SUBSCRIBE\",\"params\":["@ + listing(
            syms,
            "\""@,
            "@trade\""@,
        ) + "],\"id\":1}"@,
        SourceId::Coinbase => "{\"type\":\"subscribe\",\"channels\":[\"ticker\"],\"product_ids\":["@
            + listing(syms, "\""@, "\""@) + "]}"@,
        SourceId::Okx => "{\"op\":\"subscribe\",\"args\":["@ + listing(
            syms,
            "{\"channel\":\"tickers\",\"instId\":\""@,
            "\"}"@,
        ) + "]}"@,
        SourceId::Bybit => "{\"op\":\"subscribe\",\"args\":["@ + listing(
            syms,
            "\"tickers."@,
            "\""@,
        ) + "]}"@,
        SourceId::Kraken => "{\"method\":\"subscribe\",\"params\":{\"channel\":\"ticker\",\"symbol\":["@
            + listing(syms, "\""@, "\""@) + "]}}"@,
    }
}

/// The symbols a source subscribes to.
fn subscription_symbol_table(id: SourceId) -> (r: [&'static str; 6])
    ensures
        seq![r[0]@, r[1]@, r[2]@, r[3]@, r[4]@, r[5]@] == subscription_symbols(id),
{
    match id {
        SourceId::Binance => ["btcusdt", "ethusdt", "solusdt", "usdcusdt", "fdusdusdt", "daiusdt"],
        SourceId::Coinbase => ["BTC-USD", "ETH-USD", "SOL-USD", "USDC-USD", "USDT-USD", "DAI-USD"],
        SourceId::Okx => ["BTC-USDT", "ETH-USDT", "SOL-USDT", "USDC-USDT", "USDT-USDC", "DAI-USDT"],
        SourceId::Bybit => ["BTCUSDT", "ETHUSDT", "SOLUSDT", "USDCUSDT", "USDTDAI", "DAIUSDT"],
        SourceId::Kraken => ["BTC/USD", "ETH/USD", "SOL/USD", "USDC/USD", "USDT/USD", "DAI/USD"],
    }
}

/// Appends the listing of six items.
fn append_listing(out: &mut String, items: [&str; 6], pre: &str, post: &str)
    ensures
        final(out)@ == old(out)@ + listing(
            seq![items[0]@, items[1]@, items[2]@, items[3]@, items[4]@, items[5]@],
            pre@,
            post@,
        ),
{
    let ghost all = seq![items[0]@, items[1]@, items[2]@, items[3]@, items[4]@, items[5]@];
    let ghost start = out@;
    let mut i: usize = 0;
    assert(all.subrange(0, 0) =~= Seq::<Seq<char>>::empty());
    while i < 6
        invariant
            i <= 6,
            all == seq![items[0]@, items[1]@, items[2]@, items[3]@, items[4]@, items[5]@],
            out@ == start + listing(all.subrange(0, i as int), pre@, post@),
        decreases 6 - i,
    {
        let ghost next = all.subrange(0, i + 1);
        assert(next.drop_last() =~= all.subrange(0, i as int));
        assert(next.last() == items[i as int]@);
        if i > 0 {
            out.append(",");
            proof {
                reveal_strlit(",");
            }
        }
        out.append(pre);
        out.append(items[i]);
        out.append(post);
        proof {
            if i == 0 {
                assert(out@ =~= start + listing(next, pre@, post@));
            } else {
                assert(","@ =~= seq![',']);
                assert(out@ =~= start + listing(next, pre@, post@));
            }
        }
        i += 1;
    }
    assert(all.subrange(0, 6) =~= all);
}

/// Builds the exchange-specific subscription message.
pub fn build_subscribe_message(id: SourceId) -> (r: String)
    ensures
        r@ == subscription_text(id),
{
    let syms = subscription_symbol_table(id);
    let mut out = String::new();
    match id {
        SourceId::Binance => {
            out.append("{\"method\":\"SUBSCRIBE\",\"params\":[");
            append_listing(&mut out, syms, "\"", "@trade\"");
            out.append("],\"id\":1}");
        },
        SourceId::Coinbase => {
            out.append("{\"type\":\"subscribe\",\"channels\":[\"ticker\"],\"product_ids\":[");
            append_listing(&mut out, syms, "\"", "\"");
            out.append("]}");
        },
        SourceId::Okx => {
            out.append("{\"op\":\"subscribe\",\"args\":[");
            append_listing(&mut out, syms, "{\"channel\":\"tickers\",\"instId\":\"", "\"}");
            out.append("]}");
        },
        SourceId::Bybit => {
            out.append("{\"op\":\"subscribe\",\"args\":[");
            append_listing(&mut out, syms, "\"tickers.", "\"");
            out.append("]}");
        },
        SourceId::Kraken => {
            out.append("{\"method\":\"subscribe\",\"params\":{\"channel\":\"ticker\",\"symbol\":[");
            append_listing(&mut out, syms, "\"", "\"");
            out.append("]}}");
        },
    }
    out
}

/// The asset of a symbol among six, listed in asset order (BTC, ETH, SOL,
/// USDC, USDT, DAI).
pub open spec fn asset_among(sym: Seq<u8>, names: Seq<Seq<u8>>) -> Option<AssetId> {
    if sym == names[0] {
        Some(AssetId::BTC)
    } else if sym == names[1] {
        Some(AssetId::ETH)
    } else if sym == names[2] {
        Some(AssetId::SOL)
    } else if sym == names[3] {
        Some(AssetId::USDC)
    } else if sym == names[4] {
        Some(AssetId::USDT)
    } else if sym == names[5] {
        Some(AssetId::DAI)
    } else {
        None
    }
}

/// Binance trade symbols, in asset order (`FDUSDUSDT` stands for USDT).
pub open spec fn binance_names() -> Seq<Seq<u8>> {
    seq![
        "BTCUSDT".spec_bytes(),
        "ETHUSDT".spec_bytes(),
        "SOLUSDT".spec_bytes(),
        "USDCUSDT".spec_bytes(),
        "FDUSDUSDT".spec_bytes(),
        "DAIUSDT".spec_bytes(),
    ]
}

/// Coinbase product ids, in asset order.
pub open spec fn coinbase_names() -> Seq<Seq<u8>> {
    seq![
        "BTC-USD".spec_bytes(),
        "ETH-USD".spec_bytes(),
        "SOL-USD".spec_bytes(),
        "USDC-USD".spec_bytes(),
        "USDT-USD".spec_bytes(),
        "DAI-USD".spec_bytes(),
    ]
}

/// OKX instrument ids, in asset order (`USDT-USDC` stands for USDT).
pub open spec fn okx_names() -> Seq<Seq<u8>> {
    seq![
        "BTC-USDT".spec_bytes(),
        "ETH-USDT".spec_bytes(),
        "SOL-USDT".spec_bytes(),
        "USDC-USDT".spec_bytes(),
        "USDT-USDC".spec_bytes(),
        "DAI-USDT".spec_bytes(),
    ]
}

/// Bybit symbols, in asset order (`USDTDAI` stands for USDT).
pub open spec fn bybit_names() -> Seq<Seq<u8>> {
    seq![
        "BTCUSDT".spec_bytes(),
        "ETHUSDT".spec_bytes(),
        "SOLUSDT".spec_bytes(),
        "USDCUSDT".spec_bytes(),
        "USDTDAI".spec_bytes(),
        "DAIUSDT".spec_bytes(),
    ]
}

/// Kraken pairs, in asset order.
pub open spec fn kraken_names() -> Seq<Seq<u8>> {
    seq![
        "BTC/USD".spec_bytes(),
        "ETH/USD".spec_bytes(),
        "SOL/USD".spec_bytes(),
        "USDC/USD".spec_bytes(),
        "USDT/USD".spec_bytes(),
        "DAI/USD".spec_bytes(),
    ]
}

/// The asset of a symbol among six names given in asset order.
fn match_asset(s: &str, names: [&str; 6]) -> (r: Option<AssetId>)
    ensures
        r == asset_among(
            s.spec_bytes(),
            seq![
                names[0].spec_bytes(),
                names[1].spec_bytes(),
                names[2].spec_bytes(),
                names[3].spec_bytes(),
                names[4].spec_bytes(),
                names[5].spec_bytes(),
            ],
        ),
{
    let b = s.as_bytes();
    if bytes_equal(b, names[0].as_bytes()) {
        Some(AssetId::BTC)
    } else if bytes_equal(b, names[1].as_bytes()) {
        Some(AssetId::ETH)
    } else if bytes_equal(b, names[2].as_bytes()) {
        Some(AssetId::SOL)
    } else if bytes_equal(b, names[3].as_bytes()) {
        Some(AssetId::USDC)
    } else if bytes_equal(b, names[4].as_bytes()) {
        Some(AssetId::USDT)
    } else if bytes_equal(b, names[5].as_bytes()) {
        Some(AssetId::DAI)
    } else {
        None
    }
}

/// Maps a Binance trade symbol to an asset.
pub fn map_binance_symbol(s: &str) -> (r: Option<AssetId>)
    ensures
        r == asset_among(s.spec_bytes(), binance_names()),
{
    match_asset(s, ["BTCUSDT", "ETHUSDT", "SOLUSDT", "USDCUSDT", "FDUSDUSDT", "DAIUSDT"])
}

/// Maps a Coinbase product id to an asset.
pub fn map_coinbase_product(s: &str) -> (r: Option<AssetId>)
    ensures
        r == asset_among(s.spec_bytes(), coinbase_names()),
{
    match_asset(s, ["BTC-USD", "ETH-USD", "SOL-USD", "USDC-USD", "USDT-USD", "DAI-USD"])
}

/// Maps an OKX instrument id to an asset.
pub fn map_okx_inst(s: &str) -> (r: Option<AssetId>)
    ensures
        r == asset_among(s.spec_bytes(), okx_names()),
{
    match_asset(s, ["BTC-USDT", "ETH-USDT", "SOL-USDT", "USDC-USDT", "USDT-USDC", "DAI-USDT"])
}

/// Maps a Bybit symbol to an asset.
pub fn map_bybit_symbol(s: &str) -> (r: Option<AssetId>)
    ensures
        r == asset_among(s.spec_bytes(), bybit_names()),
{
    match_asset(s, ["BTCUSDT", "ETHUSDT", "SOLUSDT", "USDCUSDT", "USDTDAI", "DAIUSDT"])
}

/// Maps a Kraken pair to an asset.
pub fn map_kraken_pair(s: &str) -> (r: Option<AssetId>)
    ensures
        r == asset_among(s.spec_bytes(), kraken_names()),
{
    match_asset(s, ["BTC/USD", "ETH/USD", "SOL/USD", "USDC/USD", "USDT/USD", "DAI/USD"])
}

/// Texts that differ have UTF-8 encodings that differ.
proof fn lemma_encodings_differ(s: Seq<char>, t: Seq<char>)
    requires
        s != t,
    ensures
        vstd::utf8::encode_utf8(s) != vstd::utf8::encode_utf8(t),
{
    vstd::utf8::encode_utf8_decode_utf8(s);
    vstd::utf8::encode_utf8_decode_utf8(t);
}

/// The asset whose code is `i + 1`: BTC, ETH, SOL, USDC, USDT, DAI.
pub open spec fn asset_at(i: int) -> AssetId {
    if i == 0 {
        AssetId::BTC
    } else if i == 1 {
        AssetId::ETH
    } else if i == 2 {
        AssetId::SOL
    } else if i == 3 {
        AssetId::USDC
    } else if i == 4 {
        AssetId::USDT
    } else {
        AssetId::DAI
    }
}

/// Among six distinct texts, the encoding of text `i` picks asset `i`.
proof fn lemma_among_distinct(texts: Seq<Seq<char>>, names: Seq<Seq<u8>>, i: int)
    requires
        texts.len() == 6,
        names.len() == 6,
        forall|j: int| 0 <= j < 6 ==> #[trigger] names[j] == vstd::utf8::encode_utf8(texts[j]),
        forall|j: int, k: int| 0 <= j < k < 6 ==> texts[j] != texts[k],
        0 <= i < 6,
    ensures
        asset_among(names[i], names) == Some(asset_at(i)),
{
    assert forall|j: int| 0 <= j < i implies names[j] != names[i] by {
        lemma_encodings_differ(texts[j], texts[i]);
    }
}

/// The asset and price of one quote: the symbol must map to an asset through
/// `names` and the price text must parse.
pub open spec fn quote(sym: Option<Seq<char>>, price: Option<Seq<char>>, names: Seq<Seq<u8>>) -> Option<
    (AssetId, nat),
> {
    match (sym, price) {
        (Some(s), Some(p)) => match (
            asset_among(vstd::utf8::encode_utf8(s), names),
            price_of_text(vstd::utf8::encode_utf8(p)),
        ) {
            (Some(a), Some(v)) => Some((a, v)),
            _ => None,
        },
        _ => None,
    }
}

/// One quote as a list of one, or `None`.
pub open spec fn single(q: Option<(AssetId, nat)>) -> Option<Seq<(AssetId, nat)>> {
    match q {
        Some(x) => Some(seq![x]),
        None => None,
    }
}

/// A list of quotes, or `None` where it is empty.
pub open spec fn nonempty(q: Option<Seq<(AssetId, nat)>>) -> Option<Seq<(AssetId, nat)>> {
    match q {
        Some(s) => if s.len() > 0 {
            Some(s)
        } else {
            None
        },
        None => None,
    }
}

/// What one ticker item gives: `None` where it lacks its symbol or its price
/// (a string, or a number where `numeric`); otherwise its quote, if both are
/// understood.
pub open spec fn item_quote(
    item: JsonValue,
    sym_key: Seq<char>,
    price_key: Seq<char>,
    numeric: bool,
    names: Seq<Seq<u8>>,
) -> Option<Option<(AssetId, nat)>> {
    let sym = json_str(json_get(item, sym_key));
    let price = if numeric {
        json_number(json_get(item, price_key))
    } else {
        json_str(json_get(item, price_key))
    };
    if sym is Some && price is Some {
        Some(quote(sym, price, names))
    } else {
        None
    }
}

/// The quotes of an array of ticker items, in order: `None` as soon as an item
/// lacks its symbol or its price; items whose symbol or price is not
/// understood are skipped.
pub open spec fn item_quotes(
    items: Seq<JsonValue>,
    sym_key: Seq<char>,
    price_key: Seq<char>,
    numeric: bool,
    names: Seq<Seq<u8>>,
) -> Option<Seq<(AssetId, nat)>>
    decreases items.len(),
{
    if items.len() == 0 {
        Some(Seq::empty())
    } else {
        match item_quotes(items.drop_last(), sym_key, price_key, numeric, names) {
            None => None,
            Some(prev) => match item_quote(items.last(), sym_key, price_key, numeric, names) {
                None => None,
                Some(Some(q)) => Some(prev.push(q)),
                Some(None) => Some(prev),
            },
        }
    }
}

/// The quotes in a Binance trade message: symbol `s`, price `p`.
pub open spec fn binance_quotes(v: JsonValue) -> Option<Seq<(AssetId, nat)>> {
    single(quote(json_str(json_get(v, "s"@)), json_str(json_get(v, "p"@)), binance_names()))
}

/// The quotes in a Coinbase message: only a `ticker`, with `product_id` and
/// `price`.
pub open spec fn coinbase_quotes(v: JsonValue) -> Option<Seq<(AssetId, nat)>> {
    match json_str(json_get(v, "type"@)) {
        Some(t) => if t == "ticker"@ {
            single(
                quote(
                    json_str(json_get(v, "product_id"@)),
                    json_str(json_get(v, "price"@)),
                    coinbase_names(),
                ),
            )
        } else {
            None
        },
        None => None,
    }
}

/// The quotes in an OKX message: the items of its `data` array, with `instId`
/// and `last`.
pub open spec fn okx_quotes(v: JsonValue) -> Option<Seq<(AssetId, nat)>> {
    match json_get(v, "data"@) {
        Some(JsonValue::Array(items)) => nonempty(
            item_quotes(items@, "instId"@, "last"@, false, okx_names()),
        ),
        _ => None,
    }
}

/// The quotes in a Bybit message: its `data`, with `symbol` and `lastPrice`.
pub open spec fn bybit_quotes(v: JsonValue) -> Option<Seq<(AssetId, nat)>> {
    match json_get(v, "data"@) {
        Some(d) => single(
            quote(json_str(json_get(d, "symbol"@)), json_str(json_get(d, "lastPrice"@)), bybit_names()),
        ),
        None => None,
    }
}

/// The quotes in a Kraken message: only on the `ticker` channel, the items of
/// its `data` array, with `symbol` and the number `last`.
pub open spec fn kraken_quotes(v: JsonValue) -> Option<Seq<(AssetId, nat)>> {
    match json_str(json_get(v, "channel"@)) {
        Some(c) => if c == "ticker"@ {
            match json_get(v, "data"@) {
                Some(JsonValue::Array(items)) => nonempty(
                    item_quotes(items@, "symbol"@, "last"@, true, kraken_names()),
                ),
                _ => None,
            }
        } else {
            None
        },
        None => None,
    }
}

/// Whether `r` holds exactly the quotes `q`, each from `source` at `now`.
pub open spec fn updates_are(
    r: Option<Vec<PriceUpdate>>,
    q: Option<Seq<(AssetId, nat)>>,
    source: SourceId,
    now: u64,
) -> bool {
    match (r, q) {
        (Some(v), Some(s)) => {
            &&& v@.len() == s.len()
            &&& forall|i: int|
                0 <= i < s.len() ==> {
                    &&& (#[trigger] v@[i]).source == source
                    &&& v@[i].asset == s[i].0
                    &&& v@[i].price@ == s[i].1
                    &&& v@[i].timestamp == now
                }
        },
        (None, None) => true,
        _ => false,
    }
}

/// The update for one quote, where both its parts are understood.
fn quote_update(
    sym: &str,
    price: &str,
    names: [&str; 6],
    source: SourceId,
    now: u64,
) -> (r: Option<PriceUpdate>)
    ensures
        match quote(
            Some(sym@),
            Some(price@),
            seq![
                names[0].spec_bytes(),
                names[1].spec_bytes(),
                names[2].spec_bytes(),
                names[3].spec_bytes(),
                names[4].spec_bytes(),
                names[5].spec_bytes(),
            ],
        ) {
            Some(q) => r matches Some(u) && u.source == source && u.asset == q.0 && u.price@ == q.1
                && u.timestamp == now,
            None => r is None,
        },
{
    let asset = match match_asset(sym, names) {
        Some(a) => a,
        None => return None,
    };
    match parse_price_checked(price) {
        Some(p) => Some(PriceUpdate { source, asset, price: p, timestamp: now }),
        None => None,
    }
}

/// Binance's symbols, in asset order.
fn binance_symbol_table() -> (r: [&'static str; 6])
    ensures
        seq![
            r[0].spec_bytes(),
            r[1].spec_bytes(),
            r[2].spec_bytes(),
            r[3].spec_bytes(),
            r[4].spec_bytes(),
            r[5].spec_bytes(),
        ] == binance_names(),
{
    ["BTCUSDT", "ETHUSDT", "SOLUSDT", "USDCUSDT", "FDUSDUSDT", "DAIUSDT"]
}

/// Coinbase's products, in asset order.
fn coinbase_symbol_table() -> (r: [&'static str; 6])
    ensures
        seq![
            r[0].spec_bytes(),
            r[1].spec_bytes(),
            r[2].spec_bytes(),
            r[3].spec_bytes(),
            r[4].spec_bytes(),
            r[5].spec_bytes(),
        ] == coinbase_names(),
{
    ["BTC-USD", "ETH-USD", "SOL-USD", "USDC-USD", "USDT-USD", "DAI-USD"]
}

/// OKX's instruments, in asset order.
fn okx_symbol_table() -> (r: [&'static str; 6])
    ensures
        seq![
            r[0].spec_bytes(),
            r[1].spec_bytes(),
            r[2].spec_bytes(),
            r[3].spec_bytes(),
            r[4].spec_bytes(),
            r[5].spec_bytes(),
        ] == okx_names(),
{
    ["BTC-USDT", "ETH-USDT", "SOL-USDT", "USDC-USDT", "USDT-USDC", "DAI-USDT"]
}

/// Bybit's symbols, in asset order.
fn bybit_symbol_table() -> (r: [&'static str; 6])
    ensures
        seq![
            r[0].spec_bytes(),
            r[1].spec_bytes(),
            r[2].spec_bytes(),
            r[3].spec_bytes(),
            r[4].spec_bytes(),
            r[5].spec_bytes(),
        ] == bybit_names(),
{
    ["BTCUSDT", "ETHUSDT", "SOLUSDT", "USDCUSDT", "USDTDAI", "DAIUSDT"]
}

/// Kraken's pairs, in asset order.
fn kraken_symbol_table() -> (r: [&'static str; 6])
    ensures
        seq![
            r[0].spec_bytes(),
            r[1].spec_bytes(),
            r[2].spec_bytes(),
            r[3].spec_bytes(),
            r[4].spec_bytes(),
            r[5].spec_bytes(),
        ] == kraken_names(),
{
    ["BTC/USD", "ETH/USD", "SOL/USD", "USDC/USD", "USDT/USD", "DAI/USD"]
}

/// One quote as a list of one update.
fn single_update(u: Option<PriceUpdate>) -> (r: Option<Vec<PriceUpdate>>)
    ensures
        match u {
            Some(x) => r matches Some(v) && v@ == seq![x],
            None => r is None,
        },
{
    match u {
        Some(x) => {
            let mut v = Vec::new();
            v.push(x);
            Some(v)
        },
        None => None,
    }
}

/// The updates in a parsed Binance trade message.
pub fn binance_updates(v: &JsonValue, now: u64) -> (r: Option<Vec<PriceUpdate>>)
    ensures
        updates_are(r, binance_quotes(*v), SourceId::Binance, now),
{
    let (sym, price) = match (get_str(v, "s"), get_str(v, "p")) {
        (Some(s), Some(p)) => (s, p),
        _ => return None,
    };
    single_update(quote_update(sym, price, binance_symbol_table(), SourceId::Binance, now))
}

/// The updates in a parsed Coinbase message.
pub fn coinbase_updates(v: &JsonValue, now: u64) -> (r: Option<Vec<PriceUpdate>>)
    ensures
        updates_are(r, coinbase_quotes(*v), SourceId::Coinbase, now),
{
    match get_str(v, "type") {
        Some(t) => {
            if !text_eq(t, "ticker") {
                return None;
            }
        },
        None => return None,
    }
    let (sym, price) = match (get_str(v, "product_id"), get_str(v, "price")) {
        (Some(s), Some(p)) => (s, p),
        _ => return None,
    };
    single_update(quote_update(sym, price, coinbase_symbol_table(), SourceId::Coinbase, now))
}

/// The updates in a parsed Bybit message.
pub fn bybit_updates(v: &JsonValue, now: u64) -> (r: Option<Vec<PriceUpdate>>)
    ensures
        updates_are(r, bybit_quotes(*v), SourceId::Bybit, now),
{
    let data = match get(v, "data") {
        Some(d) => d,
        None => return None,
    };
    let (sym, price) = match (get_str(data, "symbol"), get_str(data, "lastPrice")) {
        (Some(s), Some(p)) => (s, p),
        _ => return None,
    };
    single_update(quote_update(sym, price, bybit_symbol_table(), SourceId::Bybit, now))
}

/// Once a prefix of the items fails, the whole array fails.
proof fn lemma_item_quotes_fail(
    items: Seq<JsonValue>,
    j: int,
    sym_key: Seq<char>,
    price_key: Seq<char>,
    numeric: bool,
    names: Seq<Seq<u8>>,
)
    requires
        0 <= j <= items.len(),
        item_quotes(items.subrange(0, j), sym_key, price_key, numeric, names) is None,
    ensures
        item_quotes(items, sym_key, price_key, numeric, names) is None,
    decreases items.len() - j,
{
    if j == items.len() {
        assert(items.subrange(0, j) =~= items);
    } else {
        assert(items.subrange(0, j + 1).drop_last() =~= items.subrange(0, j));
        lemma_item_quotes_fail(items, j + 1, sym_key, price_key, numeric, names);
    }
}

/// The update of one ticker item: `Err` where it lacks its symbol or price.
fn item_update(
    item: &JsonValue,
    sym_key: &str,
    price_key: &str,
    numeric: bool,
    names: [&str; 6],
    source: SourceId,
    now: u64,
) -> (r: Result<Option<PriceUpdate>, ()>)
    ensures
        match item_quote(
            *item,
            sym_key@,
            price_key@,
            numeric,
            seq![
                names[0].spec_bytes(),
                names[1].spec_bytes(),
                names[2].spec_bytes(),
                names[3].spec_bytes(),
                names[4].spec_bytes(),
                names[5].spec_bytes(),
            ],
        ) {
            None => r is Err,
            Some(None) => r matches Ok(None),
            Some(Some(q)) => r matches Ok(Some(u)) && u.source == source && u.asset == q.0
                && u.price@ == q.1 && u.timestamp == now,
        },
{
    let sym = match get_str(item, sym_key) {
        Some(s) => s,
        None => return Err(()),
    };
    let price = if numeric {
        get_number_text(item, price_key)
    } else {
        get_str(item, price_key)
    };
    let price = match price {
        Some(p) => p,
        None => return Err(()),
    };
    Ok(quote_update(sym, price, names, source, now))
}

/// The updates of an array of ticker items.
fn items_updates(
    items: &Vec<JsonValue>,
    sym_key: &str,
    price_key: &str,
    numeric: bool,
    names: [&str; 6],
    source: SourceId,
    now: u64,
) -> (r: Option<Vec<PriceUpdate>>)
    ensures
        updates_are(
            r,
            nonempty(
                item_quotes(
                    items@,
                    sym_key@,
                    price_key@,
                    numeric,
                    seq![
                        names[0].spec_bytes(),
                        names[1].spec_bytes(),
                        names[2].spec_bytes(),
                        names[3].spec_bytes(),
                        names[4].spec_bytes(),
                        names[5].spec_bytes(),
                    ],
                ),
            ),
            source,
            now,
        ),
{
    let ghost table = seq![
        names[0].spec_bytes(),
        names[1].spec_bytes(),
        names[2].spec_bytes(),
        names[3].spec_bytes(),
        names[4].spec_bytes(),
        names[5].spec_bytes(),
    ];
    let mut updates: Vec<PriceUpdate> = Vec::new();
    let mut i: usize = 0;
    let ghost mut q: Seq<(AssetId, nat)> = Seq::empty();
    assert(items@.subrange(0, 0) =~= Seq::<JsonValue>::empty());
    while i < items.len()
        invariant
            i <= items@.len(),
            table == seq![
                names[0].spec_bytes(),
                names[1].spec_bytes(),
                names[2].spec_bytes(),
                names[3].spec_bytes(),
                names[4].spec_bytes(),
                names[5].spec_bytes(),
            ],
            item_quotes(items@.subrange(0, i as int), sym_key@, price_key@, numeric, table) == Some(q),
            updates@.len() == q.len(),
            forall|k: int|
                0 <= k < q.len() ==> {
                    &&& (#[trigger] updates@[k]).source == source
                    &&& updates@[k].asset == q[k].0
                    &&& updates@[k].price@ == q[k].1
                    &&& updates@[k].timestamp == now
                },
        decreases items@.len() - i,
    {
        let ghost prefix = items@.subrange(0, i + 1);
        assert(prefix.drop_last() =~= items@.subrange(0, i as int));
        assert(prefix.last() == items@[i as int]);
        match item_update(&items[i], sym_key, price_key, numeric, names, source, now) {
            Err(()) => {
                proof {
                    lemma_item_quotes_fail(items@, i + 1, sym_key@, price_key@, numeric, table);
                }
                return None;
            },
            Ok(Some(u)) => {
                let ghost before = updates@;
                updates.push(u);
                proof {
                    let q2 = q.push(item_quote(items@[i as int], sym_key@, price_key@, numeric, table)->0->0);
                    assert forall|k: int| 0 <= k < q2.len() implies {
                        &&& (#[trigger] updates@[k]).source == source
                        &&& updates@[k].asset == q2[k].0
                        &&& updates@[k].price@ == q2[k].1
                        &&& updates@[k].timestamp == now
                    } by {
                        if k < q.len() {
                            assert(updates@[k] == before[k]);
                        }
                    }
                    q = q2;
                }
            },
            Ok(None) => {},
        }
        i += 1;
    }
    assert(items@.subrange(0, i as int) =~= items@);
    if updates.len() == 0 {
        None
    } else {
        Some(updates)
    }
}

/// The updates in a parsed OKX message.
pub fn okx_updates(v: &JsonValue, now: u64) -> (r: Option<Vec<PriceUpdate>>)
    ensures
        updates_are(r, okx_quotes(*v), SourceId::Okx, now),
{
    match get(v, "data") {
        Some(JsonValue::Array(items)) => items_updates(
            items,
            "instId",
            "last",
            false,
            okx_symbol_table(),
            SourceId::Okx,
            now,
        ),
        _ => None,
    }
}

/// The updates in a parsed Kraken message.
pub fn kraken_updates(v: &JsonValue, now: u64) -> (r: Option<Vec<PriceUpdate>>)
    ensures
        updates_are(r, kraken_quotes(*v), SourceId::Kraken, now),
{
    match get_str(v, "channel") {
        Some(c) => {
            if !text_eq(c, "ticker") {
                return None;
            }
        },
        None => return None,
    }
    match get(v, "data") {
        Some(JsonValue::Array(items)) => items_updates(
            items,
            "symbol",
            "last",
            true,
            kraken_symbol_table(),
            SourceId::Kraken,
            now,
        ),
        _ => None,
    }
}

/// The quotes of a message text, read by `reader` once `serde_json` accepts
/// the text.
pub open spec fn text_quotes(
    text: Seq<char>,
    reader: spec_fn(JsonValue) -> Option<Seq<(AssetId, nat)>>,
) -> Option<Seq<(AssetId, nat)>> {
    match json_document(text) {
        Some(v) => reader(v),
        None => None,
    }
}

/// Parses a Binance trade message.
pub fn parse_binance(text: &str, now: u64) -> (r: Option<Vec<PriceUpdate>>)
    ensures
        updates_are(r, text_quotes(text@, |v: JsonValue| binance_quotes(v)), SourceId::Binance, now),
{
    match parse_json(text) {
        Some(v) => binance_updates(&v, now),
        None => None,
    }
}

/// Parses a Coinbase ticker message.
pub fn parse_coinbase(text: &str, now: u64) -> (r: Option<Vec<PriceUpdate>>)
    ensures
        updates_are(r, text_quotes(text@, |v: JsonValue| coinbase_quotes(v)), SourceId::Coinbase, now),
{
    match parse_json(text) {
        Some(v) => coinbase_updates(&v, now),
        None => None,
    }
}

/// Parses an OKX tickers message.
pub fn parse_okx(text: &str, now: u64) -> (r: Option<Vec<PriceUpdate>>)
    ensures
        updates_are(r, text_quotes(text@, |v: JsonValue| okx_quotes(v)), SourceId::Okx, now),
{
    match parse_json(text) {
        Some(v) => okx_updates(&v, now),
        None => None,
    }
}

/// Parses a Bybit tickers message.
pub fn parse_bybit(text: &str, now: u64) -> (r: Option<Vec<PriceUpdate>>)
    ensures
        updates_are(r, text_quotes(text@, |v: JsonValue| bybit_quotes(v)), SourceId::Bybit, now),
{
    match parse_json(text) {
        Some(v) => bybit_updates(&v, now),
        None => None,
    }
}

/// Parses a Kraken ticker message.
pub fn parse_kraken(text: &str, now: u64) -> (r: Option<Vec<PriceUpdate>>)
    ensures
        updates_are(r, text_quotes(text@, |v: JsonValue| kraken_quotes(v)), SourceId::Kraken, now),
{
    match parse_json(text) {
        Some(v) => kraken_updates(&v, now),
        None => None,
    }
}

/// Parses a message from `source`.
pub fn parse_message(source: SourceId, text: &str, now: u64) -> (r: Option<Vec<PriceUpdate>>)
    ensures
        updates_are(
            r,
            text_quotes(
                text@,
                match source {
                    SourceId::Binance => |v: JsonValue| binance_quotes(v),
                    SourceId::Coinbase => |v: JsonValue| coinbase_quotes(v),
                    SourceId::Okx => |v: JsonValue| okx_quotes(v),
                    SourceId::Bybit => |v: JsonValue| bybit_quotes(v),
                    SourceId::Kraken => |v: JsonValue| kraken_quotes(v),
                },
            ),
            source,
            now,
        ),
{
    match source {
        SourceId::Binance => parse_binance(text, now),
        SourceId::Coinbase => parse_coinbase(text, now),
        SourceId::Okx => parse_okx(text, now),
        SourceId::Bybit => parse_bybit(text, now),
        SourceId::Kraken => parse_kraken(text, now),
    }
}

/// Coinbase product ids name their assets: `BTC-USD` is BTC, `ETH-USD` ETH,
/// `SOL-USD` SOL, `USDC-USD` USDC, `USDT-USD` USDT, `DAI-USD` DAI; in
/// particular each product the Coinbase connection subscribes to maps back to
/// the asset it was subscribed for.
pub proof fn lemma_coinbase_products()
    ensures
        asset_among("BTC-USD".spec_bytes(), coinbase_names()) == Some(AssetId::BTC),
        asset_among("ETH-USD".spec_bytes(), coinbase_names()) == Some(AssetId::ETH),
        asset_among("SOL-USD".spec_bytes(), coinbase_names()) == Some(AssetId::SOL),
        asset_among("USDC-USD".spec_bytes(), coinbase_names()) == Some(AssetId::USDC),
        asset_among("USDT-USD".spec_bytes(), coinbase_names()) == Some(AssetId::USDT),
        asset_among("DAI-USD".spec_bytes(), coinbase_names()) == Some(AssetId::DAI),
        forall|a: AssetId|
            asset_among(
                vstd::utf8::encode_utf8(#[trigger] subscription_symbols(SourceId::Coinbase)[a.code() - 1]),
                coinbase_names(),
            ) == Some(a),
{
    reveal_strlit("BTC-USD");
    reveal_strlit("ETH-USD");
    reveal_strlit("SOL-USD");
    reveal_strlit("USDC-USD");
    reveal_strlit("USDT-USD");
    reveal_strlit("DAI-USD");
    let texts = seq!["BTC-USD"@, "ETH-USD"@, "SOL-USD"@, "USDC-USD"@, "USDT-USD"@, "DAI-USD"@];
    let names = coinbase_names();
    assert forall|j: int, k: int| 0 <= j < k < 6 implies texts[j] != texts[k] by {
        assert(texts[j][0] != texts[k][0] || texts[j][1] != texts[k][1] || texts[j][2] != texts[k][2]
            || texts[j][3] != texts[k][3]);
    }
    lemma_among_distinct(texts, names, 0);
    lemma_among_distinct(texts, names, 1);
    lemma_among_distinct(texts, names, 2);
    lemma_among_distinct(texts, names, 3);
    lemma_among_distinct(texts, names, 4);
    lemma_among_distinct(texts, names, 5);
    assert(subscription_symbols(SourceId::Coinbase) =~= texts);
}

/// A text with its ASCII lowercase letters put in upper case.
pub open spec fn ascii_upper(t: Seq<char>) -> Seq<char> {
    t.map_values(|c: char| if 'a' <= c <= 'z' { ((c as u32) - 32) as char } else { c })
}

/// Binance trade symbols name their assets: `BTCUSDT` is BTC, `ETHUSDT` ETH,
/// `SOLUSDT` SOL, `USDCUSDT` USDC, `FDUSDUSDT` USDT, `DAIUSDT` DAI; each
/// stream the Binance connection subscribes to (in lower case) is named, in
/// upper case, by the symbol of the asset it was subscribed for.
pub proof fn lemma_binance_symbols()
    ensures
        asset_among("BTCUSDT".spec_bytes(), binance_names()) == Some(AssetId::BTC),
        asset_among("ETHUSDT".spec_bytes(), binance_names()) == Some(AssetId::ETH),
        asset_among("SOLUSDT".spec_bytes(), binance_names()) == Some(AssetId::SOL),
        asset_among("USDCUSDT".spec_bytes(), binance_names()) == Some(AssetId::USDC),
        asset_among("FDUSDUSDT".spec_bytes(), binance_names()) == Some(AssetId::USDT),
        asset_among("DAIUSDT".spec_bytes(), binance_names()) == Some(AssetId::DAI),
        forall|a: AssetId|
            asset_among(
                vstd::utf8::encode_utf8(ascii_upper(#[trigger] subscription_symbols(SourceId::Binance)[a.code() - 1])),
                binance_names(),
            ) == Some(a),
{
    reveal_strlit("BTCUSDT");
    reveal_strlit("ETHUSDT");
    reveal_strlit("SOLUSDT");
    reveal_strlit("USDCUSDT");
    reveal_strlit("FDUSDUSDT");
    reveal_strlit("DAIUSDT");
    let texts = seq!["BTCUSDT"@, "ETHUSDT"@, "SOLUSDT"@, "USDCUSDT"@, "FDUSDUSDT"@, "DAIUSDT"@];
    let names = binance_names();
    assert forall|j: int, k: int| 0 <= j < k < 6 implies texts[j] != texts[k] by {
        assert(texts[j][0] != texts[k][0] || texts[j][1] != texts[k][1] || texts[j][2] != texts[k][2]
            || texts[j][3] != texts[k][3]);
    }
    lemma_among_distinct(texts, names, 0);
    lemma_among_distinct(texts, names, 1);
    lemma_among_distinct(texts, names, 2);
    lemma_among_distinct(texts, names, 3);
    lemma_among_distinct(texts, names, 4);
    lemma_among_distinct(texts, names, 5);
    reveal_strlit("btcusdt");
    reveal_strlit("ethusdt");
    reveal_strlit("solusdt");
    reveal_strlit("usdcusdt");
    reveal_strlit("fdusdusdt");
    reveal_strlit("daiusdt");
    assert(ascii_upper("btcusdt"@) =~= "BTCUSDT"@);
    assert(ascii_upper("ethusdt"@) =~= "ETHUSDT"@);
    assert(ascii_upper("solusdt"@) =~= "SOLUSDT"@);
    assert(ascii_upper("usdcusdt"@) =~= "USDCUSDT"@);
    assert(ascii_upper("fdusdusdt"@) =~= "FDUSDUSDT"@);
    assert(ascii_upper("daiusdt"@) =~= "DAIUSDT"@);
}

/// OKX instrument ids name their assets: `BTC-USDT` is BTC, `ETH-USDT` ETH,
/// `SOL-USDT` SOL, `USDC-USDT` USDC, `USDT-USDC` USDT, `DAI-USDT` DAI; each
/// instrument the OKX connection subscribes to maps back to its asset.
pub proof fn lemma_okx_instruments()
    ensures
        asset_among("BTC-USDT".spec_bytes(), okx_names()) == Some(AssetId::BTC),
        asset_among("ETH-USDT".spec_bytes(), okx_names()) == Some(AssetId::ETH),
        asset_among("SOL-USDT".spec_bytes(), okx_names()) == Some(AssetId::SOL),
        asset_among("USDC-USDT".spec_bytes(), okx_names()) == Some(AssetId::USDC),
        asset_among("USDT-USDC".spec_bytes(), okx_names()) == Some(AssetId::USDT),
        asset_among("DAI-USDT".spec_bytes(), okx_names()) == Some(AssetId::DAI),
        forall|a: AssetId|
            asset_among(
                vstd::utf8::encode_utf8(#[trigger] subscription_symbols(SourceId::Okx)[a.code() - 1]),
                okx_names(),
            ) == Some(a),
{
    reveal_strlit("BTC-USDT");
    reveal_strlit("ETH-USDT");
    reveal_strlit("SOL-USDT");
    reveal_strlit("USDC-USDT");
    reveal_strlit("USDT-USDC");
    reveal_strlit("DAI-USDT");
    let texts = seq!["BTC-USDT"@, "ETH-USDT"@, "SOL-USDT"@, "USDC-USDT"@, "USDT-USDC"@, "DAI-USDT"@];
    let names = okx_names();
    assert forall|j: int, k: int| 0 <= j < k < 6 implies texts[j] != texts[k] by {
        assert(texts[j][0] != texts[k][0] || texts[j][1] != texts[k][1] || texts[j][2] != texts[k][2]
            || texts[j][3] != texts[k][3]);
    }
    lemma_among_distinct(texts, names, 0);
    lemma_among_distinct(texts, names, 1);
    lemma_among_distinct(texts, names, 2);
    lemma_among_distinct(texts, names, 3);
    lemma_among_distinct(texts, names, 4);
    lemma_among_distinct(texts, names, 5);
    assert(subscription_symbols(SourceId::Okx) =~= texts);
}

/// Bybit symbols name their assets: `BTCUSDT` is BTC, `ETHUSDT` ETH,
/// `SOLUSDT` SOL, `USDCUSDT` USDC, `USDTDAI` USDT, `DAIUSDT` DAI; each symbol
/// the Bybit connection subscribes to maps back to its asset.
pub proof fn lemma_bybit_symbols()
    ensures
        asset_among("BTCUSDT".spec_bytes(), bybit_names()) == Some(AssetId::BTC),
        asset_among("ETHUSDT".spec_bytes(), bybit_names()) == Some(AssetId::ETH),
        asset_among("SOLUSDT".spec_bytes(), bybit_names()) == Some(AssetId::SOL),
        asset_among("USDCUSDT".spec_bytes(), bybit_names()) == Some(AssetId::USDC),
        asset_among("USDTDAI".spec_bytes(), bybit_names()) == Some(AssetId::USDT),
        asset_among("DAIUSDT".spec_bytes(), bybit_names()) == Some(AssetId::DAI),
        forall|a: AssetId|
            asset_among(
                vstd::utf8::encode_utf8(#[trigger] subscription_symbols(SourceId::Bybit)[a.code() - 1]),
                bybit_names(),
            ) == Some(a),
{
    reveal_strlit("BTCUSDT");
    reveal_strlit("ETHUSDT");
    reveal_strlit("SOLUSDT");
    reveal_strlit("USDCUSDT");
    reveal_strlit("USDTDAI");
    reveal_strlit("DAIUSDT");
    let texts = seq!["BTCUSDT"@, "ETHUSDT"@, "SOLUSDT"@, "USDCUSDT"@, "USDTDAI"@, "DAIUSDT"@];
    let names = bybit_names();
    assert forall|j: int, k: int| 0 <= j < k < 6 implies texts[j] != texts[k] by {
        assert(texts[j][0] != texts[k][0] || texts[j][1] != texts[k][1] || texts[j][2] != texts[k][2]
            || texts[j][3] != texts[k][3]);
    }
    lemma_among_distinct(texts, names, 0);
    lemma_among_distinct(texts, names, 1);
    lemma_among_distinct(texts, names, 2);
    lemma_among_distinct(texts, names, 3);
    lemma_among_distinct(texts, names, 4);
    lemma_among_distinct(texts, names, 5);
    assert(subscription_symbols(SourceId::Bybit) =~= texts);
}

/// Kraken pairs name their assets: `BTC/USD` is BTC, `ETH/USD` ETH, `SOL/USD`
/// SOL, `USDC/USD` USDC, `USDT/USD` USDT, `DAI/USD` DAI; each pair the Kraken
/// connection subscribes to maps back to its asset.
pub proof fn lemma_kraken_pairs()
    ensures
        asset_among("BTC/USD".spec_bytes(), kraken_names()) == Some(AssetId::BTC),
        asset_among("ETH/USD".spec_bytes(), kraken_names()) == Some(AssetId::ETH),
        asset_among("SOL/USD".spec_bytes(), kraken_names()) == Some(AssetId::SOL),
        asset_among("USDC/USD".spec_bytes(), kraken_names()) == Some(AssetId::USDC),
        asset_among("USDT/USD".spec_bytes(), kraken_names()) == Some(AssetId::USDT),
        asset_among("DAI/USD".spec_bytes(), kraken_names()) == Some(AssetId::DAI),
        forall|a: AssetId|
            asset_among(
                vstd::utf8::encode_utf8(#[trigger] subscription_symbols(SourceId::Kraken)[a.code() - 1]),
                kraken_names(),
            ) == Some(a),
{
    reveal_strlit("BTC/USD");
    reveal_strlit("ETH/USD");
    reveal_strlit("SOL/USD");
    reveal_strlit("USDC/USD");
    reveal_strlit("USDT/USD");
    reveal_strlit("DAI/USD");
    let texts = seq!["BTC/USD"@, "ETH/USD"@, "SOL/USD"@, "USDC/USD"@, "USDT/USD"@, "DAI/USD"@];
    let names = kraken_names();
    assert forall|j: int, k: int| 0 <= j < k < 6 implies texts[j] != texts[k] by {
        assert(texts[j][0] != texts[k][0] || texts[j][1] != texts[k][1] || texts[j][2] != texts[k][2]
            || texts[j][3] != texts[k][3]);
    }
    lemma_among_distinct(texts, names, 0);
    lemma_among_distinct(texts, names, 1);
    lemma_among_distinct(texts, names, 2);
    lemma_among_distinct(texts, names, 3);
    lemma_among_distinct(texts, names, 4);
    lemma_among_distinct(texts, names, 5);
    assert(subscription_symbols(SourceId::Kraken) =~= texts);
}

/// A Coinbase `ticker` message for a product the connection subscribed to
/// quotes that product's asset at the price its `price` field gives; a
/// message of any other `type` quotes nothing.
pub proof fn lemma_coinbase_ticker(v: JsonValue, a: AssetId, price: Seq<char>, value: nat)
    requires
        json_str(json_get(v, "product_id"@)) == Some(subscription_symbols(SourceId::Coinbase)[a.code() - 1]),
        json_str(json_get(v, "price"@)) == Some(price),
        price_of_text(vstd::utf8::encode_utf8(price)) == Some(value),
    ensures
        json_str(json_get(v, "type"@)) == Some("ticker"@) ==> coinbase_quotes(v) == Some(seq![(a, value)]),
        json_str(json_get(v, "type"@)) != Some("ticker"@) ==> coinbase_quotes(v) is None,
{
    lemma_coinbase_products();
    assert(asset_among(
        vstd::utf8::encode_utf8(subscription_symbols(SourceId::Coinbase)[a.code() - 1]),
        coinbase_names(),
    ) == Some(a));
}

/// A Binance trade message for a stream the connection subscribed to quotes
/// that stream's asset at the price its `p` field gives (the `s` field holds
/// the stream's symbol in upper case).
pub proof fn lemma_binance_trade(v: JsonValue, a: AssetId, price: Seq<char>, value: nat)
    requires
        json_str(json_get(v, "s"@)) == Some(ascii_upper(subscription_symbols(SourceId::Binance)[a.code() - 1])),
        json_str(json_get(v, "p"@)) == Some(price),
        price_of_text(vstd::utf8::encode_utf8(price)) == Some(value),
    ensures
        binance_quotes(v) == Some(seq![(a, value)]),
{
    lemma_binance_symbols();
    assert(asset_among(
        vstd::utf8::encode_utf8(ascii_upper(subscription_symbols(SourceId::Binance)[a.code() - 1])),
        binance_names(),
    ) == Some(a));
}

} // verus!
