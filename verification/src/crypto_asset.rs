//! The crypto assets that contracts are written on, and their names at each venue.
use vstd::prelude::*;
use vstd::string::*;

use crate::text::{ascii_uppered, opens, starts_with, to_uppercase, uppercased};

verus! {

/// An asset that contracts are written on.
#[derive(Clone, Copy, Debug, Hash, PartialEq, Eq, Structural)]
pub enum CryptoAsset {
    BTC,
    ETH,
    SOL,
    XRP,
    DOGE,
}

/// The asset whose prefix opens an upper-case ticker.
pub open spec fn asset_of(upper: Seq<char>) -> Option<CryptoAsset> {
    if opens("KXBTC"@, upper) {
        Some(CryptoAsset::BTC)
    } else if opens("KXETH"@, upper) {
        Some(CryptoAsset::ETH)
    } else if opens("KXSOL"@, upper) {
        Some(CryptoAsset::SOL)
    } else if opens("KXXRP"@, upper) {
        Some(CryptoAsset::XRP)
    } else if opens("KXDOGE"@, upper) {
        Some(CryptoAsset::DOGE)
    } else {
        None
    }
}

/// The prefix of the tickers on an asset.
pub open spec fn prefix_of(a: CryptoAsset) -> Seq<char> {
    match a {
        CryptoAsset::BTC => "KXBTC"@,
        CryptoAsset::ETH => "KXETH"@,
        CryptoAsset::SOL => "KXSOL"@,
        CryptoAsset::XRP => "KXXRP"@,
        CryptoAsset::DOGE => "KXDOGE"@,
    }
}

/// A ticker starts with the prefix of an asset, in either case.
pub open spec fn carries(ticker: Seq<char>, a: CryptoAsset) -> bool {
    prefix_of(a).len() <= ticker.len() && ascii_uppered(ticker.take(prefix_of(a).len() as int)) == prefix_of(a)
}

/// Futures on an asset, and an index of its implied volatility, are followed.
pub open spec fn has_derivatives(a: CryptoAsset) -> bool {
    a is BTC
}

/// The known assets in their usual order.
pub open spec fn known_assets() -> Seq<CryptoAsset> {
    seq![CryptoAsset::BTC, CryptoAsset::ETH, CryptoAsset::SOL, CryptoAsset::XRP, CryptoAsset::DOGE]
}

impl CryptoAsset {
    pub open spec fn coinbase_product_id_text(self) -> Seq<char> {
        match self {
            CryptoAsset::BTC => "BTC-USD"@,
            CryptoAsset::ETH => "ETH-USD"@,
            CryptoAsset::SOL => "SOL-USD"@,
            CryptoAsset::XRP => "XRP-USD"@,
            CryptoAsset::DOGE => "DOGE-USD"@,
        }
    }

    pub open spec fn binance_symbol_text(self) -> Seq<char> {
        match self {
            CryptoAsset::BTC => "btcusdt"@,
            CryptoAsset::ETH => "ethusdt"@,
            CryptoAsset::SOL => "solusdt"@,
            CryptoAsset::XRP => "xrpusdt"@,
            CryptoAsset::DOGE => "dogeusdt"@,
        }
    }

    pub open spec fn binance_symbol_upper_text(self) -> Seq<char> {
        match self {
            CryptoAsset::BTC => "BTCUSDT"@,
            CryptoAsset::ETH => "ETHUSDT"@,
            CryptoAsset::SOL => "SOLUSDT"@,
            CryptoAsset::XRP => "XRPUSDT"@,
            CryptoAsset::DOGE => "DOGEUSDT"@,
        }
    }

    pub open spec fn display_name_text(self) -> Seq<char> {
        match self {
            CryptoAsset::BTC => "Bitcoin"@,
            CryptoAsset::ETH => "Ethereum"@,
            CryptoAsset::SOL => "Solana"@,
            CryptoAsset::XRP => "XRP"@,
            CryptoAsset::DOGE => "Dogecoin"@,
        }
    }

    pub open spec fn short_name_text(self) -> Seq<char> {
        match self {
            CryptoAsset::BTC => "btc"@,
            CryptoAsset::ETH => "eth"@,
            CryptoAsset::SOL => "sol"@,
            CryptoAsset::XRP => "xrp"@,
            CryptoAsset::DOGE => "doge"@,
        }
    }

    /// The asset that an upper-case ticker names by its prefix.
    pub fn from_upper(upper: &str) -> (r: Option<Self>)
        ensures
            r == asset_of(upper@),
    {
        if starts_with(upper, "KXBTC") {
            Some(CryptoAsset::BTC)
        } else if starts_with(upper, "KXETH") {
            Some(CryptoAsset::ETH)
        } else if starts_with(upper, "KXSOL") {
            Some(CryptoAsset::SOL)
        } else if starts_with(upper, "KXXRP") {
            Some(CryptoAsset::XRP)
        } else if starts_with(upper, "KXDOGE") {
            Some(CryptoAsset::DOGE)
        } else {
            None
        }
    }

    /// The asset that a ticker names by its prefix, in either case.
    pub fn from_ticker(ticker: &str) -> (r: Option<Self>)
        ensures
            r == asset_of(uppercased(ticker@)),
            vstd::utf8::is_ascii_chars(ticker@) ==> r == asset_of(ascii_uppered(ticker@)),
            forall|a: CryptoAsset| #[trigger] carries(ticker@, a) ==> r == Some(a),
    {
        let upper: String = to_uppercase(ticker);
        proof {
            assert forall|a: CryptoAsset| #[trigger] carries(ticker@, a) implies asset_of(upper@) == Some(a) by {
                let p = prefix_of(a);
                let front = ticker@.take(p.len() as int);
                let was = ascii_uppered(front);
                prefix_is_upper_case(a);
                assert forall|i: int| 0 <= i < front.len() implies '\0' <= #[trigger] front[i] <= '\u{7f}' by {
                    assert(was[i] == p[i]);
                }
                assert(opens(was, upper@));
                prefixes_tell_assets_apart(upper@, a);
            }
        }
        Self::from_upper(upper.as_str())
    }

    /// Product name on Coinbase Advanced Trade.
    pub fn coinbase_product_id(&self) -> (r: &'static str)
        ensures
            r@ == self.coinbase_product_id_text(),
    {
        match self {
            CryptoAsset::BTC => "BTC-USD",
            CryptoAsset::ETH => "ETH-USD",
            CryptoAsset::SOL => "SOL-USD",
            CryptoAsset::XRP => "XRP-USD",
            CryptoAsset::DOGE => "DOGE-USD",
        }
    }

    /// Symbol of the Binance spot trade stream.
    pub fn binance_symbol(&self) -> (r: &'static str)
        ensures
            r@ == self.binance_symbol_text(),
    {
        match self {
            CryptoAsset::BTC => "btcusdt",
            CryptoAsset::ETH => "ethusdt",
            CryptoAsset::SOL => "solusdt",
            CryptoAsset::XRP => "xrpusdt",
            CryptoAsset::DOGE => "dogeusdt",
        }
    }

    /// Symbol as it stands in Binance trade messages.
    pub fn binance_symbol_upper(&self) -> (r: &'static str)
        ensures
            r@ == self.binance_symbol_upper_text(),
    {
        match self {
            CryptoAsset::BTC => "BTCUSDT",
            CryptoAsset::ETH => "ETHUSDT",
            CryptoAsset::SOL => "SOLUSDT",
            CryptoAsset::XRP => "XRPUSDT",
            CryptoAsset::DOGE => "DOGEUSDT",
        }
    }

    /// Name for people to read.
    pub fn display_name(&self) -> (r: &'static str)
        ensures
            r@ == self.display_name_text(),
    {
        match self {
            CryptoAsset::BTC => "Bitcoin",
            CryptoAsset::ETH => "Ethereum",
            CryptoAsset::SOL => "Solana",
            CryptoAsset::XRP => "XRP",
            CryptoAsset::DOGE => "Dogecoin",
        }
    }

    /// Name in cache keys and feed names.
    pub fn short_name(&self) -> (r: &'static str)
        ensures
            r@ == self.short_name_text(),
    {
        match self {
            CryptoAsset::BTC => "btc",
            CryptoAsset::ETH => "eth",
            CryptoAsset::SOL => "sol",
            CryptoAsset::XRP => "xrp",
            CryptoAsset::DOGE => "doge",
        }
    }

    /// Whether futures on the asset are followed (Bitcoin alone).
    pub fn has_futures(&self) -> (r: bool)
        ensures
            r == has_derivatives(*self),
    {
        matches!(self, CryptoAsset::BTC)
    }

    /// Whether an implied-volatility index of the asset is followed (Bitcoin alone).
    pub fn has_dvol(&self) -> (r: bool)
        ensures
            r == has_derivatives(*self),
    {
        matches!(self, CryptoAsset::BTC)
    }

    /// The known assets.
    pub fn all() -> (r: [CryptoAsset; 5])
        ensures
            r@ == known_assets(),
    {
        let r: [CryptoAsset; 5] = [
            CryptoAsset::BTC,
            CryptoAsset::ETH,
            CryptoAsset::SOL,
            CryptoAsset::XRP,
            CryptoAsset::DOGE,
        ];
        assert(r@ =~= known_assets());
        r
    }
}

/// Every asset is among the known ones.
pub proof fn every_asset_is_known(a: CryptoAsset)
    ensures
        known_assets().contains(a),
{
    let k: int = match a {
        CryptoAsset::BTC => 0,
        CryptoAsset::ETH => 1,
        CryptoAsset::SOL => 2,
        CryptoAsset::XRP => 3,
        CryptoAsset::DOGE => 4,
    };
    assert(known_assets()[k] == a);
}

proof fn prefix_is_upper_case(a: CryptoAsset)
    ensures
        forall|i: int| 0 <= i < prefix_of(a).len() ==> 'A' <= #[trigger] prefix_of(a)[i] <= 'Z',
{
    reveal_strlit("KXBTC");
    reveal_strlit("KXETH");
    reveal_strlit("KXSOL");
    reveal_strlit("KXXRP");
    reveal_strlit("KXDOGE");
}

/// A text that the prefix of an asset opens names that asset and no other.
pub proof fn prefixes_tell_assets_apart(upper: Seq<char>, a: CryptoAsset)
    requires
        opens(prefix_of(a), upper),
    ensures
        asset_of(upper) == Some(a),
{
    reveal_strlit("KXBTC");
    reveal_strlit("KXETH");
    reveal_strlit("KXSOL");
    reveal_strlit("KXXRP");
    reveal_strlit("KXDOGE");
    let p = prefix_of(a);
    assert(upper[2] == p[2]) by {
        assert(upper.subrange(0, p.len() as int)[2] == p[2]);
    }
    let names = seq!["KXBTC"@, "KXETH"@, "KXSOL"@, "KXXRP"@, "KXDOGE"@];
    assert forall|k: int| 0 <= k < 5 && opens(names[k], upper) implies upper[2] == names[k][2] by {
        assert(upper.subrange(0, names[k].len() as int)[2] == names[k][2]);
    }
    assert(names[0] == "KXBTC"@ && names[1] == "KXETH"@ && names[2] == "KXSOL"@ && names[3] == "KXXRP"@ && names[4]
        == "KXDOGE"@);
}

/// Whatever follows it, the exchange's mark and the short name of an asset are its prefix, in
/// lower case as in upper case; `from_ticker` gives the asset back from any such ticker.
pub proof fn own_prefix_is_carried(a: CryptoAsset, rest: Seq<char>)
    ensures
        carries("KX"@ + a.short_name_text() + rest, a),
        carries(ascii_uppered("KX"@ + a.short_name_text() + rest), a),
{
    reveal_strlit("KX");
    reveal_strlit("KXBTC");
    reveal_strlit("KXETH");
    reveal_strlit("KXSOL");
    reveal_strlit("KXXRP");
    reveal_strlit("KXDOGE");
    reveal_strlit("btc");
    reveal_strlit("eth");
    reveal_strlit("sol");
    reveal_strlit("xrp");
    reveal_strlit("doge");
    let t = "KX"@ + a.short_name_text() + rest;
    let u = ascii_uppered(t);
    let n = prefix_of(a).len() as int;
    assert(ascii_uppered(t.take(n)) =~= prefix_of(a));
    assert(ascii_uppered(u.take(n)) =~= prefix_of(a));
}

/// No two assets share a name at any venue.
pub proof fn names_tell_assets_apart(a: CryptoAsset, b: CryptoAsset)
    requires
        a != b,
    ensures
        a.coinbase_product_id_text() != b.coinbase_product_id_text(),
        a.binance_symbol_text() != b.binance_symbol_text(),
        a.binance_symbol_upper_text() != b.binance_symbol_upper_text(),
        a.display_name_text() != b.display_name_text(),
        a.short_name_text() != b.short_name_text(),
{
    reveal_strlit("BTC-USD");
    reveal_strlit("ETH-USD");
    reveal_strlit("SOL-USD");
    reveal_strlit("XRP-USD");
    reveal_strlit("DOGE-USD");
    reveal_strlit("btcusdt");
    reveal_strlit("ethusdt");
    reveal_strlit("solusdt");
    reveal_strlit("xrpusdt");
    reveal_strlit("dogeusdt");
    reveal_strlit("BTCUSDT");
    reveal_strlit("ETHUSDT");
    reveal_strlit("SOLUSDT");
    reveal_strlit("XRPUSDT");
    reveal_strlit("DOGEUSDT");
    reveal_strlit("Bitcoin");
    reveal_strlit("Ethereum");
    reveal_strlit("Solana");
    reveal_strlit("XRP");
    reveal_strlit("Dogecoin");
    reveal_strlit("btc");
    reveal_strlit("eth");
    reveal_strlit("sol");
    reveal_strlit("xrp");
    reveal_strlit("doge");
    assert(a.coinbase_product_id_text()[0] != b.coinbase_product_id_text()[0]);
    assert(a.binance_symbol_text()[0] != b.binance_symbol_text()[0]);
    assert(a.binance_symbol_upper_text()[0] != b.binance_symbol_upper_text()[0]);
    assert(a.display_name_text()[0] != b.display_name_text()[0]);
    assert(a.short_name_text()[0] != b.short_name_text()[0]);
}

/// A ticker names an asset exactly if the asset's prefix opens it.
pub proof fn assets_are_named_by_their_prefix(upper: Seq<char>, a: CryptoAsset)
    ensures
        asset_of(upper) == Some(a) <==> opens(prefix_of(a), upper),
        a is BTC ==> prefix_of(a) == "KXBTC"@,
        a is ETH ==> prefix_of(a) == "KXETH"@,
        a is SOL ==> prefix_of(a) == "KXSOL"@,
        a is XRP ==> prefix_of(a) == "KXXRP"@,
        a is DOGE ==> prefix_of(a) == "KXDOGE"@,
{
    if opens(prefix_of(a), upper) {
        prefixes_tell_assets_apart(upper, a);
    }
}

/// The names of an asset at the venues are made of its short name: in upper case before the dollar
/// on Coinbase, and before the tether dollar on Binance, there in either case.
pub proof fn venues_name_assets_alike(a: CryptoAsset)
    ensures
        a.coinbase_product_id_text() == ascii_uppered(a.short_name_text()) + "-USD"@,
        a.binance_symbol_text() == a.short_name_text() + "usdt"@,
        a.binance_symbol_upper_text() == ascii_uppered(a.binance_symbol_text()),
        prefix_of(a) == "KX"@ + ascii_uppered(a.short_name_text()),
{
    reveal_strlit("BTC-USD");
    reveal_strlit("ETH-USD");
    reveal_strlit("SOL-USD");
    reveal_strlit("XRP-USD");
    reveal_strlit("DOGE-USD");
    reveal_strlit("-USD");
    reveal_strlit("usdt");
    reveal_strlit("btcusdt");
    reveal_strlit("ethusdt");
    reveal_strlit("solusdt");
    reveal_strlit("xrpusdt");
    reveal_strlit("dogeusdt");
    reveal_strlit("BTCUSDT");
    reveal_strlit("ETHUSDT");
    reveal_strlit("SOLUSDT");
    reveal_strlit("XRPUSDT");
    reveal_strlit("DOGEUSDT");
    reveal_strlit("btc");
    reveal_strlit("eth");
    reveal_strlit("sol");
    reveal_strlit("xrp");
    reveal_strlit("doge");
    reveal_strlit("KX");
    reveal_strlit("KXBTC");
    reveal_strlit("KXETH");
    reveal_strlit("KXSOL");
    reveal_strlit("KXXRP");
    reveal_strlit("KXDOGE");
    assert(a.coinbase_product_id_text() =~= ascii_uppered(a.short_name_text()) + "-USD"@);
    assert(a.binance_symbol_text() =~= a.short_name_text() + "usdt"@);
    assert(a.binance_symbol_upper_text() =~= ascii_uppered(a.binance_symbol_text()));
    assert(prefix_of(a) =~= "KX"@ + ascii_uppered(a.short_name_text()));
}

/// Every asset is known once, and of Bitcoin alone derivatives are followed.
pub proof fn assets_are_known_once(a: CryptoAsset)
    ensures
        known_assets().no_duplicates(),
        known_assets().len() == 5,
        known_assets()[0] is BTC && known_assets()[1] is ETH && known_assets()[2] is SOL && known_assets()[3] is XRP
            && known_assets()[4] is DOGE,
        has_derivatives(a) <==> a == CryptoAsset::BTC,
{
}

} // verus!
