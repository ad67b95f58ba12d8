//! The state of every asset that is followed.
use vstd::prelude::*;

use crate::crypto_asset::{known_assets, CryptoAsset};
use crate::crypto_state::{blank, CryptoStateInner, RtiConfig};

verus! {

/// The states that a list of entries spells, the first entry of an asset counting.
pub open spec fn states_of(s: Seq<(CryptoAsset, CryptoStateInner)>) -> Map<CryptoAsset, CryptoStateInner>
    decreases s.len(),
{
    if s.len() == 0 { Map::empty() } else { states_of(s.drop_first()).insert(s[0].0, s[0].1) }
}

/// One state for each asset, and how often any of them has changed.
pub struct CryptoStateRegistry {
    states: Vec<(CryptoAsset, CryptoStateInner)>,
    version: u64,
}

impl View for CryptoStateRegistry {
    type V = Map<CryptoAsset, CryptoStateInner>;

    closed spec fn view(&self) -> Map<CryptoAsset, CryptoStateInner> {
        states_of(self.states@)
    }
}

proof fn found_at(s: Seq<(CryptoAsset, CryptoStateInner)>, i: int)
    requires
        0 <= i < s.len(),
        forall|j: int| 0 <= j < i ==> (#[trigger] s[j]).0 != s[i].0,
    ensures
        states_of(s).contains_key(s[i].0),
        states_of(s)[s[i].0] == s[i].1,
    decreases s.len(),
{
    if i > 0 {
        let t = s.drop_first();
        assert(t[i - 1] == s[i]);
        assert forall|j: int| 0 <= j < i - 1 implies (#[trigger] t[j]).0 != t[i - 1].0 by {
            assert(s[j + 1].0 != s[i].0);
        }
        assert(s[0].0 != s[i].0);
        found_at(t, i - 1);
    }
}

proof fn not_found(s: Seq<(CryptoAsset, CryptoStateInner)>, a: CryptoAsset)
    requires
        forall|j: int| 0 <= j < s.len() ==> (#[trigger] s[j]).0 != a,
    ensures
        !states_of(s).contains_key(a),
    decreases s.len(),
{
    if s.len() > 0 {
        let t = s.drop_first();
        assert forall|j: int| 0 <= j < t.len() implies (#[trigger] t[j]).0 != a by {
            assert(s[j + 1].0 != a);
        }
        assert(s[0].0 != a);
        not_found(t, a);
    }
}

proof fn replaced_at(s: Seq<(CryptoAsset, CryptoStateInner)>, i: int, v: CryptoStateInner)
    requires
        0 <= i < s.len(),
        forall|j: int| 0 <= j < i ==> (#[trigger] s[j]).0 != s[i].0,
    ensures
        states_of(s.update(i, (s[i].0, v))) == states_of(s).insert(s[i].0, v),
    decreases s.len(),
{
    let u = s.update(i, (s[i].0, v));
    if i == 0 {
        assert(u.drop_first() =~= s.drop_first());
        assert(states_of(u) =~= states_of(s).insert(s[i].0, v));
    } else {
        let t = s.drop_first();
        assert(t[i - 1] == s[i]);
        assert forall|j: int| 0 <= j < i - 1 implies (#[trigger] t[j]).0 != t[i - 1].0 by {
            assert(s[j + 1].0 != s[i].0);
        }
        assert(s[0].0 != s[i].0);
        replaced_at(t, i - 1, v);
        assert(u.drop_first() =~= t.update(i - 1, (s[i].0, v)));
        assert(states_of(u) =~= states_of(s).insert(s[i].0, v));
    }
}

/// The states with another one for an asset; the same where it is not followed.
pub open spec fn with_state(
    m: Map<CryptoAsset, CryptoStateInner>,
    asset: CryptoAsset,
    state: CryptoStateInner,
) -> Map<CryptoAsset, CryptoStateInner> {
    if m.contains_key(asset) { m.insert(asset, state) } else { m }
}

/// A blank state for each of the assets.
pub open spec fn blanks(assets: Seq<CryptoAsset>, rti_config: RtiConfig) -> Seq<(CryptoAsset, CryptoStateInner)> {
    assets.map_values(|a: CryptoAsset| (a, blank(rti_config)))
}

impl CryptoStateRegistry {
    pub closed spec fn changes(&self) -> u64 {
        self.version
    }

    /// A state that waits for its first data for each asset.
    pub fn new(assets: &Vec<CryptoAsset>, rti_config: RtiConfig) -> (r: Self)
        ensures
            r@ == states_of(blanks(assets@, rti_config)),
            r.changes() == 0,
    {
        let mut states: Vec<(CryptoAsset, CryptoStateInner)> = Vec::new();
        let mut i: usize = 0;
        while i < assets.len()
            invariant
                i <= assets@.len(),
                states@.len() == i,
                forall|j: int| 0 <= j < i ==> #[trigger] states@[j] == (assets@[j], blank(rti_config)),
            decreases assets@.len() - i,
        {
            states.push((assets[i], CryptoStateInner::with_config(rti_config)));
            i = i + 1;
        }
        assert(states@ =~= blanks(assets@, rti_config));
        CryptoStateRegistry { states, version: 0 }
    }

    fn find(&self, asset: CryptoAsset) -> (r: Option<usize>)
        ensures
            match r {
                Some(i) => i < self.states@.len() && self.states@[i as int].0 == asset && forall|j: int|
                    0 <= j < i ==> (#[trigger] self.states@[j]).0 != asset,
                None => forall|j: int| 0 <= j < self.states@.len() ==> (#[trigger] self.states@[j]).0 != asset,
            },
    {
        let mut i: usize = 0;
        while i < self.states.len()
            invariant
                i <= self.states@.len(),
                forall|j: int| 0 <= j < i ==> (#[trigger] self.states@[j]).0 != asset,
            decreases self.states@.len() - i,
        {
            if self.states[i].0 == asset {
                return Some(i);
            }
            i = i + 1;
        }
        None
    }

    /// The state of `asset`, if it is followed.
    pub fn get(&self, asset: CryptoAsset) -> (r: Option<CryptoStateInner>)
        ensures
            r == (if self@.contains_key(asset) { Some(self@[asset]) } else { None }),
    {
        match self.find(asset) {
            Some(i) => {
                proof {
                    found_at(self.states@, i as int);
                }
                Some(self.states[i].1)
            },
            None => {
                proof {
                    not_found(self.states@, asset);
                }
                None
            },
        }
    }

    /// Puts a new state in the place of that of `asset`; nothing happens if it is not followed.
    pub fn set(&mut self, asset: CryptoAsset, state: CryptoStateInner)
        requires
            old(self).changes() < u64::MAX,
        ensures
            final(self)@ == with_state(old(self)@, asset, state),
            final(self).changes() == old(self).changes() + (if old(self)@.contains_key(asset) { 1int } else { 0 }),
    {
        match self.find(asset) {
            Some(i) => {
                proof {
                    found_at(self.states@, i as int);
                    replaced_at(self.states@, i as int, state);
                }
                self.states.set(i, (asset, state));
                self.version = self.version + 1;
            },
            None => {
                proof {
                    not_found(self.states@, asset);
                }
            },
        }
    }

    /// The assets that are followed, in their usual order.
    pub fn enabled_assets(&self) -> (r: Vec<CryptoAsset>)
        ensures
            r@ == known_assets().filter(|a: CryptoAsset| self@.contains_key(a)),
    {
        let known: [CryptoAsset; 5] = CryptoAsset::all();
        let mut out: Vec<CryptoAsset> = Vec::new();
        let mut i: usize = 0;
        while i < 5
            invariant
                i <= 5,
                known@ == known_assets(),
                out@ == known_assets().take(i as int).filter(|a: CryptoAsset| self@.contains_key(a)),
            decreases 5 - i,
        {
            if self.get(known[i]).is_some() {
                out.push(known[i]);
            }
            proof {
                reveal(Seq::filter);
                assert(known_assets().take(i + 1).drop_last() =~= known_assets().take(i as int));
            }
            i = i + 1;
        }
        assert(known_assets().take(5) =~= known_assets());
        out
    }

    /// How often any state has changed.
    pub fn version(&self) -> (r: u64)
        ensures
            r == self.changes(),
    {
        self.version
    }
}

/// An asset is followed if and only if it was named.
pub proof fn named_assets_are_followed(assets: Seq<CryptoAsset>, rti_config: RtiConfig, a: CryptoAsset)
    ensures
        states_of(blanks(assets, rti_config)).contains_key(a) <==> assets.contains(a),
    decreases assets.len(),
{
    let s = blanks(assets, rti_config);
    if assets.len() > 0 {
        let rest = assets.drop_first();
        named_assets_are_followed(rest, rti_config, a);
        assert(s.drop_first() =~= blanks(rest, rti_config));
        assert(s[0].0 == assets[0]);
        if assets.contains(a) {
            let i = choose|i: int| 0 <= i < assets.len() && assets[i] == a;
            if i > 0 {
                assert(rest[i - 1] == a);
            }
        }
        if rest.contains(a) {
            let i = choose|i: int| 0 <= i < rest.len() && rest[i] == a;
            assert(assets[i + 1] == a);
        }
    }
}

/// A state is put in the place of that of its asset alone, and only if the asset is followed.
pub proof fn states_are_set_where_followed(
    m: Map<CryptoAsset, CryptoStateInner>,
    a: CryptoAsset,
    b: CryptoAsset,
    s: CryptoStateInner,
)
    requires
        a != b,
    ensures
        with_state(m, a, s).contains_key(a) == m.contains_key(a),
        m.contains_key(a) ==> with_state(m, a, s)[a] == s,
        with_state(m, a, s).contains_key(b) == m.contains_key(b),
        m.contains_key(b) ==> with_state(m, a, s)[b] == m[b],
        !m.contains_key(a) ==> with_state(m, a, s) == m,
{
}

/// Every asset that is followed starts with a state in which no feed has spoken, under the
/// configuration given.
pub proof fn followed_assets_start_blank(assets: Seq<CryptoAsset>, rti_config: RtiConfig, a: CryptoAsset)
    requires
        assets.contains(a),
    ensures
        states_of(blanks(assets, rti_config)).contains_key(a),
        states_of(blanks(assets, rti_config))[a].rti_config == rti_config,
        states_of(blanks(assets, rti_config))[a].coinbase_updated is None,
        states_of(blanks(assets, rti_config))[a].binance_spot_updated is None,
        states_of(blanks(assets, rti_config))[a].shadow_rti.bits == 0,
    decreases assets.len(),
{
    let s = blanks(assets, rti_config);
    named_assets_are_followed(assets, rti_config, a);
    let rest = assets.drop_first();
    assert(s.drop_first() =~= blanks(rest, rti_config));
    if assets[0] != a {
        let i = choose|i: int| 0 <= i < assets.len() && assets[i] == a;
        assert(rest[i - 1] == a);
        followed_assets_start_blank(rest, rti_config, a);
    }
}

} // verus!
