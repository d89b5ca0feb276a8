//! Unified full viewing keys: decoding, assembling, and the Orchard component.

use vstd::prelude::*;
use zcash_address::unified::{Container, Encoding, Fvk, Ufvk};
use zcash_protocol::consensus::NetworkType;

use crate::error::ScanError;
use crate::text::{has_prefix, starts_with};

verus! {

/// The network a viewing key is encoded for.
#[derive(Clone, Copy, Debug, PartialEq, Eq, Structural)]
pub enum Network {
    Main,
    Test,
    Regtest,
}

/// The pool a key component belongs to.
#[derive(Clone, Copy, Debug, PartialEq, Eq, Structural)]
pub enum Pool {
    Transparent,
    Sapling,
    Orchard,
    /// A component whose typecode this library does not know.
    Unknown(u32),
}

/// One typed component of a unified viewing key.
#[derive(Clone, Debug)]
pub struct KeyComponent {
    pub pool: Pool,
    pub data: Vec<u8>,
}

impl View for KeyComponent {
    type V = (Pool, Seq<u8>);

    open spec fn view(&self) -> (Pool, Seq<u8>) {
        (self.pool, self.data@)
    }
}

/// The components of a decoded key, as pool and bytes.
pub open spec fn components_view(v: Seq<KeyComponent>) -> Seq<(Pool, Seq<u8>)> {
    v.map_values(|c: KeyComponent| c@)
}

/// Length of an Orchard full viewing key: `ak`, `nk` and `rivk`, 32 bytes each.
pub const ORCHARD_FVK_LEN: usize = 96;

/// The human-readable part of a unified full viewing key on each network.
pub open spec fn fvk_prefix(network: Network) -> Seq<char> {
    match network {
        Network::Main => seq!['u', 'v', 'i', 'e', 'w'],
        Network::Test => seq!['u', 'v', 'i', 'e', 'w', 't', 'e', 's', 't'],
        Network::Regtest => seq!['u', 'v', 'i', 'e', 'w', 'r', 'e', 'g', 't', 'e', 's', 't'],
    }
}

/// What decoding a text as a unified full viewing key yields: its network and
/// its components in preference order, or nothing.
pub uninterp spec fn ufvk_decoded(s: Seq<char>) -> Option<(Network, Seq<(Pool, Seq<u8>)>)>;

/// The text of a unified full viewing key with one Orchard component.
pub uninterp spec fn ufvk_encoded(network: Network, fvk: Seq<u8>) -> Seq<char>;

/// Relies on zcash_address's `Encoding::decode` and `Container::items`: the
/// network and the components of a unified full viewing key, or an error.
#[verifier::external_body]
fn decode_ufvk(s: &str) -> (r: Option<(Network, Vec<KeyComponent>)>)
    ensures
        r is None <==> ufvk_decoded(s@) is None,
        r matches Some((n, v)) ==> ufvk_decoded(s@) == Some((n, components_view(v@))),
{
    let (net, ufvk) = Ufvk::decode(s).ok()?;
    let net = match net {
        NetworkType::Main => Network::Main,
        NetworkType::Test => Network::Test,
        NetworkType::Regtest => Network::Regtest,
    };
    let items = ufvk.items().into_iter().map(|f| match f {
        Fvk::Orchard(d) => KeyComponent { pool: Pool::Orchard, data: d.to_vec() },
        Fvk::Sapling(d) => KeyComponent { pool: Pool::Sapling, data: d.to_vec() },
        Fvk::P2pkh(d) => KeyComponent { pool: Pool::Transparent, data: d.to_vec() },
        Fvk::Unknown { typecode, data } => KeyComponent { pool: Pool::Unknown(typecode), data },
    });
    Some((net, items.collect()))
}

/// Relies on zcash_address's `Encoding::try_from_items`, which accepts a lone
/// Orchard item, and `Encoding::encode`: bech32m text that starts with the
/// network's prefix and the separator `1`, and that `Encoding::decode` reads
/// back as the same network and item.
#[verifier::external_body]
pub(crate) fn encode_orchard_ufvk(fvk: &[u8; 96], network: Network) -> (r: String)
    ensures
        r@ == ufvk_encoded(network, fvk@),
        starts_with(r@, fvk_prefix(network).push('1')),
        ufvk_decoded(r@) == Some((network, seq![(Pool::Orchard, fvk@)])),
{
    let net = match network {
        Network::Main => NetworkType::Main,
        Network::Test => NetworkType::Test,
        Network::Regtest => NetworkType::Regtest,
    };
    let ufvk = Ufvk::try_from_items(vec![Fvk::Orchard(*fvk)]).expect("a lone Orchard item is valid");
    ufvk.encode(&net)
}

/// Decodes a unified full viewing key into its network and components.
pub fn decode_viewing_key(encoded: &str) -> (r: Result<(Network, Vec<KeyComponent>), ScanError>)
    ensures
        match r {
            Ok((n, v)) => ufvk_decoded(encoded@) == Some((n, components_view(v@))),
            Err(e) => e == ScanError::InvalidEncoding && ufvk_decoded(encoded@) is None,
        },
{
    match decode_ufvk(encoded) {
        Some(d) => Ok(d),
        None => Err(ScanError::InvalidEncoding),
    }
}

/// The bytes of the first Orchard component, if there is one.
pub open spec fn first_orchard(cs: Seq<(Pool, Seq<u8>)>) -> Option<Seq<u8>>
    decreases cs.len(),
{
    if cs.len() == 0 {
        None
    } else if cs[0].0 == Pool::Orchard {
        Some(cs[0].1)
    } else {
        first_orchard(cs.drop_first())
    }
}

/// The Orchard component that extraction yields: the first one, provided it
/// holds at least 96 bytes.
pub open spec fn orchard_extraction(cs: Seq<(Pool, Seq<u8>)>) -> Result<Seq<u8>, ScanError> {
    match first_orchard(cs) {
        None => Err(ScanError::ComponentNotFound),
        Some(d) => if d.len() < 96 {
            Err(ScanError::ComponentTooShort)
        } else {
            Ok(d)
        },
    }
}

/// Finds the first Orchard component and checks that it holds the three
/// 32-byte fields.
pub fn extract_orchard_component(components: &Vec<KeyComponent>) -> (r: Result<Vec<u8>, ScanError>)
    ensures
        match r {
            Ok(d) => orchard_extraction(components_view(components@)) == Ok::<Seq<u8>, ScanError>(d@),
            Err(e) => orchard_extraction(components_view(components@)) == Err::<Seq<u8>, ScanError>(e),
        },
{
    let ghost cs = components_view(components@);
    assert(cs.subrange(0, cs.len() as int) =~= cs);
    let mut i: usize = 0;
    while i < components.len()
        invariant
            0 <= i <= components@.len(),
            cs == components_view(components@),
            first_orchard(cs) == first_orchard(cs.subrange(i as int, cs.len() as int)),
        decreases components@.len() - i,
    {
        let c = &components[i];
        proof {
            let rest = cs.subrange(i as int, cs.len() as int);
            assert(rest[0] == c@);
            assert(rest.drop_first() =~= cs.subrange(i + 1, cs.len() as int));
        }
        if c.pool == Pool::Orchard {
            if c.data.len() < ORCHARD_FVK_LEN {
                return Err(ScanError::ComponentTooShort);
            }
            return Ok(c.data.clone());
        }
        i = i + 1;
    }
    Err(ScanError::ComponentNotFound)
}

/// Takes the incoming-viewing-key seed `rivk`, bytes 64 to 96 of an Orchard
/// component, verbatim.
pub fn extract_ivk(component: &Vec<u8>) -> (r: [u8; 32])
    requires
        component@.len() >= 96,
    ensures
        r@ == component@.subrange(64, 96),
{
    let mut ivk: [u8; 32] = [0u8; 32];
    let mut i: usize = 0;
    while i < 32
        invariant
            0 <= i <= 32,
            component@.len() >= 96,
            ivk@.len() == 32,
            forall|j: int| 0 <= j < i ==> ivk@[j] == component@[64 + j],
        decreases 32 - i,
    {
        ivk[i] = component[64 + i];
        i = i + 1;
    }
    assert(ivk@ =~= component@.subrange(64, 96));
    ivk
}

/// What parsing a key for its Orchard incoming viewing key yields.
pub open spec fn orchard_ivk_of(encoded: Seq<char>) -> Result<Seq<u8>, ScanError> {
    match ufvk_decoded(encoded) {
        None => Err(ScanError::InvalidEncoding),
        Some((_, cs)) => match orchard_extraction(cs) {
            Err(e) => Err(e),
            Ok(d) => Ok(d.subrange(64, 96)),
        },
    }
}

/// Decodes a unified full viewing key and returns its Orchard incoming
/// viewing key, the `rivk` field of the Orchard component.
pub fn parse_ufvk_orchard_ivk(ufvk: &str) -> (r: Result<[u8; 32], ScanError>)
    ensures
        match r {
            Ok(k) => orchard_ivk_of(ufvk@) == Ok::<Seq<u8>, ScanError>(k@),
            Err(e) => orchard_ivk_of(ufvk@) == Err::<Seq<u8>, ScanError>(e),
        },
{
    let (_network, components) = decode_viewing_key(ufvk)?;
    let component = extract_orchard_component(&components)?;
    Ok(extract_ivk(&component))
}

/// The label of a key's kind: a testnet or mainnet unified full viewing key,
/// told apart by prefix, or unknown.
pub open spec fn key_type_label(s: Seq<char>) -> Seq<char> {
    if starts_with(s, fvk_prefix(Network::Test)) {
        seq!['u', 'f', 'v', 'k', '-', 't', 'e', 's', 't', 'n', 'e', 't']
    } else if starts_with(s, fvk_prefix(Network::Main)) {
        seq!['u', 'f', 'v', 'k', '-', 'm', 'a', 'i', 'n', 'n', 'e', 't']
    } else {
        seq!['u', 'n', 'k', 'n', 'o', 'w', 'n']
    }
}

/// Names the kind of a viewing key by its prefix: "ufvk-testnet",
/// "ufvk-mainnet" or "unknown".
pub fn detect_key_type(viewing_key: &str) -> (r: String)
    ensures
        r@ == key_type_label(viewing_key@),
{
    proof {
        reveal_strlit("uviewtest");
        reveal_strlit("uview");
        reveal_strlit("ufvk-testnet");
        reveal_strlit("ufvk-mainnet");
        reveal_strlit("unknown");
        assert("uviewtest"@ =~= fvk_prefix(Network::Test));
        assert("uview"@ =~= fvk_prefix(Network::Main));
        assert("ufvk-testnet"@ =~= seq!['u', 'f', 'v', 'k', '-', 't', 'e', 's', 't', 'n', 'e', 't']);
        assert("ufvk-mainnet"@ =~= seq!['u', 'f', 'v', 'k', '-', 'm', 'a', 'i', 'n', 'n', 'e', 't']);
        assert("unknown"@ =~= seq!['u', 'n', 'k', 'n', 'o', 'w', 'n']);
    }
    if has_prefix(viewing_key, "uviewtest") {
        String::from_str("ufvk-testnet")
    } else if has_prefix(viewing_key, "uview") {
        String::from_str("ufvk-mainnet")
    } else {
        String::from_str("unknown")
    }
}

/// Sapling extended full viewing keys are recognised but not supported.
pub fn parse_sapling_extfvk_ivk(_extfvk: &str) -> (r: Result<[u8; 32], ScanError>)
    ensures
        r == Err::<[u8; 32], ScanError>(ScanError::UnsupportedComponent),
{
    Err(ScanError::UnsupportedComponent)
}

} // verus!
