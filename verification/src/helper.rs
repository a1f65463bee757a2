//! Asset identities, asset quantities and the key under which a pair of
//! assets is filed.

use vstd::prelude::*;
use vstd::bytes::{lemma_auto_spec_u64_to_from_le_bytes, spec_u64_to_le_bytes, u64_to_le_bytes};
use vstd::utf8::{encode_utf8, encode_utf8_decode_utf8};

verus! {

/// Which asset: a token kept by another contract, or a unit native to the
/// chain.
#[derive(Debug, PartialEq, Eq)]
pub enum AssetInfo {
    Token { contract_addr: String },
    NativeToken { denom: String },
}

/// The mathematical value of an [`AssetInfo`].
pub enum AssetInfoView {
    Token { contract_addr: Seq<char> },
    NativeToken { denom: Seq<char> },
}

impl AssetInfoView {
    /// The byte string that stands for this asset inside a pair key: one byte
    /// for the variant, then the name in UTF-8.
    pub open spec fn key_bytes(self) -> Seq<u8> {
        match self {
            AssetInfoView::NativeToken { denom } => seq![0u8] + encode_utf8(denom),
            AssetInfoView::Token { contract_addr } => seq![1u8] + encode_utf8(contract_addr),
        }
    }

    /// The name the asset is displayed by.
    pub open spec fn text(self) -> Seq<char> {
        match self {
            AssetInfoView::NativeToken { denom } => denom,
            AssetInfoView::Token { contract_addr } => contract_addr,
        }
    }
}

impl View for AssetInfo {
    type V = AssetInfoView;

    open spec fn view(&self) -> AssetInfoView {
        match self {
            AssetInfo::Token { contract_addr } => AssetInfoView::Token {
                contract_addr: contract_addr@,
            },
            AssetInfo::NativeToken { denom } => AssetInfoView::NativeToken { denom: denom@ },
        }
    }
}

impl Clone for AssetInfo {
    fn clone(&self) -> (r: Self)
        ensures
            r@ == self@,
    {
        match self {
            AssetInfo::Token { contract_addr } => AssetInfo::Token {
                contract_addr: contract_addr.clone(),
            },
            AssetInfo::NativeToken { denom } => AssetInfo::NativeToken { denom: denom.clone() },
        }
    }
}

impl AssetInfo {
    /// A native asset of the given denomination.
    pub fn native(denom: &str) -> (r: Self)
        ensures
            r@ == (AssetInfoView::NativeToken { denom: denom@ }),
    {
        AssetInfo::NativeToken { denom: denom.to_owned() }
    }

    /// A token kept by the contract at the given address.
    pub fn token(contract_addr: &str) -> (r: Self)
        ensures
            r@ == (AssetInfoView::Token { contract_addr: contract_addr@ }),
    {
        AssetInfo::Token { contract_addr: contract_addr.to_owned() }
    }

    /// Whether this is a unit native to the chain.
    pub fn is_native_token(&self) -> (r: bool)
        ensures
            r == (self@ is NativeToken),
    {
        match self {
            AssetInfo::NativeToken { .. } => true,
            AssetInfo::Token { .. } => false,
        }
    }

    /// Structural equality: same variant and same name.
    pub fn equal(&self, other: &AssetInfo) -> (r: bool)
        ensures
            r == (self@ == other@),
    {
        match self {
            AssetInfo::Token { contract_addr } => match other {
                AssetInfo::Token { contract_addr: other_addr } => *contract_addr == *other_addr,
                AssetInfo::NativeToken { .. } => false,
            },
            AssetInfo::NativeToken { denom } => match other {
                AssetInfo::NativeToken { denom: other_denom } => *denom == *other_denom,
                AssetInfo::Token { .. } => false,
            },
        }
    }

    /// The bytes that stand for this asset inside a pair key.
    pub fn as_bytes(&self) -> (r: Vec<u8>)
        ensures
            r@ == self@.key_bytes(),
    {
        let mut out: Vec<u8> = Vec::new();
        match self {
            AssetInfo::NativeToken { denom } => {
                out.push(0u8);
                out.extend_from_slice(denom.as_str().as_bytes());
            },
            AssetInfo::Token { contract_addr } => {
                out.push(1u8);
                out.extend_from_slice(contract_addr.as_str().as_bytes());
            },
        }
        assert(out@ =~= self@.key_bytes());
        out
    }

    /// The name the asset is displayed by: the denomination or the address.
    pub fn to_string(&self) -> (r: String)
        ensures
            r@ == self@.text(),
    {
        match self {
            AssetInfo::NativeToken { denom } => denom.clone(),
            AssetInfo::Token { contract_addr } => contract_addr.clone(),
        }
    }
}

/// The text of an optional string.
pub open spec fn option_text(s: Option<String>) -> Option<Seq<char>> {
    match s {
        Some(t) => Some(t@),
        None => None,
    }
}

/// Copies an optional string.
pub fn clone_option_text(s: &Option<String>) -> (r: Option<String>)
    ensures
        option_text(r) == option_text(*s),
{
    match s {
        Some(t) => Some(t.clone()),
        None => None,
    }
}

/// A quantity of one asset.
#[derive(Debug, PartialEq, Eq)]
pub struct Asset {
    pub info: AssetInfo,
    pub amount: u128,
}

impl Clone for Asset {
    fn clone(&self) -> (r: Self)
        ensures
            r.info@ == self.info@,
            r.amount == self.amount,
    {
        Asset { info: self.info.clone(), amount: self.amount }
    }
}

impl Asset {
    /// Whether the asset is a unit native to the chain.
    pub fn is_native_token(&self) -> (r: bool)
        ensures
            r == (self.info@ is NativeToken),
    {
        self.info.is_native_token()
    }
}

/// Lexicographic order on byte strings, looking at positions `i` and later;
/// the two strings are taken to agree before `i`.
pub open spec fn lex_le_from(a: Seq<u8>, b: Seq<u8>, i: int) -> bool
    decreases a.len() - i,
{
    if i < 0 || i >= a.len() {
        true
    } else if i >= b.len() {
        false
    } else if a[i] != b[i] {
        a[i] < b[i]
    } else {
        lex_le_from(a, b, i + 1)
    }
}

/// Lexicographic order on byte strings: `a` comes no later than `b`.
pub open spec fn lex_le(a: Seq<u8>, b: Seq<u8>) -> bool {
    lex_le_from(a, b, 0)
}

/// Two byte strings in one: the length of the first as eight bytes, least
/// significant first, then the first, then the second.
pub open spec fn framed(first: Seq<u8>, second: Seq<u8>) -> Seq<u8> {
    spec_u64_to_le_bytes(first.len() as u64) + first + second
}

/// The key of a pair of assets: the key bytes of the two, framed, the
/// lexicographically smaller first.
pub open spec fn spec_pair_key(a: AssetInfoView, b: AssetInfoView) -> Seq<u8> {
    if lex_le(a.key_bytes(), b.key_bytes()) {
        framed(a.key_bytes(), b.key_bytes())
    } else {
        framed(b.key_bytes(), a.key_bytes())
    }
}

/// Two byte strings that agree before `i` are ordered one way or the other,
/// and both ways only if they are equal.
pub proof fn lemma_lex_le_total_antisymmetric(a: Seq<u8>, b: Seq<u8>, i: int)
    requires
        0 <= i <= a.len(),
        i <= b.len(),
        forall|j: int| 0 <= j < i ==> a[j] == b[j],
    ensures
        lex_le_from(a, b, i) || lex_le_from(b, a, i),
        lex_le_from(a, b, i) && lex_le_from(b, a, i) ==> a == b,
    decreases a.len() - i,
{
    if i < a.len() && i < b.len() {
        if a[i] == b[i] {
            lemma_lex_le_total_antisymmetric(a, b, i + 1);
        }
    } else if lex_le_from(a, b, i) && lex_le_from(b, a, i) {
        assert(a =~= b);
    }
}

/// Whether `a` comes no later than `b` in lexicographic order.
pub fn bytes_le(a: &[u8], b: &[u8]) -> (r: bool)
    ensures
        r == lex_le(a@, b@),
{
    let mut i: usize = 0;
    while i < a.len() && i < b.len()
        invariant
            i <= a.len(),
            i <= b.len(),
            lex_le(a@, b@) == lex_le_from(a@, b@, i as int),
        decreases a.len() - i,
    {
        if a[i] != b[i] {
            return a[i] < b[i];
        }
        i = i + 1;
    }
    i >= a.len()
}

/// Whether two byte strings are the same.
pub fn bytes_eq(a: &[u8], b: &[u8]) -> (r: bool)
    ensures
        r == (a@ == b@),
{
    if a.len() != b.len() {
        return false;
    }
    let mut i: usize = 0;
    while i < a.len()
        invariant
            i <= a.len(),
            a.len() == b.len(),
            forall|j: int| 0 <= j < i ==> a@[j] == b@[j],
        decreases a.len() - i,
    {
        if a[i] != b[i] {
            return false;
        }
        i = i + 1;
    }
    assert(a@ =~= b@);
    true
}

/// Derives the key under which a pair of assets is filed. The key does not
/// depend on the order in which the two assets are given, and two pairs
/// with the same key are the same pair.
pub fn pair_key(asset_infos: &[AssetInfo; 2]) -> (key: Vec<u8>)
    ensures
        key@ == spec_pair_key(asset_infos[0]@, asset_infos[1]@),
{
    let mut first = asset_infos[0].as_bytes();
    let mut second = asset_infos[1].as_bytes();
    if bytes_le(first.as_slice(), second.as_slice()) {
        let mut key = u64_to_le_bytes(first.len() as u64);
        key.append(&mut first);
        key.append(&mut second);
        key
    } else {
        let mut key = u64_to_le_bytes(second.len() as u64);
        key.append(&mut second);
        key.append(&mut first);
        key
    }
}

/// The key of a pair is the same whichever of the two assets is named first.
pub proof fn lemma_pair_key_symmetric(a: AssetInfoView, b: AssetInfoView)
    ensures
        spec_pair_key(a, b) == spec_pair_key(b, a),
{
    lemma_lex_le_total_antisymmetric(a.key_bytes(), b.key_bytes(), 0);
}

/// Framing loses nothing: two framed strings are equal only if their parts
/// are, for first parts whose length fits in 64 bits.
pub proof fn lemma_framed_injective(a: Seq<u8>, b: Seq<u8>, c: Seq<u8>, d: Seq<u8>)
    requires
        a.len() <= u64::MAX,
        c.len() <= u64::MAX,
        framed(a, b) == framed(c, d),
    ensures
        a == c,
        b == d,
{
    lemma_auto_spec_u64_to_from_le_bytes();
    let la = spec_u64_to_le_bytes(a.len() as u64);
    let lc = spec_u64_to_le_bytes(c.len() as u64);
    let key = framed(a, b);
    assert(key.subrange(0, 8) =~= la);
    assert(framed(c, d).subrange(0, 8) =~= lc);
    assert(la == lc);
    assert(a.len() == c.len());
    assert(key.subrange(8, 8 + a.len() as int) =~= a);
    assert(framed(c, d).subrange(8, 8 + c.len() as int) =~= c);
    assert(key.subrange(8 + a.len() as int, key.len() as int) =~= b);
    assert(framed(c, d).subrange(8 + c.len() as int, framed(c, d).len() as int) =~= d);
}

/// Two assets with the same key bytes are the same asset.
pub proof fn lemma_key_bytes_injective(a: AssetInfoView, b: AssetInfoView)
    requires
        a.key_bytes() == b.key_bytes(),
    ensures
        a == b,
{
    let x = a.key_bytes();
    assert(x[0] == b.key_bytes()[0]);
    assert(x.subrange(1, x.len() as int) == b.key_bytes().subrange(1, x.len() as int));
    assert(x.subrange(1, x.len() as int) =~= encode_utf8(a.text()));
    assert(b.key_bytes().subrange(1, x.len() as int) =~= encode_utf8(b.text()));
    encode_utf8_decode_utf8(a.text());
    encode_utf8_decode_utf8(b.text());
}

/// Two pairs have the same key exactly if they hold the same two assets, in
/// either order. This is stated for assets whose key bytes have a length
/// that fits in 64 bits, which holds of every asset in memory.
pub proof fn lemma_pair_key_names_the_pair(
    a: AssetInfoView,
    b: AssetInfoView,
    c: AssetInfoView,
    d: AssetInfoView,
)
    requires
        a.key_bytes().len() <= u64::MAX,
        b.key_bytes().len() <= u64::MAX,
        c.key_bytes().len() <= u64::MAX,
        d.key_bytes().len() <= u64::MAX,
    ensures
        spec_pair_key(a, b) == spec_pair_key(c, d) <==> (a == c && b == d) || (a == d && b == c),
{
    lemma_pair_key_symmetric(a, b);
    lemma_pair_key_symmetric(c, d);
    if spec_pair_key(a, b) == spec_pair_key(c, d) {
        let (x, y) = if lex_le(a.key_bytes(), b.key_bytes()) {
            (a, b)
        } else {
            (b, a)
        };
        let (z, w) = if lex_le(c.key_bytes(), d.key_bytes()) {
            (c, d)
        } else {
            (d, c)
        };
        lemma_framed_injective(x.key_bytes(), y.key_bytes(), z.key_bytes(), w.key_bytes());
        lemma_key_bytes_injective(x, z);
        lemma_key_bytes_injective(y, w);
    }
}

} // verus!
