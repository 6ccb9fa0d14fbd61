use vstd::prelude::*;

verus! {

/// Identity of a blockchain implementation.
///
/// Each supported chain has exactly one variant; any tag that names no known
/// chain resolves to `Unsupported`. New chains are added as new variants,
/// never by reordering the existing ones.
#[derive(Copy, Clone, Debug, PartialEq, Eq, Structural)]
pub enum BlockchainType {
    Aptos,
    Binance,
    Bitcoin,
    BitcoinCash,
    Cosmos,
    Decred,
    Ethereum,
    Greenfield,
    Groestlcoin,
    InternetComputer,
    Komodo,
    Kusama,
    NativeEvmos,
    NativeInjective,
    Pactus,
    Polkadot,
    Polymesh,
    Ripple,
    Ronin,
    Solana,
    Sui,
    TheOpenNetwork,
    Thorchain,
    Zcash,
    Unsupported,
}

impl BlockchainType {
    /// Whether this identity names an actual chain.
    pub open spec fn supported(self) -> bool {
        !(self is Unsupported)
    }

    /// True for every identity except `Unsupported`.
    pub fn is_supported(&self) -> (r: bool)
        ensures
            r == self.supported(),
    {
        !matches!(self, BlockchainType::Unsupported)
    }
}

/// Case folding of a single character: ASCII capitals map to their lower-case
/// code point, every other character keeps its own.
pub open spec fn folded_code(c: char) -> u32 {
    if 'A' <= c && c <= 'Z' {
        (c as u32 + 32) as u32
    } else {
        c as u32
    }
}

/// Two tags are the same when they have the same length and agree character by
/// character up to ASCII letter case.
pub open spec fn tags_match(s: Seq<char>, t: Seq<char>) -> bool {
    &&& s.len() == t.len()
    &&& forall|i: int| 0 <= i < s.len() ==> #[trigger] folded_code(s[i]) == folded_code(t[i])
}

/// What it means for `tag` to resolve to `c`: a supported identity is reached
/// by its own tag, and `Unsupported` by any tag that matches no supported one.
pub open spec fn resolves_to(tag: Seq<char>, c: BlockchainType) -> bool {
    if c.supported() {
        tags_match(tag, c.tag_spec())
    } else {
        forall|d: BlockchainType| d.supported() ==> !tags_match(tag, #[trigger] d.tag_spec())
    }
}

/// The supported identities in registration order.
pub open spec fn supported_seq() -> Seq<BlockchainType> {
    seq![
        BlockchainType::Aptos,
        BlockchainType::Binance,
        BlockchainType::Bitcoin,
        BlockchainType::BitcoinCash,
        BlockchainType::Cosmos,
        BlockchainType::Decred,
        BlockchainType::Ethereum,
        BlockchainType::Greenfield,
        BlockchainType::Groestlcoin,
        BlockchainType::InternetComputer,
        BlockchainType::Komodo,
        BlockchainType::Kusama,
        BlockchainType::NativeEvmos,
        BlockchainType::NativeInjective,
        BlockchainType::Pactus,
        BlockchainType::Polkadot,
        BlockchainType::Polymesh,
        BlockchainType::Ripple,
        BlockchainType::Ronin,
        BlockchainType::Solana,
        BlockchainType::Sui,
        BlockchainType::TheOpenNetwork,
        BlockchainType::Thorchain,
        BlockchainType::Zcash,
    ]
}

impl BlockchainType {
    /// Index of a supported identity in the registration order.
    pub open spec fn position(self) -> int {
        match self {
            BlockchainType::Aptos => 0,
            BlockchainType::Binance => 1,
            BlockchainType::Bitcoin => 2,
            BlockchainType::BitcoinCash => 3,
            BlockchainType::Cosmos => 4,
            BlockchainType::Decred => 5,
            BlockchainType::Ethereum => 6,
            BlockchainType::Greenfield => 7,
            BlockchainType::Groestlcoin => 8,
            BlockchainType::InternetComputer => 9,
            BlockchainType::Komodo => 10,
            BlockchainType::Kusama => 11,
            BlockchainType::NativeEvmos => 12,
            BlockchainType::NativeInjective => 13,
            BlockchainType::Pactus => 14,
            BlockchainType::Polkadot => 15,
            BlockchainType::Polymesh => 16,
            BlockchainType::Ripple => 17,
            BlockchainType::Ronin => 18,
            BlockchainType::Solana => 19,
            BlockchainType::Sui => 20,
            BlockchainType::TheOpenNetwork => 21,
            BlockchainType::Thorchain => 22,
            BlockchainType::Zcash => 23,
            BlockchainType::Unsupported => 24,
        }
    }

    /// The external tag of this identity.
    pub open spec fn tag_spec(self) -> Seq<char> {
        match self {
            BlockchainType::Aptos => "Aptos"@,
            BlockchainType::Binance => "Binance"@,
            BlockchainType::Bitcoin => "Bitcoin"@,
            BlockchainType::BitcoinCash => "BitcoinCash"@,
            BlockchainType::Cosmos => "Cosmos"@,
            BlockchainType::Decred => "Decred"@,
            BlockchainType::Ethereum => "Ethereum"@,
            BlockchainType::Greenfield => "Greenfield"@,
            BlockchainType::Groestlcoin => "Groestlcoin"@,
            BlockchainType::InternetComputer => "InternetComputer"@,
            BlockchainType::Komodo => "Komodo"@,
            BlockchainType::Kusama => "Kusama"@,
            BlockchainType::NativeEvmos => "NativeEvmos"@,
            BlockchainType::NativeInjective => "NativeInjective"@,
            BlockchainType::Pactus => "Pactus"@,
            BlockchainType::Polkadot => "Polkadot"@,
            BlockchainType::Polymesh => "Polymesh"@,
            BlockchainType::Ripple => "Ripple"@,
            BlockchainType::Ronin => "Ronin"@,
            BlockchainType::Solana => "Solana"@,
            BlockchainType::Sui => "Sui"@,
            BlockchainType::TheOpenNetwork => "TheOpenNetwork"@,
            BlockchainType::Thorchain => "Thorchain"@,
            BlockchainType::Zcash => "Zcash"@,
            BlockchainType::Unsupported => "Unsupported"@,
        }
    }

    /// The external tag of this identity, as written on the wire.
    pub fn tag(&self) -> (r: &'static str)
        ensures
            r@ == self.tag_spec(),
    {
        match self {
            BlockchainType::Aptos => "Aptos",
            BlockchainType::Binance => "Binance",
            BlockchainType::Bitcoin => "Bitcoin",
            BlockchainType::BitcoinCash => "BitcoinCash",
            BlockchainType::Cosmos => "Cosmos",
            BlockchainType::Decred => "Decred",
            BlockchainType::Ethereum => "Ethereum",
            BlockchainType::Greenfield => "Greenfield",
            BlockchainType::Groestlcoin => "Groestlcoin",
            BlockchainType::InternetComputer => "InternetComputer",
            BlockchainType::Komodo => "Komodo",
            BlockchainType::Kusama => "Kusama",
            BlockchainType::NativeEvmos => "NativeEvmos",
            BlockchainType::NativeInjective => "NativeInjective",
            BlockchainType::Pactus => "Pactus",
            BlockchainType::Polkadot => "Polkadot",
            BlockchainType::Polymesh => "Polymesh",
            BlockchainType::Ripple => "Ripple",
            BlockchainType::Ronin => "Ronin",
            BlockchainType::Solana => "Solana",
            BlockchainType::Sui => "Sui",
            BlockchainType::TheOpenNetwork => "TheOpenNetwork",
            BlockchainType::Thorchain => "Thorchain",
            BlockchainType::Zcash => "Zcash",
            BlockchainType::Unsupported => "Unsupported",
        }
    }

    /// Resolves an external tag to its identity. Never fails: a tag that names
    /// no supported chain yields `Unsupported`. Letter case is not significant.
    pub fn from_tag(tag: &str) -> (r: BlockchainType)
        ensures
            resolves_to(tag@, r),
    {
        let chains = supported_chains();
        let mut i: usize = 0;
        while i < chains.len()
            invariant
                chains@ == supported_seq(),
                0 <= i <= chains@.len(),
                forall|j: int| 0 <= j < i ==> !tags_match(tag@, #[trigger] chains@[j].tag_spec()),
            decreases chains@.len() - i,
        {
            let c = chains[i];
            if matches_tag(tag, c.tag()) {
                return c;
            }
            i = i + 1;
        }
        proof {
            assert forall|d: BlockchainType| d.supported() implies !tags_match(
                tag@,
                #[trigger] d.tag_spec(),
            ) by {
                lemma_supported_in_seq(d);
                assert(chains@[d.position()] == d);
            }
        }
        BlockchainType::Unsupported
    }
}

/// Every supported identity stands in the registration order at its position,
/// and `Unsupported` stands nowhere in it.
pub proof fn lemma_supported_in_seq(c: BlockchainType)
    ensures
        supported_seq().len() == 24,
        c.supported() ==> 0 <= c.position() < 24 && supported_seq()[c.position()] == c,
        !c.supported() ==> forall|j: int| 0 <= j < 24 ==> supported_seq()[j] != c,
{
}

/// No two identities have tags that match each other up to letter case.
pub proof fn lemma_tags_distinct(c: BlockchainType, d: BlockchainType)
    requires
        c != d,
    ensures
        !tags_match(c.tag_spec(), d.tag_spec()),
{
    let a = c.tag_spec();
    let b = d.tag_spec();
    if tags_match(a, b) {
        reveal_strlit("Aptos");
        reveal_strlit("Binance");
        reveal_strlit("Bitcoin");
        reveal_strlit("BitcoinCash");
        reveal_strlit("Cosmos");
        reveal_strlit("Decred");
        reveal_strlit("Ethereum");
        reveal_strlit("Greenfield");
        reveal_strlit("Groestlcoin");
        reveal_strlit("InternetComputer");
        reveal_strlit("Komodo");
        reveal_strlit("Kusama");
        reveal_strlit("NativeEvmos");
        reveal_strlit("NativeInjective");
        reveal_strlit("Pactus");
        reveal_strlit("Polkadot");
        reveal_strlit("Polymesh");
        reveal_strlit("Ripple");
        reveal_strlit("Ronin");
        reveal_strlit("Solana");
        reveal_strlit("Sui");
        reveal_strlit("TheOpenNetwork");
        reveal_strlit("Thorchain");
        reveal_strlit("Zcash");
        reveal_strlit("Unsupported");
        assert(folded_code(a[0]) == folded_code(b[0]));
        assert(folded_code(a[1]) == folded_code(b[1]));
        assert(folded_code(a[2]) == folded_code(b[2]));
        if a.len() > 4 {
            assert(folded_code(a[4]) == folded_code(b[4]));
        }
    }
}

/// A tag resolves to one identity at most, so the contract of
/// [`BlockchainType::from_tag`] fixes its result.
pub proof fn lemma_resolution_unique(tag: Seq<char>, c: BlockchainType, d: BlockchainType)
    requires
        resolves_to(tag, c),
        resolves_to(tag, d),
    ensures
        c == d,
{
    if c.supported() && d.supported() && c != d {
        lemma_tags_distinct(c, d);
        assert forall|i: int| 0 <= i < tag.len() implies #[trigger] folded_code(c.tag_spec()[i])
            == folded_code(d.tag_spec()[i]) by {
            assert(folded_code(tag[i]) == folded_code(c.tag_spec()[i]));
            assert(folded_code(tag[i]) == folded_code(d.tag_spec()[i]));
        }
        assert(tags_match(c.tag_spec(), d.tag_spec()));
    }
}

/// A recognised tag, written in any letter case, resolves to its own identity,
/// and that identity is supported.
pub proof fn lemma_recognized_tag_resolves(c: BlockchainType, tag: Seq<char>, r: BlockchainType)
    requires
        c.supported(),
        tags_match(tag, c.tag_spec()),
        resolves_to(tag, r),
    ensures
        r == c,
        r.supported(),
{
    lemma_resolution_unique(tag, c, r);
}

/// A tag that matches no supported identity resolves to `Unsupported`, which is
/// not supported.
pub proof fn lemma_unknown_tag_unsupported(tag: Seq<char>, r: BlockchainType)
    requires
        forall|d: BlockchainType| d.supported() ==> !tags_match(tag, #[trigger] d.tag_spec()),
        resolves_to(tag, r),
    ensures
        r == BlockchainType::Unsupported,
        !r.supported(),
{
    if r.supported() {
        assert(!tags_match(tag, r.tag_spec()));
    }
}

/// The supported identities in registration order.
pub fn supported_chains() -> (r: Vec<BlockchainType>)
    ensures
        r@ == supported_seq(),
{
    let r = vec![
        BlockchainType::Aptos,
        BlockchainType::Binance,
        BlockchainType::Bitcoin,
        BlockchainType::BitcoinCash,
        BlockchainType::Cosmos,
        BlockchainType::Decred,
        BlockchainType::Ethereum,
        BlockchainType::Greenfield,
        BlockchainType::Groestlcoin,
        BlockchainType::InternetComputer,
        BlockchainType::Komodo,
        BlockchainType::Kusama,
        BlockchainType::NativeEvmos,
        BlockchainType::NativeInjective,
        BlockchainType::Pactus,
        BlockchainType::Polkadot,
        BlockchainType::Polymesh,
        BlockchainType::Ripple,
        BlockchainType::Ronin,
        BlockchainType::Solana,
        BlockchainType::Sui,
        BlockchainType::TheOpenNetwork,
        BlockchainType::Thorchain,
        BlockchainType::Zcash,
    ];
    proof {
        assert(r@ =~= supported_seq());
    }
    r
}

fn fold_char(c: char) -> (r: u32)
    ensures
        r == folded_code(c),
{
    if 'A' <= c && c <= 'Z' {
        c as u32 + 32
    } else {
        c as u32
    }
}

/// Whether two tags are equal up to ASCII letter case.
pub fn matches_tag(s: &str, t: &str) -> (r: bool)
    ensures
        r == tags_match(s@, t@),
{
    let n = s.unicode_len();
    if n != t.unicode_len() {
        return false;
    }
    let mut i: usize = 0;
    while i < n
        invariant
            n == s@.len(),
            n == t@.len(),
            0 <= i <= n,
            forall|j: int| 0 <= j < i ==> #[trigger] folded_code(s@[j]) == folded_code(t@[j]),
        decreases n - i,
    {
        if fold_char(s.get_char(i)) != fold_char(t.get_char(i)) {
            return false;
        }
        i = i + 1;
    }
    true
}

} // verus!
