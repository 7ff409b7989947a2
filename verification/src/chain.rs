use vstd::prelude::*;

verus! {

/// A blockchain on which the user can look a pair up.
///
/// The variant names are the identifiers users pick from; each chain has a
/// display name, which is also the text that goes into the request URL.
#[allow(non_camel_case_types)]
#[derive(Clone, Copy, Debug, PartialEq, Eq, Structural)]
pub enum Chain {
    ethereum,
    bsc,
    polygon,
    avalanche,
    fantom,
    harmony,
    cronos,
    aurora,
    moonriver,
    moonbeam,
    metis,
    arbitrum,
    optimism,
    dogechain,
    heco,
    astar,
    evmos,
    xdai,
}

/// Number of chains, which is also the number of choices offered to users.
pub const CHAIN_COUNT: u64 = 18;

impl Chain {
    /// The display name of the chain.
    pub open spec fn spec_name(self) -> Seq<char> {
        match self {
            Chain::ethereum => "ethereum"@,
            Chain::bsc => "binance_smart_chain"@,
            Chain::polygon => "polygon"@,
            Chain::avalanche => "avalanche"@,
            Chain::fantom => "fantom"@,
            Chain::harmony => "harmony"@,
            Chain::cronos => "cronos"@,
            Chain::aurora => "aurora"@,
            Chain::moonriver => "moonriver"@,
            Chain::moonbeam => "moonbeam"@,
            Chain::metis => "metis"@,
            Chain::arbitrum => "arbitrum"@,
            Chain::optimism => "optimism"@,
            Chain::dogechain => "dogechain"@,
            Chain::heco => "heco"@,
            Chain::astar => "astar"@,
            Chain::evmos => "evmos"@,
            Chain::xdai => "xdai"@,
        }
    }

    /// Returns the display name of the chain.
    pub fn name(&self) -> (r: &'static str)
        ensures
            r@ == self.spec_name(),
    {
        match self {
            Chain::ethereum => "ethereum",
            Chain::bsc => "binance_smart_chain",
            Chain::polygon => "polygon",
            Chain::avalanche => "avalanche",
            Chain::fantom => "fantom",
            Chain::harmony => "harmony",
            Chain::cronos => "cronos",
            Chain::aurora => "aurora",
            Chain::moonriver => "moonriver",
            Chain::moonbeam => "moonbeam",
            Chain::metis => "metis",
            Chain::arbitrum => "arbitrum",
            Chain::optimism => "optimism",
            Chain::dogechain => "dogechain",
            Chain::heco => "heco",
            Chain::astar => "astar",
            Chain::evmos => "evmos",
            Chain::xdai => "xdai",
        }
    }
}

impl Chain {
    /// Position of the chain among the choices offered to users.
    pub open spec fn spec_index(self) -> nat {
        match self {
            Chain::ethereum => 0,
            Chain::bsc => 1,
            Chain::polygon => 2,
            Chain::avalanche => 3,
            Chain::fantom => 4,
            Chain::harmony => 5,
            Chain::cronos => 6,
            Chain::aurora => 7,
            Chain::moonriver => 8,
            Chain::moonbeam => 9,
            Chain::metis => 10,
            Chain::arbitrum => 11,
            Chain::optimism => 12,
            Chain::dogechain => 13,
            Chain::heco => 14,
            Chain::astar => 15,
            Chain::evmos => 16,
            Chain::xdai => 17,
        }
    }

    /// The chain at position `i` among the choices (meaningful for `i < 18`).
    pub open spec fn spec_at(i: nat) -> Chain {
        if i == 0 {
            Chain::ethereum
        } else if i == 1 {
            Chain::bsc
        } else if i == 2 {
            Chain::polygon
        } else if i == 3 {
            Chain::avalanche
        } else if i == 4 {
            Chain::fantom
        } else if i == 5 {
            Chain::harmony
        } else if i == 6 {
            Chain::cronos
        } else if i == 7 {
            Chain::aurora
        } else if i == 8 {
            Chain::moonriver
        } else if i == 9 {
            Chain::moonbeam
        } else if i == 10 {
            Chain::metis
        } else if i == 11 {
            Chain::arbitrum
        } else if i == 12 {
            Chain::optimism
        } else if i == 13 {
            Chain::dogechain
        } else if i == 14 {
            Chain::heco
        } else if i == 15 {
            Chain::astar
        } else if i == 16 {
            Chain::evmos
        } else {
            Chain::xdai
        }
    }

    /// Returns the position of the chain among the choices.
    pub fn index(&self) -> (r: u64)
        ensures
            r == self.spec_index(),
    {
        match self {
            Chain::ethereum => 0,
            Chain::bsc => 1,
            Chain::polygon => 2,
            Chain::avalanche => 3,
            Chain::fantom => 4,
            Chain::harmony => 5,
            Chain::cronos => 6,
            Chain::aurora => 7,
            Chain::moonriver => 8,
            Chain::moonbeam => 9,
            Chain::metis => 10,
            Chain::arbitrum => 11,
            Chain::optimism => 12,
            Chain::dogechain => 13,
            Chain::heco => 14,
            Chain::astar => 15,
            Chain::evmos => 16,
            Chain::xdai => 17,
        }
    }

    /// The chain that a choice key selects: the chain at that position, or
    /// `None` when the key is out of bounds.
    pub fn from_index(key: u64) -> (r: Option<Chain>)
        ensures
            r == (if key < CHAIN_COUNT {
                Some(Chain::spec_at(key as nat))
            } else {
                None::<Chain>
            }),
    {
        match key {
            0 => Some(Chain::ethereum),
            1 => Some(Chain::bsc),
            2 => Some(Chain::polygon),
            3 => Some(Chain::avalanche),
            4 => Some(Chain::fantom),
            5 => Some(Chain::harmony),
            6 => Some(Chain::cronos),
            7 => Some(Chain::aurora),
            8 => Some(Chain::moonriver),
            9 => Some(Chain::moonbeam),
            10 => Some(Chain::metis),
            11 => Some(Chain::arbitrum),
            12 => Some(Chain::optimism),
            13 => Some(Chain::dogechain),
            14 => Some(Chain::heco),
            15 => Some(Chain::astar),
            16 => Some(Chain::evmos),
            17 => Some(Chain::xdai),
            _ => None,
        }
    }

    /// All chains, in the order in which they are offered to users.
    pub fn all() -> (r: Vec<Chain>)
        ensures
            r@.len() == CHAIN_COUNT,
            forall|i: int| 0 <= i < CHAIN_COUNT ==> #[trigger] r@[i] == Chain::spec_at(i as nat),
    {
        vec![Chain::ethereum, Chain::bsc, Chain::polygon, Chain::avalanche, Chain::fantom, Chain::harmony, Chain::cronos, Chain::aurora, Chain::moonriver, Chain::moonbeam, Chain::metis, Chain::arbitrum, Chain::optimism, Chain::dogechain, Chain::heco, Chain::astar, Chain::evmos, Chain::xdai]
    }

    /// The names of the choices offered to users, in order.
    pub fn choices() -> (r: Vec<String>)
        ensures
            r@.len() == CHAIN_COUNT,
            forall|i: int| 0 <= i < CHAIN_COUNT ==> #[trigger] r@[i]@ == Chain::spec_at(i as nat).spec_name(),
    {
        let all = Chain::all();
        let mut r: Vec<String> = Vec::new();
        let mut i: usize = 0;
        while i < all.len()
            invariant
                all@.len() == CHAIN_COUNT,
                forall|j: int| 0 <= j < CHAIN_COUNT ==> #[trigger] all@[j] == Chain::spec_at(j as nat),
                i <= all@.len(),
                r@.len() == i,
                forall|j: int| 0 <= j < i ==> #[trigger] r@[j]@ == Chain::spec_at(j as nat).spec_name(),
            decreases all@.len() - i,
        {
            r.push(String::from_str(all[i].name()));
            i = i + 1;
        }
        r
    }
}

/// The code of a character with ASCII upper-case letters folded to lower case.
pub open spec fn ascii_fold(c: char) -> u32 {
    let x = c as u32;
    if 65 <= x && x <= 90 {
        (x + 32) as u32
    } else {
        x
    }
}

/// Two texts are equal when ASCII letters are compared without regard to case.
pub open spec fn eq_ignore_ascii_case(a: Seq<char>, b: Seq<char>) -> bool {
    &&& a.len() == b.len()
    &&& forall|i: int| 0 <= i < a.len() ==> #[trigger] ascii_fold(a[i]) == ascii_fold(b[i])
}

/// Folds one character; exact counterpart of `ascii_fold`.
fn fold_char(c: char) -> (r: u32)
    ensures
        r == ascii_fold(c),
{
    let x = c as u32;
    if 65 <= x && x <= 90 {
        x + 32
    } else {
        x
    }
}

/// Compares two texts, ignoring the case of ASCII letters.
pub fn str_eq_ignore_ascii_case(a: &str, b: &str) -> (r: bool)
    ensures
        r == eq_ignore_ascii_case(a@, b@),
{
    let n = a.unicode_len();
    if n != b.unicode_len() {
        return false;
    }
    let mut i: usize = 0;
    while i < n
        invariant
            n == a@.len(),
            n == b@.len(),
            i <= n,
            forall|j: int| 0 <= j < i ==> #[trigger] ascii_fold(a@[j]) == ascii_fold(b@[j]),
        decreases n - i,
    {
        if fold_char(a.get_char(i)) != fold_char(b.get_char(i)) {
            return false;
        }
        i = i + 1;
    }
    true
}

/// The first chain, in choice order, whose name matches `s` from position `i` on.
pub open spec fn first_match(s: Seq<char>, i: nat) -> Option<Chain>
    decreases CHAIN_COUNT - i,
{
    if i >= CHAIN_COUNT {
        None
    } else if eq_ignore_ascii_case(s, Chain::spec_at(i).spec_name()) {
        Some(Chain::spec_at(i))
    } else {
        first_match(s, i + 1)
    }
}

impl Chain {
    /// The chain a text names: the first chain whose name equals the text,
    /// ignoring the case of ASCII letters.
    pub open spec fn spec_from_name(s: Seq<char>) -> Option<Chain> {
        first_match(s, 0)
    }

    /// Parses a chain from its name, ignoring the case of ASCII letters.
    pub fn from_name(s: &str) -> (r: Option<Chain>)
        ensures
            r == Chain::spec_from_name(s@),
    {
        let all = Chain::all();
        let mut i: usize = 0;
        while i < all.len()
            invariant
                all@.len() == CHAIN_COUNT,
                forall|j: int| 0 <= j < CHAIN_COUNT ==> #[trigger] all@[j] == Chain::spec_at(j as nat),
                i <= all@.len(),
                first_match(s@, 0) == first_match(s@, i as nat),
            decreases all@.len() - i,
        {
            if str_eq_ignore_ascii_case(s, all[i].name()) {
                return Some(all[i]);
            }
            i = i + 1;
        }
        None
    }
}

/// Two different chains have names of different lengths, or names whose
/// first characters differ even when case is ignored.
proof fn lemma_names_distinguishable(i: nat, j: nat)
    requires
        i < CHAIN_COUNT,
        j < CHAIN_COUNT,
        i != j,
    ensures
        Chain::spec_at(i).spec_name().len() > 0,
        Chain::spec_at(i).spec_name().len() != Chain::spec_at(j).spec_name().len()
            || ascii_fold(Chain::spec_at(i).spec_name()[0]) != ascii_fold(Chain::spec_at(j).spec_name()[0]),
{
        reveal_strlit("ethereum");
        reveal_strlit("binance_smart_chain");
        reveal_strlit("polygon");
        reveal_strlit("avalanche");
        reveal_strlit("fantom");
        reveal_strlit("harmony");
        reveal_strlit("cronos");
        reveal_strlit("aurora");
        reveal_strlit("moonriver");
        reveal_strlit("moonbeam");
        reveal_strlit("metis");
        reveal_strlit("arbitrum");
        reveal_strlit("optimism");
        reveal_strlit("dogechain");
        reveal_strlit("heco");
        reveal_strlit("astar");
        reveal_strlit("evmos");
        reveal_strlit("xdai");
}

proof fn lemma_first_match(s: Seq<char>, c: Chain, i: nat)
    requires
        i <= c.spec_index(),
        eq_ignore_ascii_case(s, c.spec_name()),
    ensures
        first_match(s, i) == Some(c),
    decreases c.spec_index() - i,
{
    if i < c.spec_index() {
        let d = Chain::spec_at(i);
        lemma_names_distinguishable(i, c.spec_index());
        assert(Chain::spec_at(c.spec_index()) == c);
        if eq_ignore_ascii_case(s, d.spec_name()) {
            assert(ascii_fold(s[0]) == ascii_fold(d.spec_name()[0]));
            assert(ascii_fold(s[0]) == ascii_fold(c.spec_name()[0]));
        }
        lemma_first_match(s, c, i + 1);
    } else {
        assert(Chain::spec_at(c.spec_index()) == c);
    }
}

proof fn lemma_first_match_sound(s: Seq<char>, i: nat)
    ensures
        first_match(s, i) matches Some(c) ==> eq_ignore_ascii_case(s, c.spec_name()),
    decreases CHAIN_COUNT - i,
{
    if i < CHAIN_COUNT {
        lemma_first_match_sound(s, i + 1);
    }
}

/// A text names a chain exactly when it equals that chain's name with the
/// case of ASCII letters ignored; in particular a chain's own name parses back
/// to that chain.
pub proof fn law_from_name(s: Seq<char>, c: Chain)
    ensures
        Chain::spec_from_name(s) == Some(c) <==> eq_ignore_ascii_case(s, c.spec_name()),
{
    lemma_first_match_sound(s, 0);
    if eq_ignore_ascii_case(s, c.spec_name()) {
        lemma_first_match(s, c, 0);
    }
}

/// The position of a chain selects that chain again, and every in-bounds
/// position belongs to the chain found there.
pub proof fn law_index(c: Chain, i: nat)
    ensures
        Chain::spec_at(c.spec_index()) == c,
        c.spec_index() < CHAIN_COUNT,
        i < CHAIN_COUNT ==> Chain::spec_at(i).spec_index() == i,
{
}

/// No chain's name holds a `/`, so the address asked for names the chain
/// and the pair apart.
pub proof fn law_names_without_slash(c: Chain)
    ensures
        !c.spec_name().contains('/'),
{
    reveal_strlit("ethereum");
    reveal_strlit("binance_smart_chain");
    reveal_strlit("polygon");
    reveal_strlit("avalanche");
    reveal_strlit("fantom");
    reveal_strlit("harmony");
    reveal_strlit("cronos");
    reveal_strlit("aurora");
    reveal_strlit("moonriver");
    reveal_strlit("moonbeam");
    reveal_strlit("metis");
    reveal_strlit("arbitrum");
    reveal_strlit("optimism");
    reveal_strlit("dogechain");
    reveal_strlit("heco");
    reveal_strlit("astar");
    reveal_strlit("evmos");
    reveal_strlit("xdai");
}

/// The choices, in order, and the name each chain goes by: every chain is
/// named as its variant is, except `bsc`, which is shown as
/// `binance_smart_chain`.
pub proof fn law_chain_table()
    ensures
        Chain::spec_at(0) == Chain::ethereum && Chain::ethereum.spec_name() == "ethereum"@,
        Chain::spec_at(1) == Chain::bsc && Chain::bsc.spec_name() == "binance_smart_chain"@,
        Chain::spec_at(2) == Chain::polygon && Chain::polygon.spec_name() == "polygon"@,
        Chain::spec_at(3) == Chain::avalanche && Chain::avalanche.spec_name() == "avalanche"@,
        Chain::spec_at(4) == Chain::fantom && Chain::fantom.spec_name() == "fantom"@,
        Chain::spec_at(5) == Chain::harmony && Chain::harmony.spec_name() == "harmony"@,
        Chain::spec_at(6) == Chain::cronos && Chain::cronos.spec_name() == "cronos"@,
        Chain::spec_at(7) == Chain::aurora && Chain::aurora.spec_name() == "aurora"@,
        Chain::spec_at(8) == Chain::moonriver && Chain::moonriver.spec_name() == "moonriver"@,
        Chain::spec_at(9) == Chain::moonbeam && Chain::moonbeam.spec_name() == "moonbeam"@,
        Chain::spec_at(10) == Chain::metis && Chain::metis.spec_name() == "metis"@,
        Chain::spec_at(11) == Chain::arbitrum && Chain::arbitrum.spec_name() == "arbitrum"@,
        Chain::spec_at(12) == Chain::optimism && Chain::optimism.spec_name() == "optimism"@,
        Chain::spec_at(13) == Chain::dogechain && Chain::dogechain.spec_name() == "dogechain"@,
        Chain::spec_at(14) == Chain::heco && Chain::heco.spec_name() == "heco"@,
        Chain::spec_at(15) == Chain::astar && Chain::astar.spec_name() == "astar"@,
        Chain::spec_at(16) == Chain::evmos && Chain::evmos.spec_name() == "evmos"@,
        Chain::spec_at(17) == Chain::xdai && Chain::xdai.spec_name() == "xdai"@,
{
}

/// The error for a text that names no chain.
#[derive(Clone, Copy, Debug, PartialEq, Eq, Structural)]
pub struct InvalidChoice;

impl core::str::FromStr for Chain {
    type Err = InvalidChoice;

    fn from_str(s: &str) -> (r: Result<Chain, InvalidChoice>)
        ensures
            r == (match Chain::spec_from_name(s@) {
                Some(c) => Ok::<Chain, InvalidChoice>(c),
                None => Err::<Chain, InvalidChoice>(InvalidChoice),
            }),
    {
        match Chain::from_name(s) {
            Some(c) => Ok(c),
            None => Err(InvalidChoice),
        }
    }
}

} // verus!
