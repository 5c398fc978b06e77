//! The rarity kinds, their tokens, and the block heights and sat ranges that
//! the historic kinds are defined by.
use vstd::prelude::*;
use vstd::string::StrSliceExecFns;

verus! {

/// The rarity kinds a sat range can be classified under.
///
/// `Block9_450`, `PerfectPalinception`, `UniformPalinception` and
/// `PaliblockPalindrome` are refinements: they are only produced alongside
/// `Block9` or `Palindrome` and have no evaluator of their own.
#[derive(Debug, Clone, Copy, PartialEq, Eq, PartialOrd, Structural)]
#[allow(non_camel_case_types)]
pub enum BlockRarity {
    Vintage,
    Nakamoto,
    FirstTransaction,
    Pizza,
    Block9,
    Block9_450,
    Block78,
    Block286,
    Block666,
    Palindrome,
    PerfectPalinception,
    UniformPalinception,
    PaliblockPalindrome,
    Alpha,
    Omega,
}

/// Blocks up to this height are vintage.
pub const VINTAGE_BLOCK_HEIGHT: u32 = 1000;

/// Only blocks up to this height issued sats of the historic kinds that a
/// single sat is checked for.
pub const MAX_PIZZA_BLOCK_HEIGHT: u32 = 56788;

/// The block whose coinbase paid the first transaction between two people.
pub const BLOCK9_BLOCK_HEIGHT: u32 = 9;

/// Named historic blocks whose sats form a kind of their own.
pub const BLOCK78_BLOCK_HEIGHT: u32 = 78;

pub const BLOCK286_BLOCK_HEIGHT: u32 = 286;

pub const BLOCK666_BLOCK_HEIGHT: u32 = 666;

/// First sat of block 9 spent in the first transaction.
pub const FIRST_TRANSACTION_START: u64 = 45_000_000_000;

/// End, exclusive, of the sats of block 9 spent in the first transaction.
pub const FIRST_TRANSACTION_END: u64 = 46_000_000_000;

/// End, exclusive, of the first whole coin of block 9, which starts at the
/// block's first sat.
pub const BLOCK9_450_END: u64 = 45_100_000_000;

/// Heights of blocks mined by the network's creator that are marked nakamoto.
pub open spec fn nakamoto_height(h: u32) -> bool {
    h == 9 || h == 286 || h == 688 || h == 877 || h == 1760 || h == 2459 || h == 2485 || h == 3479
        || h == 5326 || h == 9443 || h == 9925 || h == 10645 || h == 14450 || h == 15625 || h
        == 15817 || h == 19093 || h == 23014 || h == 28593 || h == 29097
}

/// Whether the block at height `h` is marked nakamoto.
pub fn is_nakamoto_height(h: u32) -> (r: bool)
    ensures
        r == nakamoto_height(h),
{
    match h {
        9 | 286 | 688 | 877 | 1760 | 2459 | 2485 | 3479 | 5326 | 9443 | 9925 | 10645 | 14450
        | 15625 | 15817 | 19093 | 23014 | 28593 | 29097 => true,
        _ => false,
    }
}

/// A token that names no rarity kind.
#[derive(Debug, Clone, PartialEq, Eq)]
pub struct InvalidRarity {
    pub token: String,
}

impl BlockRarity {
    /// The lowercase token that names the kind.
    pub open spec fn token(self) -> Seq<char> {
        match self {
            BlockRarity::Vintage => "vintage"@,
            BlockRarity::Nakamoto => "nakamoto"@,
            BlockRarity::FirstTransaction => "firsttransaction"@,
            BlockRarity::Pizza => "pizza"@,
            BlockRarity::Block9 => "block9"@,
            BlockRarity::Block9_450 => "block9_450"@,
            BlockRarity::Block78 => "block78"@,
            BlockRarity::Block286 => "block286"@,
            BlockRarity::Block666 => "block666"@,
            BlockRarity::Palindrome => "palindrome"@,
            BlockRarity::PerfectPalinception => "perfectpalinception"@,
            BlockRarity::UniformPalinception => "uniformpalinception"@,
            BlockRarity::PaliblockPalindrome => "paliblockpalindrome"@,
            BlockRarity::Alpha => "alpha"@,
            BlockRarity::Omega => "omega"@,
        }
    }

    /// The lowercase token that names the kind.
    pub fn as_str(&self) -> (r: &'static str)
        ensures
            r@ == self.token(),
    {
        match self {
            BlockRarity::Vintage => "vintage",
            BlockRarity::Nakamoto => "nakamoto",
            BlockRarity::FirstTransaction => "firsttransaction",
            BlockRarity::Pizza => "pizza",
            BlockRarity::Block9 => "block9",
            BlockRarity::Block9_450 => "block9_450",
            BlockRarity::Block78 => "block78",
            BlockRarity::Block286 => "block286",
            BlockRarity::Block666 => "block666",
            BlockRarity::Palindrome => "palindrome",
            BlockRarity::PerfectPalinception => "perfectpalinception",
            BlockRarity::UniformPalinception => "uniformpalinception",
            BlockRarity::PaliblockPalindrome => "paliblockpalindrome",
            BlockRarity::Alpha => "alpha",
            BlockRarity::Omega => "omega",
        }
    }

    /// The token of the kind, as an owned string.
    pub fn to_string(&self) -> (r: String)
        ensures
            r@ == self.token(),
    {
        self.as_str().to_owned()
    }

    /// The kind a token names; fails on a token that names none.
    pub fn from_token(s: &str) -> (r: Result<BlockRarity, InvalidRarity>)
        ensures
            r.is_ok() <==> exists|k: BlockRarity| k.token() == s@,
            r.is_ok() ==> r.unwrap().token() == s@,
            r.is_err() ==> r->Err_0.token@ == s@,
    {
        let kinds = [
            BlockRarity::Vintage,
            BlockRarity::Nakamoto,
            BlockRarity::FirstTransaction,
            BlockRarity::Pizza,
            BlockRarity::Block9,
            BlockRarity::Block9_450,
            BlockRarity::Block78,
            BlockRarity::Block286,
            BlockRarity::Block666,
            BlockRarity::Palindrome,
            BlockRarity::PerfectPalinception,
            BlockRarity::UniformPalinception,
            BlockRarity::PaliblockPalindrome,
            BlockRarity::Alpha,
            BlockRarity::Omega,
        ];
        let mut i: usize = 0;
        while i < kinds.len()
            invariant
                kinds@ == seq![
                    BlockRarity::Vintage,
                    BlockRarity::Nakamoto,
                    BlockRarity::FirstTransaction,
                    BlockRarity::Pizza,
                    BlockRarity::Block9,
                    BlockRarity::Block9_450,
                    BlockRarity::Block78,
                    BlockRarity::Block286,
                    BlockRarity::Block666,
                    BlockRarity::Palindrome,
                    BlockRarity::PerfectPalinception,
                    BlockRarity::UniformPalinception,
                    BlockRarity::PaliblockPalindrome,
                    BlockRarity::Alpha,
                    BlockRarity::Omega,
                ],
                i <= kinds.len(),
                forall|j: int| 0 <= j < i ==> kinds@[j].token() != s@,
            decreases kinds.len() - i,
        {
            let kind = kinds[i];
            if same_chars(kind.as_str(), s) {
                return Ok(kind);
            }
            i = i + 1;
        }
        proof {
            assert forall|k: BlockRarity| k.token() != s@ by {
                let j: int = match k {
                    BlockRarity::Vintage => 0,
                    BlockRarity::Nakamoto => 1,
                    BlockRarity::FirstTransaction => 2,
                    BlockRarity::Pizza => 3,
                    BlockRarity::Block9 => 4,
                    BlockRarity::Block9_450 => 5,
                    BlockRarity::Block78 => 6,
                    BlockRarity::Block286 => 7,
                    BlockRarity::Block666 => 8,
                    BlockRarity::Palindrome => 9,
                    BlockRarity::PerfectPalinception => 10,
                    BlockRarity::UniformPalinception => 11,
                    BlockRarity::PaliblockPalindrome => 12,
                    BlockRarity::Alpha => 13,
                    BlockRarity::Omega => 14,
                };
                assert(kinds@[j] == k);
            }
        }
        Err(InvalidRarity { token: s.to_owned() })
    }
}

impl std::str::FromStr for BlockRarity {
    type Err = InvalidRarity;

    fn from_str(s: &str) -> Result<BlockRarity, InvalidRarity> {
        BlockRarity::from_token(s)
    }
}

/// Whether two strings hold the same characters.
fn same_chars(a: &str, b: &str) -> (r: bool)
    ensures
        r == (a@ == b@),
{
    let n = a.unicode_len();
    if n != b.unicode_len() {
        return false;
    }
    let mut i: usize = 0;
    while i < n
        invariant
            n == a@.len() == b@.len(),
            i <= n,
            forall|j: int| 0 <= j < i ==> a@[j] == b@[j],
        decreases n - i,
    {
        if a.get_char(i) != b.get_char(i) {
            return false;
        }
        i = i + 1;
    }
    assert(a@ =~= b@);
    true
}

} // verus!
