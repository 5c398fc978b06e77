use sat_rarity::{
    block_rarities_at_height, get_alpha_from_sat_range, get_block_rarities,
    get_block_rarities_at_height, get_block_rarities_of_ranges, get_block_rarity_chunks, get_omega_from_sat_range,
    get_palindromes_from_equal_length_range, get_palindromes_from_sat_range, in_range,
    intersect_chunks, is_palindrome, is_perfect_palindrome, is_uniform_palindrome,
    pizza_table, BlockRarity, BlockRarityInfo, RangeError, RangeTable, COIN_VALUE, PIZZA_RANGES,
};

fn pizza() -> RangeTable {
    pizza_table().unwrap()
}

fn reads_same_backwards(n: u64) -> bool {
    let s = n.to_string();
    let r: String = s.chars().rev().collect();
    s == r
}

fn kinds(report: &[BlockRarityInfo]) -> Vec<BlockRarity> {
    report.iter().map(|info| info.block_rarity).collect()
}

fn chunks_of(report: &[BlockRarityInfo], kind: BlockRarity) -> Vec<(u64, u64)> {
    report
        .iter()
        .find(|info| info.block_rarity == kind)
        .map(|info| info.chunks.clone())
        .unwrap_or_default()
}

#[test]
fn palindrome_predicate_matches_string_reversal() {
    for n in [0u64, 7, 10, 11, 100, 101, 1221, 12321, 12345, 1000000001, 18446744073709551615] {
        assert_eq!(is_palindrome(&n), reads_same_backwards(n), "{n}");
    }
    for n in 0u64..20_000 {
        assert_eq!(is_palindrome(&n), reads_same_backwards(n), "{n}");
    }
}

#[test]
fn enumeration_equals_brute_force() {
    for (s, e) in [(0u64, 10_000u64), (9_995_000, 10_005_000), (98_000, 108_000), (1, 1)] {
        let expected: Vec<u64> = (s..=e).filter(|n| reads_same_backwards(*n)).collect();
        assert_eq!(get_palindromes_from_sat_range(s, e), expected, "[{s}, {e}]");
    }
}

#[test]
fn enumeration_is_strictly_ascending() {
    for (s, e) in [
        (0u64, 1_000_000u64),
        (123_456_789, 1_234_567_890_123),
        (18_446_744_000_000_000_000, u64::MAX),
    ] {
        let found = get_palindromes_from_sat_range(s, e);
        assert!(found.windows(2).all(|w| w[0] < w[1]));
        assert!(found.iter().all(|p| s <= *p && *p <= e && reads_same_backwards(*p)));
    }
}

#[test]
fn enumeration_edges() {
    assert_eq!(get_palindromes_from_sat_range(0, 0), vec![0]);
    assert_eq!(get_palindromes_from_sat_range(5, 4), Vec::<u64>::new());
    assert_eq!(
        get_palindromes_from_sat_range(18_446_744_073_709_551_000, u64::MAX),
        Vec::<u64>::new()
    );
    assert_eq!(
        get_palindromes_from_sat_range(18_446_744_066_044_764_480, u64::MAX),
        vec![18_446_744_066_044_764_481]
    );
    assert_eq!(
        get_palindromes_from_equal_length_range(100, 199),
        vec![101, 111, 121, 131, 141, 151, 161, 171, 181, 191]
    );
    assert_eq!(get_palindromes_from_equal_length_range(500, 400), Vec::<u64>::new());
    assert_eq!(get_palindromes_from_equal_length_range(1000, 9999).len(), 90);
}

#[test]
fn refinement_predicates() {
    assert!(is_uniform_palindrome(&7));
    assert!(is_uniform_palindrome(&4444));
    assert!(!is_uniform_palindrome(&4554));
    assert!(!is_uniform_palindrome(&400041111140004));
    assert!(is_perfect_palindrome(&76858677685867));
    assert!(is_perfect_palindrome(&11));
    assert!(!is_perfect_palindrome(&1221));
    assert!(!is_perfect_palindrome(&400041111140004));
    assert!(!is_perfect_palindrome(&5));
}

#[test]
fn alpha_and_omega_bounds() {
    for (s, e) in [(1u64, 3 * COIN_VALUE + 5), (0, 1), (0, COIN_VALUE), (7, 7), (5 * COIN_VALUE, 9 * COIN_VALUE - 1)] {
        let alphas = get_alpha_from_sat_range(s, e);
        assert!(alphas.iter().all(|v| v % COIN_VALUE == 0 && s <= *v && *v < e));
        assert!(alphas.windows(2).all(|w| w[0] < w[1]));
        let omegas = get_omega_from_sat_range(s, e);
        assert!(omegas.iter().all(|v| (v + 1) % COIN_VALUE == 0 && s <= *v && *v < e));
        assert!(omegas.windows(2).all(|w| w[0] > w[1]));
    }
    assert_eq!(
        get_alpha_from_sat_range(1, 3 * COIN_VALUE + 5),
        vec![COIN_VALUE, 2 * COIN_VALUE, 3 * COIN_VALUE]
    );
    assert_eq!(
        get_omega_from_sat_range(1, 3 * COIN_VALUE + 5),
        vec![3 * COIN_VALUE - 1, 2 * COIN_VALUE - 1, COIN_VALUE - 1]
    );
    assert_eq!(get_alpha_from_sat_range(0, 1), vec![0]);
    assert_eq!(get_omega_from_sat_range(0, 1), Vec::<u64>::new());
    assert_eq!(get_omega_from_sat_range(0, COIN_VALUE), vec![COIN_VALUE - 1]);
    assert_eq!(get_alpha_from_sat_range(u64::MAX - 5, u64::MAX), Vec::<u64>::new());
}

#[test]
fn chunk_intersection() {
    let intervals = vec![(10u64, 20u64), (30, 40), (50, 60)];
    assert_eq!(
        intersect_chunks(15, 55, &intervals),
        vec![(15, 20), (30, 40), (50, 55)]
    );
    assert_eq!(intersect_chunks(20, 30, &intervals), vec![]);
    assert_eq!(intersect_chunks(0, 100, &intervals), intervals);
    assert_eq!(intersect_chunks(35, 36, &intervals), vec![(35, 36)]);
    let chunks = intersect_chunks(12, 57, &intervals);
    for n in 0..100u64 {
        let in_chunks = chunks.iter().any(|(lo, hi)| *lo <= n && n < *hi);
        assert_eq!(in_chunks, (12..57).contains(&n) && in_range(&n, &intervals));
    }
    assert!(chunks.iter().all(|(lo, hi)| lo < hi));
    assert!(chunks.windows(2).all(|w| w[0].1 <= w[1].0));
}

#[test]
fn range_table_refuses_overlap() {
    assert!(RangeTable::from_intervals(&vec![(10, 20), (15, 30)]).is_none());
    assert!(RangeTable::from_intervals(&vec![(10, 10)]).is_none());
    assert!(RangeTable::from_intervals(&vec![(10, 20), (20, 30)]).is_some());
    assert!(pizza_table().is_some());
    assert_eq!(PIZZA_RANGES.len(), 847);
}

#[test]
fn first_sat_is_vintage_and_palindrome() {
    let report = get_block_rarities(&pizza(), 1, 2).unwrap();
    assert_eq!(chunks_of(&report, BlockRarity::Vintage), vec![(1, 2)]);
    assert_eq!(chunks_of(&report, BlockRarity::Palindrome), vec![(1, 2)]);
}

#[test]
fn first_transaction_window() {
    let (s, e) = (45_500_000_000, 45_500_000_100);
    let report = get_block_rarities(&pizza(), s, e).unwrap();
    assert_eq!(chunks_of(&report, BlockRarity::Vintage), vec![(s, e)]);
    assert_eq!(chunks_of(&report, BlockRarity::Block9), vec![(s, e)]);
    assert_eq!(chunks_of(&report, BlockRarity::FirstTransaction), vec![(s, e)]);
}

#[test]
fn range_across_coin_seam() {
    let report = get_block_rarities(&pizza(), 460 * COIN_VALUE - 3, 460 * COIN_VALUE + 3).unwrap();
    assert_eq!(
        chunks_of(&report, BlockRarity::Alpha),
        vec![(460 * COIN_VALUE, 460 * COIN_VALUE + 1)]
    );
    assert_eq!(
        chunks_of(&report, BlockRarity::Omega),
        vec![(460 * COIN_VALUE - 1, 460 * COIN_VALUE)]
    );
}

#[test]
fn range_inside_pizza_interval() {
    let report = get_block_rarities(&pizza(), 120486000000000, 120487000000000).unwrap();
    assert_eq!(
        chunks_of(&report, BlockRarity::Pizza),
        vec![(120486000000000, 120487000000000)]
    );
}

#[test]
fn range_across_blocks_is_refused() {
    assert_eq!(
        get_block_rarities(&pizza(), 50 * COIN_VALUE - 1, 50 * COIN_VALUE + 1),
        Err(RangeError::SplitBlocks {
            start: 50 * COIN_VALUE - 1,
            end: 50 * COIN_VALUE + 1
        })
    );
}

#[test]
fn range_without_any_rarity() {
    let report = get_block_rarities(&pizza(), 463080763952535, 463080763952600).unwrap();
    assert_eq!(kinds(&report), Vec::<BlockRarity>::new());
}

#[test]
fn empty_range_is_refused() {
    assert_eq!(
        get_block_rarities(&pizza(), 10, 10),
        Err(RangeError::EmptyRange { start: 10, end: 10 })
    );
    assert_eq!(
        get_block_rarities(&pizza(), 11, 10),
        Err(RangeError::EmptyRange { start: 11, end: 10 })
    );
}

#[test]
fn report_for_a_given_height() {
    let report = get_block_rarities_at_height(&pizza(), 9, 45_000_000_000, 45_000_000_010);
    assert_eq!(
        kinds(&report),
        vec![
            BlockRarity::Vintage,
            BlockRarity::Nakamoto,
            BlockRarity::Block9,
            BlockRarity::Block9_450,
            BlockRarity::FirstTransaction,
            BlockRarity::Alpha,
        ]
    );
    assert_eq!(
        chunks_of(&report, BlockRarity::Block9_450),
        vec![(45_000_000_000, 45_000_000_010)]
    );
    assert!(get_block_rarity_chunks(&BlockRarity::UniformPalinception, &pizza(), 9, 1, 2).is_empty());
    assert_eq!(
        kinds(&get_block_rarity_chunks(&BlockRarity::Palindrome, &pizza(), 5, 1, 2)),
        vec![
            BlockRarity::Palindrome,
            BlockRarity::PerfectPalinception,
            BlockRarity::UniformPalinception,
            BlockRarity::PaliblockPalindrome,
        ]
    );
}

#[test]
fn single_sat_kinds_beyond_historic_blocks() {
    assert_eq!(
        block_rarities_at_height(&pizza(), 56789, 283_945_000_000_000),
        Vec::<BlockRarity>::new()
    );
    assert_eq!(
        block_rarities_at_height(&pizza(), 78, 390_000_000_093),
        vec![BlockRarity::Vintage, BlockRarity::Block78, BlockRarity::Palindrome]
    );
}

#[test]
fn tokens_round_trip() {
    let all = [
        BlockRarity::Vintage,
        BlockRarity::Nakamoto,
        BlockRarity::FirstTransaction,
        BlockRarity::Pizza,
        BlockRarity::Block9,
        BlockRarity::Block9_450,
        BlockRarity::Block78,
        BlockRarity::Block286,
        BlockRarity::Block666,
        BlockRarity::Palindrome,
        BlockRarity::PerfectPalinception,
        BlockRarity::UniformPalinception,
        BlockRarity::PaliblockPalindrome,
        BlockRarity::Alpha,
        BlockRarity::Omega,
    ];
    for kind in all {
        assert_eq!(BlockRarity::from_token(kind.as_str()), Ok(kind));
    }
    let err = BlockRarity::from_token("Vintage").unwrap_err();
    assert_eq!(err.token, "Vintage");
}

#[test]
fn batch_stops_at_first_bad_range() {
    let pizza = pizza();
    let good = vec![(1, 2), (45_500_000_000, 45_500_000_100)];
    let reports = get_block_rarities_of_ranges(&pizza, &good).unwrap();
    assert_eq!(reports.len(), 2);
    assert_eq!(reports[1], get_block_rarities(&pizza, 45_500_000_000, 45_500_000_100).unwrap());
    let bad = vec![(1, 2), (7, 7), (50 * COIN_VALUE - 1, 50 * COIN_VALUE + 1)];
    assert_eq!(
        get_block_rarities_of_ranges(&pizza, &bad),
        Err(RangeError::EmptyRange { start: 7, end: 7 })
    );
    assert_eq!(get_block_rarities_of_ranges(&pizza, &vec![]), Ok(vec![]));
}
