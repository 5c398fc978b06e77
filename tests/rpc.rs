use sat_rarity::{
    get_block_rarities, get_palindromes_from_sat_range, pizza_table, BlockRarity,
    BlockRarityInfo, RangeTable, COIN_VALUE,
};

fn pizza() -> RangeTable {
    pizza_table().unwrap()
}

fn info(block_rarity: BlockRarity, chunks: Vec<(u64, u64)>) -> BlockRarityInfo {
    BlockRarityInfo {
        block_rarity,
        chunks,
    }
}

#[test]
fn test_get_block_rarities() {
    let pizza = pizza();
    let mut block_rarities =
        get_block_rarities(&pizza, 460 * COIN_VALUE - 10_000, 460 * COIN_VALUE + 10_000).unwrap();
    assert_eq!(
        block_rarities,
        vec![
            info(
                BlockRarity::Vintage,
                vec![(460 * COIN_VALUE - 10_000, 460 * COIN_VALUE + 10_000)]
            ),
            info(
                BlockRarity::Nakamoto,
                vec![(460 * COIN_VALUE - 10_000, 460 * COIN_VALUE + 10_000)]
            ),
            info(
                BlockRarity::Block9,
                vec![(460 * COIN_VALUE - 10_000, 460 * COIN_VALUE + 10_000)]
            ),
            info(
                BlockRarity::FirstTransaction,
                vec![(460 * COIN_VALUE - 10_000, 460 * COIN_VALUE)]
            ),
            info(
                BlockRarity::Palindrome,
                vec![
                    (45_999_999_954, 45_999_999_955),
                    (46_000_000_064, 46_000_000_065)
                ]
            ),
            info(
                BlockRarity::PaliblockPalindrome,
                vec![(45999999954, 45999999955), (46000000064, 46000000065)]
            ),
            info(BlockRarity::Alpha, vec![(46_000_000_000, 46_000_000_001)]),
            info(BlockRarity::Omega, vec![(45_999_999_999, 46_000_000_000),]),
        ]
    );

    block_rarities =
        get_block_rarities(&pizza, 451 * COIN_VALUE - 10_000, 451 * COIN_VALUE + 10_000).unwrap();
    assert_eq!(
        block_rarities,
        vec![
            info(
                BlockRarity::Vintage,
                vec![(451 * COIN_VALUE - 10_000, 451 * COIN_VALUE + 10_000)]
            ),
            info(
                BlockRarity::Nakamoto,
                vec![(451 * COIN_VALUE - 10_000, 451 * COIN_VALUE + 10_000)]
            ),
            info(
                BlockRarity::Block9,
                vec![(451 * COIN_VALUE - 10_000, 451 * COIN_VALUE + 10_000)]
            ),
            info(
                BlockRarity::Block9_450,
                vec![(451 * COIN_VALUE - 10_000, 451 * COIN_VALUE)]
            ),
            info(
                BlockRarity::FirstTransaction,
                vec![(451 * COIN_VALUE - 10_000, 451 * COIN_VALUE + 10_000)]
            ),
            info(
                BlockRarity::Palindrome,
                vec![(45099999054, 45099999055), (45100000154, 45100000155)]
            ),
            info(
                BlockRarity::PaliblockPalindrome,
                vec![(45099999054, 45099999055), (45100000154, 45100000155)]
            ),
            info(BlockRarity::Alpha, vec![(45_100_000_000, 45_100_000_001)]),
            info(BlockRarity::Omega, vec![(45_099_999_999, 45_100_000_000),]),
        ]
    );

    block_rarities = get_block_rarities(
        &pizza,
        78 * 50 * COIN_VALUE + 10_000,
        78 * 50 * COIN_VALUE + 20_000,
    )
    .unwrap();
    assert_eq!(
        block_rarities,
        vec![
            info(
                BlockRarity::Vintage,
                vec![(78 * 50 * COIN_VALUE + 10_000, 78 * 50 * COIN_VALUE + 20_000)]
            ),
            info(
                BlockRarity::Block78,
                vec![(78 * 50 * COIN_VALUE + 10_000, 78 * 50 * COIN_VALUE + 20_000)]
            ),
        ]
    );

    block_rarities = get_block_rarities(
        &pizza,
        286 * 50 * COIN_VALUE + 10_000,
        286 * 50 * COIN_VALUE + 20_000,
    )
    .unwrap();
    assert_eq!(
        block_rarities,
        vec![
            info(
                BlockRarity::Vintage,
                vec![(
                    286 * 50 * COIN_VALUE + 10_000,
                    286 * 50 * COIN_VALUE + 20_000
                )]
            ),
            info(
                BlockRarity::Nakamoto,
                vec![(
                    286 * 50 * COIN_VALUE + 10_000,
                    286 * 50 * COIN_VALUE + 20_000
                )]
            ),
            info(
                BlockRarity::Block286,
                vec![(
                    286 * 50 * COIN_VALUE + 10_000,
                    286 * 50 * COIN_VALUE + 20_000
                )]
            ),
        ]
    );

    block_rarities = get_block_rarities(&pizza, 3153515_5000000, 3153515_6000000).unwrap();
    assert_eq!(
        block_rarities,
        vec![info(
            BlockRarity::Palindrome,
            vec![(31535155153513, 31535155153514)]
        )]
    );

    // 400041111140004 does not repeat one digit, so it is no uniform palindrome.
    block_rarities = get_block_rarities(&pizza, 40004_11111_00000, 40004_11112_00000).unwrap();
    assert_eq!(
        block_rarities,
        vec![
            info(
                BlockRarity::Palindrome,
                vec![(400041111140004, 400041111140005)]
            ),
            info(
                BlockRarity::PaliblockPalindrome,
                vec![(400041111140004, 400041111140005)]
            ),
        ]
    );

    // 76858677685867 is 7685867 written twice, but of more than one digit.
    block_rarities = get_block_rarities(&pizza, 7685867_0000000, 7685868_0000000).unwrap();
    assert_eq!(
        block_rarities,
        vec![
            info(
                BlockRarity::Palindrome,
                vec![(76858677685867, 76858677685868)]
            ),
            info(
                BlockRarity::PerfectPalinception,
                vec![(76858677685867, 76858677685868)]
            ),
        ]
    );

    block_rarities = get_block_rarities(&pizza, 3153515_5000000, 3153515_6000000).unwrap();
    assert_eq!(
        block_rarities,
        vec![info(
            BlockRarity::Palindrome,
            vec![(31535155153513, 31535155153514)]
        )]
    );

    block_rarities = get_block_rarities(&pizza, 204589006000000, 204589046000000).unwrap();
    assert_eq!(
        block_rarities,
        vec![
            info(
                BlockRarity::Pizza,
                vec![
                    (204589006000000, 204589008000000),
                    (204589017000000, 204589019000000),
                    (204589026000000, 204589028000000),
                    (204589029000000, 204589030000000),
                    (204589032000000, 204589033000000),
                    (204589034000000, 204589035000000),
                    (204589037000000, 204589038000000),
                    (204589041000000, 204589043000000),
                    (204589045000000, 204589046000000)
                ]
            ),
            info(
                BlockRarity::Palindrome,
                vec![
                    (204589010985402, 204589010985403),
                    (204589020985402, 204589020985403),
                    (204589030985402, 204589030985403),
                    (204589040985402, 204589040985403)
                ]
            )
        ]
    );
}

#[test]
fn test_block666_range() {
    let pizza = pizza();
    let block_rarities = get_block_rarities(
        &pizza,
        666 * 50 * COIN_VALUE + 1000,
        666 * 50 * COIN_VALUE + 2000,
    )
    .unwrap();
    assert_eq!(
        block_rarities,
        vec![
            info(
                BlockRarity::Vintage,
                vec![(666 * 50 * COIN_VALUE + 1000, 666 * 50 * COIN_VALUE + 2000),]
            ),
            info(
                BlockRarity::Block666,
                vec![(666 * 50 * COIN_VALUE + 1000, 666 * 50 * COIN_VALUE + 2000),]
            ),
        ]
    );
}

#[test]
fn test_get_palindromes_from_sat_range() {
    let mut palindromes = get_palindromes_from_sat_range(1, 999);
    assert_eq!(
        palindromes,
        vec![
            1, 2, 3, 4, 5, 6, 7, 8, 9, 11, 22, 33, 44, 55, 66, 77, 88, 99, 101, 111, 121, 131, 141,
            151, 161, 171, 181, 191, 202, 212, 222, 232, 242, 252, 262, 272, 282, 292, 303, 313, 323,
            333, 343, 353, 363, 373, 383, 393, 404, 414, 424, 434, 444, 454, 464, 474, 484, 494, 505,
            515, 525, 535, 545, 555, 565, 575, 585, 595, 606, 616, 626, 636, 646, 656, 666, 676, 686,
            696, 707, 717, 727, 737, 747, 757, 767, 777, 787, 797, 808, 818, 828, 838, 848, 858, 868,
            878, 888, 898, 909, 919, 929, 939, 949, 959, 969, 979, 989, 999
        ]
    );
    palindromes = get_palindromes_from_sat_range(3153515_5000000, 3153515_6000000);
    assert_eq!(palindromes, vec![31535155153513]);
    palindromes = get_palindromes_from_sat_range(1999999_9999999, 2000000_0999999);
    assert_eq!(palindromes, vec![20000000000002]);
    palindromes = get_palindromes_from_sat_range(3153515_6000000, 3153515_7000000);
    assert_eq!(palindromes.len(), 0);
}
