use sat_rarity::{is_palindrome, is_pizza_sat, pizza_table, BlockRarity, RangeTable};

fn pizza() -> RangeTable {
    pizza_table().unwrap()
}

#[test]
fn test_is_palindrome() {
    assert!(is_palindrome(&164114646411461u64));
    assert!(!is_palindrome(&164114646411462u64));
}

#[test]
fn block_rarities() {
    let pizza = pizza();
    assert_eq!(
        sat_rarity::block_rarities(&pizza, 1),
        [BlockRarity::Vintage, BlockRarity::Palindrome]
    );
    assert_eq!(
        sat_rarity::block_rarities(&pizza, 1),
        [BlockRarity::Vintage, BlockRarity::Palindrome]
    );
    assert_eq!(sat_rarity::block_rarities(&pizza, 1000), [BlockRarity::Vintage]);
    assert_eq!(
        sat_rarity::block_rarities(&pizza, 1430418430854),
        [BlockRarity::Vintage, BlockRarity::Nakamoto]
    );
    assert_eq!(
        sat_rarity::block_rarities(&pizza, 45017789073),
        [
            BlockRarity::Vintage,
            BlockRarity::Nakamoto,
            BlockRarity::FirstTransaction,
            BlockRarity::Block9
        ]
    );
    assert_eq!(
        sat_rarity::block_rarities(&pizza, 392664457568),
        [BlockRarity::Vintage, BlockRarity::Block78]
    );
    assert_eq!(sat_rarity::block_rarities(&pizza, 263080763952535), [BlockRarity::Pizza]);
    assert_eq!(
        sat_rarity::block_rarities(&pizza, 874357828753478),
        [BlockRarity::Palindrome]
    );
    assert_eq!(
        sat_rarity::block_rarities(&pizza, 120488565884021),
        [BlockRarity::Pizza, BlockRarity::Palindrome]
    );
    assert_eq!(sat_rarity::block_rarities(&pizza, 463080763952535), []);
}

fn parse_case(s: &str, expected: BlockRarity) {
    let actual = s.parse::<BlockRarity>().unwrap();
    assert_eq!(actual, expected);
    let round_trip = actual.to_string().parse::<BlockRarity>().unwrap();
    assert_eq!(round_trip, expected);
    let serialized = serde_json::to_string(expected.as_str()).unwrap();
    let token: String = serde_json::from_str(&serialized).unwrap();
    assert!(token.parse::<BlockRarity>().is_ok());
}

#[test]
fn from_str_and_deserialize_ok() {
    parse_case("vintage", BlockRarity::Vintage);
    parse_case("nakamoto", BlockRarity::Nakamoto);
    parse_case("firsttransaction", BlockRarity::FirstTransaction);
    parse_case("pizza", BlockRarity::Pizza);
    parse_case("block9", BlockRarity::Block9);
    parse_case("block78", BlockRarity::Block78);
    parse_case("palindrome", BlockRarity::Palindrome);
}

#[test]
fn from_str_err() {
    "abc".parse::<BlockRarity>().unwrap_err();

    "".parse::<BlockRarity>().unwrap_err();
}

#[test]
fn test_is_pizza_sat() {
    let pizza = pizza();
    assert!(is_pizza_sat(&pizza, &120485000000000));
    assert!(!is_pizza_sat(&pizza, &120475000000000));
    assert!(!is_pizza_sat(&pizza, &120495000000000));
    // ranges in block 40918
    assert!(is_pizza_sat(&pizza, &204589179000000));
    assert!(is_pizza_sat(&pizza, &204589184000001));
    assert!(is_pizza_sat(&pizza, &204589186000002));
    assert!(is_pizza_sat(&pizza, &204589199000003));
    assert!(!is_pizza_sat(&pizza, &204589182000003));
    assert!(!is_pizza_sat(&pizza, &204589185000002));
    assert!(!is_pizza_sat(&pizza, &204589189000001));
    assert!(!is_pizza_sat(&pizza, &204589200000000));
}
