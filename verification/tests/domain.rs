use d2rlauncher::domain::{str_equal, Region};

#[test]
fn regions_are_listed_once_in_order() {
    assert_eq!(Region::ALL, [Region::Americas, Region::Europe, Region::Asia]);
    assert_eq!(Region::all(), Region::ALL);
    assert_eq!(Region::default(), Region::Americas);
}

#[test]
fn region_hosts_flags_and_names() {
    assert_eq!(Region::Americas.ping_host(), "us.actual.battle.net");
    assert_eq!(Region::Europe.ping_host(), "eu.actual.battle.net");
    assert_eq!(Region::Asia.ping_host(), "kr.actual.battle.net");
    assert_eq!(Region::Americas.flag(), "\u{1F1FA}\u{1F1F8}");
    assert_eq!(Region::Europe.flag(), "\u{1F1EA}\u{1F1FA}");
    assert_eq!(Region::Asia.flag(), "\u{1F1EF}\u{1F1F5}");
    assert_eq!(Region::Europe.name(), "Europe");
}

#[test]
fn region_names_round_trip() {
    for region in Region::ALL {
        assert_eq!(Region::from_name(region.name()), Some(region));
    }
    assert_eq!(Region::from_name("europe"), None);
    assert_eq!(Region::from_name(""), None);
}

#[test]
fn str_equal_compares_characters() {
    assert!(str_equal("Asia", "Asia"));
    assert!(!str_equal("Asia", "Asi"));
    assert!(!str_equal("Asia", "Asio"));
}
