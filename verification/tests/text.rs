use rosu_tracker::format::format_number;
use rosu_tracker::image::{form_url, port_or_default, BASE_COVER_URL, DEFAULT_PORT, END_COVER_URL};
use rosu_tracker::respektive::{respektive_url, zero_as_none};
use rosu_tracker::respektive::{
    RankHistoryEntry, RespektiveUser, RespektiveUserRankHighest, RespektiveUsers,
};
use rosu_tracker::setup::{credentials, parse_client_id, StartupError};
use rosu_tracker::text::{decimal, push_decimal, str_eq};
use rosu_tracker::types::Api;

fn user(raw_rank: u32, user_id: u32, highest: Option<u32>) -> RespektiveUser {
    RespektiveUser::new(
        raw_rank,
        user_id,
        highest.map(|rank| RespektiveUserRankHighest {
            rank,
            updated_at: "2024-01-01".to_string(),
        }),
        None,
    )
}

#[test]
fn format_number_below_one_thousand() {
    assert_eq!(format_number(0), "0");
    assert_eq!(format_number(7), "7");
    assert_eq!(format_number(42), "42");
    assert_eq!(format_number(999), "999");
}

#[test]
fn format_number_groups_by_three() {
    assert_eq!(format_number(1000), "1,000");
    assert_eq!(format_number(1234), "1,234");
    assert_eq!(format_number(12345), "12,345");
    assert_eq!(format_number(123456), "123,456");
    assert_eq!(format_number(1234567), "1,234,567");
    assert_eq!(format_number(123456789), "123,456,789");
}

#[test]
fn format_number_keeps_inner_zeros() {
    assert_eq!(format_number(1_000_000), "1,000,000");
    assert_eq!(format_number(1_002_003), "1,002,003");
    assert_eq!(format_number(10_010), "10,010");
    assert_eq!(format_number(100_001), "100,001");
}

#[test]
fn format_number_at_the_largest_value() {
    assert_eq!(format_number(u64::MAX), "18,446,744,073,709,551,615");
    assert_eq!(format_number(u32::MAX as u64), "4,294,967,295");
}

#[test]
fn format_number_is_the_decimal_with_commas() {
    for n in [0u64, 9, 10, 99, 100, 999, 1000, 9999, 10_000, 999_999, 1_000_000, 98_765_432_101] {
        let text = format_number(n);
        assert_eq!(text.replace(',', ""), n.to_string());
        let groups: Vec<&str> = text.split(',').collect();
        assert!(!groups[0].is_empty() && groups[0].len() <= 3);
        assert!(groups[1..].iter().all(|g| g.len() == 3));
    }
}

#[test]
fn decimal_writes_numbers() {
    assert_eq!(decimal(0), "0");
    assert_eq!(decimal(5), "5");
    assert_eq!(decimal(10), "10");
    assert_eq!(decimal(1203), "1203");
    assert_eq!(decimal(u64::MAX), "18446744073709551615");
    let mut text = "id=".to_string();
    push_decimal(&mut text, 907);
    assert_eq!(text, "id=907");
}

#[test]
fn str_eq_compares_characters() {
    assert!(str_eq("", ""));
    assert!(str_eq("/tops", "/tops"));
    assert!(!str_eq("/tops", "/top"));
    assert!(!str_eq("/tops", "/tOps"));
    assert!(!str_eq("", "/"));
    assert!(str_eq("h\u{e9}llo", "h\u{e9}llo"));
    assert!(!str_eq("h\u{e9}llo", "hello"));
}

#[test]
fn client_id_is_a_decimal_number() {
    assert_eq!(parse_client_id("0"), Some(0));
    assert_eq!(parse_client_id("12345"), Some(12345));
    assert_eq!(parse_client_id("007"), Some(7));
    assert_eq!(parse_client_id("+5"), Some(5));
    assert_eq!(parse_client_id("18446744073709551615"), Some(u64::MAX));
}

#[test]
fn client_id_rejects_what_is_no_number() {
    assert_eq!(parse_client_id(""), None);
    assert_eq!(parse_client_id("+"), None);
    assert_eq!(parse_client_id("-1"), None);
    assert_eq!(parse_client_id("++1"), None);
    assert_eq!(parse_client_id("12a"), None);
    assert_eq!(parse_client_id(" 12"), None);
    assert_eq!(parse_client_id("12 "), None);
    assert_eq!(parse_client_id("1_000"), None);
    assert_eq!(parse_client_id("\u{663}"), None);
}

#[test]
fn client_id_rejects_what_does_not_fit() {
    assert_eq!(parse_client_id("18446744073709551616"), None);
    assert_eq!(parse_client_id("99999999999999999999"), None);
    assert_eq!(parse_client_id("184467440737095516150"), None);
}

#[test]
fn client_id_agrees_with_the_standard_parser() {
    for text in ["0", "1", "+0", "+", "", "-", "-0", "00", "4x", "18446744073709551615",
        "18446744073709551616", "+18446744073709551615", "123456789012345678901234567890"]
    {
        assert_eq!(parse_client_id(text), text.parse::<u64>().ok(), "{:?}", text);
    }
}

#[test]
fn credentials_need_a_numeric_identifier() {
    let api = Api { id: "4711".to_string(), secret: "s3".to_string(), username: "peppy".to_string() };
    let made = credentials(&api).unwrap();
    assert_eq!(made.client_id, 4711);
    assert_eq!(made.secret, "s3");
    assert_eq!(made.username, "peppy");
    let bad = Api { id: "abc".to_string(), ..api };
    assert_eq!(credentials(&bad).unwrap_err(), StartupError::InvalidClientId);
    assert_eq!(credentials(&Api::default()).unwrap_err(), StartupError::InvalidClientId);
}

#[test]
fn zero_rank_stands_for_none() {
    assert_eq!(zero_as_none(0), None);
    assert_eq!(zero_as_none(1), Some(1));
    assert_eq!(zero_as_none(u32::MAX), Some(u32::MAX));
    assert_eq!(user(0, 1, None).rank, None);
    assert_eq!(user(12, 1, None).rank, Some(12));
}

#[test]
fn ranked_means_a_rank_now_or_before() {
    assert!(user(5, 1, None).is_ranked());
    assert!(user(0, 1, Some(9)).is_ranked());
    assert!(user(5, 1, Some(3)).is_ranked());
    assert!(!user(0, 1, None).is_ranked());
}

#[test]
fn users_come_out_in_order_with_empty_places() {
    let mut users =
        RespektiveUsers::from(vec![user(5, 1, None), user(0, 2, None), user(0, 3, Some(8))]);
    assert_eq!(users.len(), 3);
    assert_eq!(users.next().unwrap().unwrap().user_id, 1);
    assert_eq!(users.len(), 2);
    assert_eq!(users.next(), Some(None));
    assert_eq!(users.next().unwrap().unwrap().user_id, 3);
    assert_eq!(users.len(), 0);
    assert_eq!(users.next(), None);
    assert_eq!(users.next(), None);
}

#[test]
fn no_users_hand_out_nothing() {
    let mut users = RespektiveUsers::from(Vec::new());
    assert_eq!(users.len(), 0);
    assert_eq!(users.next(), None);
}

#[test]
fn rank_history_is_carried_along() {
    let history = vec![
        RankHistoryEntry { rank: Some(10), date: "2024-01-01".to_string() },
        RankHistoryEntry { rank: None, date: "2024-01-02".to_string() },
    ];
    let made = RespektiveUser::new(3, 77, None, Some(history.clone()));
    assert_eq!(made.user_id, 77);
    assert_eq!(made.rank_history, Some(history));
    assert_eq!(made.rank_highest, None);
}

#[test]
fn ranking_address() {
    assert_eq!(respektive_url(0), "https://score.respektive.pw/u/0");
    assert_eq!(respektive_url(4242), "https://score.respektive.pw/u/4242");
    assert_eq!(respektive_url(u32::MAX), "https://score.respektive.pw/u/4294967295");
}

#[test]
fn cover_address() {
    assert_eq!(form_url(1), "http://assets.ppy.sh/beatmaps/1/covers/cover.jpg");
    assert_eq!(form_url(773801), "http://assets.ppy.sh/beatmaps/773801/covers/cover.jpg");
    assert_eq!(form_url(0), format!("{}0{}", BASE_COVER_URL, END_COVER_URL));
}

#[test]
fn port_defaults_to_eighty() {
    assert_eq!(port_or_default(None), 80);
    assert_eq!(port_or_default(Some(8080)), 8080);
    assert_eq!(DEFAULT_PORT, 80);
}
