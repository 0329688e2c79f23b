use steam_summary::config::SteamConfig;
use steam_summary::config::player_summary_url;
use steam_summary::humanize::human_readable_duration;
use steam_summary::humanize::u64_to_decimal;
use steam_summary::model::ApiError;
use steam_summary::model::CommunityVisibilityState;
use steam_summary::model::GetPlayerSummaryResponse;
use steam_summary::model::GetPlayerSummaryResponseInner;
use steam_summary::model::PersonState;
use steam_summary::model::WirePlayer;
use steam_summary::model::decode_first_player;
use steam_summary::model::decode_player;
use steam_summary::present::render_player_summary;
use steam_summary::present::show_player_summary;

fn wire_player(personastate: i64, visibility: i64, lastlogoff: Option<i64>) -> WirePlayer {
    WirePlayer {
        steamid: String::from("76561197960435530"),
        personaname: String::from("Robin"),
        profileurl: String::from("https://steamcommunity.com/id/robinwalker/"),
        personastate,
        communityvisibilitystate: visibility,
        lastlogoff,
    }
}

fn response_of(players: Vec<WirePlayer>) -> GetPlayerSummaryResponse {
    GetPlayerSummaryResponse {
        response: GetPlayerSummaryResponseInner { players },
    }
}

#[test]
fn test_human_readable_duration() {
    let result = human_readable_duration(1);
    assert_eq!(result, "1秒");
}

#[test]
fn humanize_buckets() {
    assert_eq!(human_readable_duration(0), "0秒");
    assert_eq!(human_readable_duration(59), "59秒");
    assert_eq!(human_readable_duration(60), "1分");
    assert_eq!(human_readable_duration(3599), "59分");
    assert_eq!(human_readable_duration(3600), "1時間");
    assert_eq!(human_readable_duration(86399), "23時間");
    assert_eq!(human_readable_duration(86400), "1日");
    assert_eq!(human_readable_duration(86400 * 30), "1ヶ月");
    assert_eq!(human_readable_duration(86400 * 365), "1年");
    assert_eq!(human_readable_duration(86400 * 365 * 2 + 12345), "2年");
}

#[test]
fn decimal_rendering() {
    assert_eq!(u64_to_decimal(0), "0");
    assert_eq!(u64_to_decimal(7), "7");
    assert_eq!(u64_to_decimal(10), "10");
    assert_eq!(u64_to_decimal(1234567890), "1234567890");
    assert_eq!(u64_to_decimal(u64::MAX), "18446744073709551615");
}

#[test]
fn person_state_decodes_totally() {
    assert!(matches!(PersonState::from_code(0), PersonState::Offline));
    assert!(matches!(PersonState::from_code(1), PersonState::Online));
    assert!(matches!(PersonState::from_code(2), PersonState::Busy));
    assert!(matches!(PersonState::from_code(3), PersonState::Away));
    assert!(matches!(PersonState::from_code(4), PersonState::Snooze));
    assert!(matches!(PersonState::from_code(5), PersonState::LookingToTrade));
    assert!(matches!(PersonState::from_code(6), PersonState::LookingToPlay));
    assert!(matches!(PersonState::from_code(7), PersonState::Unknown));
    assert!(matches!(PersonState::from_code(-1), PersonState::Unknown));
    assert!(matches!(PersonState::from_code(i64::MIN), PersonState::Unknown));
    assert!(matches!(PersonState::from_code(i64::MAX), PersonState::Unknown));
}

#[test]
fn visibility_decodes_only_documented_codes() {
    assert_eq!(
        CommunityVisibilityState::from_code(1),
        Ok(CommunityVisibilityState::NotVisible)
    );
    assert_eq!(
        CommunityVisibilityState::from_code(3),
        Ok(CommunityVisibilityState::Visible)
    );
    assert_eq!(CommunityVisibilityState::from_code(0), Err(ApiError::Decode));
    assert_eq!(CommunityVisibilityState::from_code(2), Err(ApiError::Decode));
    assert_eq!(CommunityVisibilityState::from_code(4), Err(ApiError::Decode));
    assert_eq!(CommunityVisibilityState::from_code(-1), Err(ApiError::Decode));
}

#[test]
fn status_labels() {
    assert_eq!(PersonState::Offline.label(), "オフライン");
    assert_eq!(PersonState::Online.label(), "オンライン");
    assert_eq!(PersonState::Busy.label(), "取り込み中");
    assert_eq!(PersonState::Away.label(), "退席中");
    assert_eq!(PersonState::Snooze.label(), "スヌーズ");
    assert_eq!(PersonState::LookingToTrade.label(), "トレード希望");
    assert_eq!(PersonState::LookingToPlay.label(), "プレイ希望");
    assert_eq!(PersonState::Unknown.label(), "不明");
}

#[test]
fn visibility_labels() {
    assert_eq!(CommunityVisibilityState::NotVisible.label(), "閲覧不可能");
    assert_eq!(CommunityVisibilityState::Visible.label(), "閲覧可能");
}

#[test]
fn url_carries_key_and_id() {
    let config = SteamConfig {
        api_key: String::from("ABCDEF0123456789"),
        user_id: String::from("76561197960435530"),
    };
    assert_eq!(
        player_summary_url(&config),
        "http://api.steampowered.com/ISteamUser/GetPlayerSummaries/v0002/\
         ?key=ABCDEF0123456789&steamids=76561197960435530"
    );
}

#[test]
fn decode_player_maps_fields() {
    let decoded = decode_player(&wire_player(1, 3, Some(1431648000))).unwrap();
    assert_eq!(decoded.steamid, "76561197960435530");
    assert_eq!(decoded.personaname, "Robin");
    assert_eq!(decoded.profileurl, "https://steamcommunity.com/id/robinwalker/");
    assert!(matches!(decoded.personastate, PersonState::Online));
    assert!(matches!(
        decoded.communityvisibilitystate,
        CommunityVisibilityState::Visible
    ));
    assert_eq!(decoded.lastlogoff, Some(1431648000));
}

#[test]
fn decode_player_rejects_bad_visibility() {
    assert!(matches!(
        decode_player(&wire_player(1, 2, None)),
        Err(ApiError::Decode)
    ));
}

#[test]
fn empty_players_is_an_index_error() {
    assert!(matches!(
        decode_first_player(&response_of(Vec::new())),
        Err(ApiError::Index)
    ));
}

#[test]
fn first_player_is_taken() {
    let resp = response_of(vec![wire_player(4, 1, None), wire_player(1, 3, None)]);
    let decoded = decode_first_player(&resp).unwrap();
    assert!(matches!(decoded.personastate, PersonState::Snooze));
    assert!(matches!(
        decoded.communityvisibilitystate,
        CommunityVisibilityState::NotVisible
    ));
}

#[test]
fn summary_with_absent_last_logoff() {
    let resp = response_of(vec![wire_player(1, 3, None)]);
    let decoded = decode_first_player(&resp).unwrap();
    let text = show_player_summary(&decoded, 1431648000);
    assert_eq!(
        text,
        "Name: Robin\n\
         Steam ID: 76561197960435530\n\
         Profile: https://steamcommunity.com/id/robinwalker/\n\
         Status: オンライン\n\
         Visibility: 閲覧可能\n\
         Last logged off at: -\n"
    );
}

#[test]
fn summary_with_present_last_logoff_renders_at_fixed_offset() {
    // 1431648000 is 2015-05-15 00:00:00 UTC, i.e. 09:00:00 at +09:00.
    let decoded = decode_player(&wire_player(0, 1, Some(1431648000))).unwrap();
    let text = show_player_summary(&decoded, 1431648000 + 3599);
    assert_eq!(
        text,
        "Name: Robin\n\
         Steam ID: 76561197960435530\n\
         Profile: https://steamcommunity.com/id/robinwalker/\n\
         Status: オフライン\n\
         Visibility: 閲覧不可能\n\
         Last logged off at: 59分前 ( 2015年05月15日 09:00:00 )\n"
    );
}

#[test]
fn epoch_renders_at_fixed_offset() {
    let decoded = decode_player(&wire_player(2, 3, Some(0))).unwrap();
    let text = show_player_summary(&decoded, 60);
    assert!(text.contains("Last logged off at: 1分前 ( 1970年01月01日 09:00:00 )\n"));
}

#[test]
fn future_instant_clamps_to_zero_elapsed() {
    let decoded = decode_player(&wire_player(1, 3, Some(1000))).unwrap();
    let text = show_player_summary(&decoded, 0);
    assert!(text.contains("Last logged off at: 0秒前 ( 1970年01月01日 09:16:40 )\n"));
}

#[test]
fn render_at_current_time_matches_shape() {
    let decoded = decode_player(&wire_player(1, 3, None)).unwrap();
    let text = render_player_summary(&decoded);
    assert!(text.contains("Status: オンライン\n"));
    assert!(text.contains("Visibility: 閲覧可能\n"));
    assert!(text.contains("Last logged off at: -\n"));
}
