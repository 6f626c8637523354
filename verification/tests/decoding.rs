use pointercrate::error::CoreError;
use pointercrate::nationality::Nationality;
use pointercrate::pagination::{decode_all, page, PageContext, Pagination, PaginationParameters};
use pointercrate::player::{
    DatabasePlayer, Player, PlayerPagination, PlayerRow, RankedPlayer, RankedPlayerRow,
    RankingPagination,
};
use pointercrate::record::{
    MinimalDemon, MinimalRecordPD, RecordPagination, RecordRow, RecordStatus,
};
use pointercrate::user::{User, UserPagination, UserRow};

fn parameters(before: Option<i32>, after: Option<i32>, limit: u32) -> PaginationParameters {
    PaginationParameters { before, after, limit }
}

fn text(value: &str) -> Option<String> {
    Some(value.to_string())
}

fn player_row(id: i32, nation: Option<&str>, code: Option<&str>) -> PlayerRow {
    PlayerRow {
        id,
        name: format!("player {}", id),
        banned: id % 2 == 0,
        nation: nation.map(str::to_string),
        iso_country_code: code.map(str::to_string),
    }
}

fn all_players(params: PaginationParameters) -> PlayerPagination {
    PlayerPagination { params, name: None, name_contains: None, banned: None, nation: None }
}

#[test]
fn nationality_needs_both_columns() {
    assert_eq!(
        Nationality::from_columns(text("Germany"), text("DE")),
        Some(Nationality { iso_country_code: "DE".to_string(), nation: "Germany".to_string(), subdivision: None })
    );
    assert_eq!(Nationality::from_columns(text("Germany"), None), None);
    assert_eq!(Nationality::from_columns(None, text("DE")), None);
    assert_eq!(Nationality::from_columns(None, None), None);
}

#[test]
fn player_row_becomes_a_player() {
    let player = Player::from_row(player_row(4, Some("France"), Some("FR")));
    assert_eq!(
        player,
        Player {
            base: DatabasePlayer { id: 4, name: "player 4".to_string(), banned: true },
            nationality: Some(Nationality {
                iso_country_code: "FR".to_string(),
                nation: "France".to_string(),
                subdivision: None
            }),
        }
    );
    assert_eq!(PlayerPagination::id_of(&player), 4);
    let stateless = PlayerPagination::decode(player_row(5, None, Some("FR"))).unwrap();
    assert_eq!(stateless.nationality, None);
    assert_eq!(stateless.base, DatabasePlayer { id: 5, name: "player 5".to_string(), banned: false });
}

#[test]
fn players_page_decodes_and_trims() {
    let rows = vec![player_row(1, None, None), player_row(2, Some("Spain"), Some("ES")), player_row(3, None, None)];
    let (items, context) = all_players(parameters(None, None, 2)).page(rows, Some((1, 9))).unwrap();
    assert_eq!(items.len(), 2);
    assert_eq!(items[0], Player::from_row(player_row(1, None, None)));
    assert_eq!(items[1], Player::from_row(player_row(2, Some("Spain"), Some("ES"))));
    assert_eq!(
        context,
        PageContext { has_next: true, has_previous: false, first_id: Some(1), last_id: Some(9) }
    );
}

#[test]
fn players_first_and_last_needs_both_extremes() {
    assert_eq!(PlayerPagination::first_and_last(Some(2), Some(80)), Some((2, 80)));
    assert_eq!(PlayerPagination::first_and_last(None, None), None);
    assert_eq!(PlayerPagination::first_and_last(Some(2), None), None);
}

fn ranked_row(id: i32, rank: i64, score: f64, index: i64) -> RankedPlayerRow {
    RankedPlayerRow {
        id,
        name: format!("player {}", id),
        rank,
        score: score.to_bits(),
        index,
        nation: None,
        iso_country_code: None,
    }
}

fn whole_ranking(params: PaginationParameters) -> RankingPagination {
    RankingPagination { params, nation: None, continent: None, subdivision: None, name_contains: None }
}

#[test]
fn ranked_row_becomes_a_ranked_player() {
    let player = RankedPlayer::from_row(RankedPlayerRow {
        nation: text("Italy"),
        iso_country_code: text("IT"),
        ..ranked_row(70, 3, 412.25, 4)
    });
    assert_eq!(player.id, 70);
    assert_eq!(player.name, "player 70");
    assert_eq!(player.rank, 3);
    assert_eq!(f64::from_bits(player.score), 412.25);
    assert_eq!(player.index, 4);
    assert_eq!(player.nationality.unwrap().iso_country_code, "IT");
}

#[test]
fn cursor_of_a_ranked_player_is_its_place() {
    let player = RankedPlayer::from_row(ranked_row(70, 3, 412.25, 4));
    assert_eq!(RankingPagination::id_of(&player), 4);
    let far = RankedPlayer::from_row(ranked_row(1, 1, 0.0, (1i64 << 32) + 5));
    assert_eq!(RankingPagination::id_of(&far), 5);
    let last = RankedPlayer::from_row(ranked_row(1, 1, 0.0, i32::MAX as i64));
    assert_eq!(RankingPagination::id_of(&last), i32::MAX);
}

#[test]
fn players_of_equal_score_are_told_apart_by_their_place() {
    // Two players share the score 250.0 and with it the rank 2.
    let ranking = vec![
        ranked_row(11, 1, 300.0, 1),
        ranked_row(45, 2, 250.0, 2),
        ranked_row(23, 2, 250.0, 3),
        ranked_row(8, 4, 100.0, 4),
    ];
    let fetch = |params: PaginationParameters| {
        let mut rows: Vec<RankedPlayerRow> = ranking
            .iter()
            .filter(|row| params.after.map_or(true, |after| row.index > after as i64))
            .filter(|row| params.before.map_or(true, |before| row.index < before as i64))
            .map(|row| ranked_row(row.id, row.rank, f64::from_bits(row.score), row.index))
            .collect();
        if params.before.is_some() && params.after.is_none() {
            rows.reverse();
        }
        rows.truncate(params.limit as usize + 1);
        whole_ranking(params).page(rows, RankingPagination::first_and_last(Some(1), Some(4))).unwrap()
    };
    let (first, context) = fetch(parameters(None, None, 2));
    assert_eq!(first.iter().map(|player| player.id).collect::<Vec<_>>(), vec![11, 45]);
    assert_eq!(context, PageContext { has_next: true, has_previous: false, first_id: Some(1), last_id: Some(4) });
    let cursor = RankingPagination::id_of(&first[1]);
    assert_eq!(cursor, 2);
    let (second, context) = fetch(parameters(None, Some(cursor), 2));
    assert_eq!(second.iter().map(|player| player.id).collect::<Vec<_>>(), vec![23, 8]);
    assert_eq!(second[0].score, first[1].score);
    assert_eq!(second[0].rank, first[1].rank);
    assert_eq!(context, PageContext { has_next: false, has_previous: true, first_id: Some(1), last_id: Some(4) });
    let (back, _) = fetch(parameters(Some(RankingPagination::id_of(&second[0])), None, 2));
    assert_eq!(back.iter().map(|player| player.id).collect::<Vec<_>>(), vec![11, 45]);
}

#[test]
fn ranking_extremes_are_the_smallest_and_the_greatest_place_kept() {
    assert_eq!(RankingPagination::first_and_last(Some(1), Some(10)), Some((1, 10)));
    assert_eq!(RankingPagination::first_and_last(Some(5), Some(6)), Some((5, 6)));
    assert_eq!(RankingPagination::first_and_last(Some(3), Some(3)), Some((3, 3)));
    assert_eq!(
        RankingPagination::first_and_last(Some(1), Some(i32::MAX as i64)),
        Some((1, i32::MAX))
    );
}

#[test]
fn ranking_without_a_player_kept_has_no_extremes() {
    assert_eq!(RankingPagination::first_and_last(None, None), None);
    assert_eq!(RankingPagination::first_and_last(Some(1), None), None);
    assert_eq!(RankingPagination::first_and_last(None, Some(9)), None);
}

#[test]
fn ranking_extremes_keep_the_lower_bits_of_a_place_that_does_not_fit() {
    assert_eq!(
        RankingPagination::first_and_last(Some((1i64 << 32) + 2), Some((1i64 << 32) + 7)),
        Some((2, 7))
    );
}

#[test]
fn filtered_ranking_page_is_bounded_by_the_places_the_filters_keep() {
    // Of a ranking of nine players the filters keep those at the places 5 and 6.
    let request = RankingPagination {
        params: parameters(None, Some(2), 2),
        nation: Some(text("Germany")),
        continent: None,
        subdivision: None,
        name_contains: None,
    };
    let rows = vec![ranked_row(41, 5, 120.0, 5), ranked_row(42, 6, 110.0, 6)];
    let bounds = RankingPagination::first_and_last(Some(5), Some(6));
    let (items, context) = request.page(rows, bounds).unwrap();
    assert_eq!(items.iter().map(|player| player.index).collect::<Vec<_>>(), vec![5, 6]);
    assert_eq!(
        context,
        PageContext { has_next: false, has_previous: false, first_id: Some(5), last_id: Some(6) }
    );
}

#[test]
fn filtered_ranking_that_keeps_no_player_has_an_empty_page() {
    let request = RankingPagination {
        params: parameters(None, Some(2), 2),
        nation: Some(text("Atlantis")),
        continent: None,
        subdivision: None,
        name_contains: None,
    };
    let bounds = RankingPagination::first_and_last(None, None);
    let (items, context) = request.page(vec![], bounds).unwrap();
    assert_eq!(items, vec![]);
    assert_eq!(
        context,
        PageContext { has_next: false, has_previous: false, first_id: None, last_id: None }
    );
}

fn record_row(id: i32, status: &str) -> RecordRow {
    RecordRow {
        id,
        progress: 87,
        video: text("https://www.youtube.com/watch?v=xyz"),
        status: status.to_string(),
        player_id: 3,
        player_name: "Aquatias".to_string(),
        player_banned: false,
        demon_id: 17,
        position: 2,
        demon_name: "Bloodbath".to_string(),
    }
}

#[test]
fn record_row_becomes_a_record() {
    let record = RecordPagination::decode(record_row(9, "UNDER_CONSIDERATION")).unwrap();
    assert_eq!(
        record,
        MinimalRecordPD {
            id: 9,
            progress: 87,
            video: text("https://www.youtube.com/watch?v=xyz"),
            status: RecordStatus::UnderConsideration,
            player: DatabasePlayer { id: 3, name: "Aquatias".to_string(), banned: false },
            demon: MinimalDemon { id: 17, position: 2, name: "Bloodbath".to_string() },
        }
    );
    assert_eq!(RecordPagination::id_of(&record), 9);
}

#[test]
fn record_row_with_an_unknown_status_is_a_database_error() {
    assert_eq!(RecordPagination::decode(record_row(9, "PENDING")), Err(CoreError::DatabaseError));
    assert_eq!(RecordPagination::decode(record_row(9, "")), Err(CoreError::DatabaseError));
}

#[test]
fn records_page_is_built_only_if_every_row_decodes() {
    let request = RecordPagination::default().with_parameters(parameters(None, None, 1));
    let rows = vec![record_row(1, "APPROVED"), record_row(2, "nonsense")];
    assert_eq!(request.page(rows, Some((1, 2))), Err(CoreError::DatabaseError));
    let rows = vec![record_row(1, "APPROVED"), record_row(2, "REJECTED")];
    let (items, context) = request.page(rows, Some((1, 2))).unwrap();
    assert_eq!(items.len(), 1);
    assert_eq!(items[0].id, 1);
    assert_eq!(items[0].status, RecordStatus::Approved);
    assert_eq!(context, PageContext { has_next: true, has_previous: false, first_id: Some(1), last_id: Some(2) });
}

#[test]
fn records_first_and_last_needs_both_extremes() {
    assert_eq!(RecordPagination::first_and_last(Some(-2), Some(80)), Some((-2, 80)));
    assert_eq!(RecordPagination::first_and_last(None, Some(80)), None);
}

#[test]
fn decode_all_stops_at_the_first_row_that_cannot_be_decoded() {
    let rows = vec![record_row(1, "SUBMITTED"), record_row(2, "APPROVED")];
    let records = decode_all::<RecordPagination>(rows).unwrap();
    assert_eq!(records.iter().map(|record| record.id).collect::<Vec<_>>(), vec![1, 2]);
    let rows = vec![record_row(1, "SUBMITTED"), record_row(2, "?"), record_row(3, "APPROVED")];
    assert_eq!(decode_all::<RecordPagination>(rows), Err(CoreError::DatabaseError));
    assert_eq!(decode_all::<RecordPagination>(vec![]), Ok(vec![]));
}

fn user_row(id: i32, permissions: i32) -> UserRow {
    UserRow {
        member_id: id,
        name: format!("user {}", id),
        permissions,
        display_name: text("Shown"),
        youtube_channel: None,
    }
}

#[test]
fn user_row_becomes_a_user() {
    let user = User::from_row(user_row(12, 0x8001));
    assert_eq!(
        user,
        User {
            id: 12,
            name: "user 12".to_string(),
            permissions: 0x8001,
            display_name: text("Shown"),
            youtube_channel: None,
        }
    );
    assert_eq!(UserPagination::id_of(&user), 12);
    assert_eq!(UserPagination::decode(user_row(12, 0x8001)), Ok(user));
}

#[test]
fn permissions_keep_their_lower_sixteen_bits() {
    assert_eq!(User::from_row(user_row(1, 0)).permissions, 0);
    assert_eq!(User::from_row(user_row(1, 65535)).permissions, 65535);
    assert_eq!(User::from_row(user_row(1, 0x1_0003)).permissions, 3);
    assert_eq!(User::from_row(user_row(1, -1)).permissions, 0xffff);
}

#[test]
fn from_rows_keeps_the_order_of_the_rows() {
    let users = User::from_rows(vec![user_row(5, 1), user_row(2, 3), user_row(9, 0)]);
    assert_eq!(users.iter().map(|user| user.id).collect::<Vec<_>>(), vec![5, 2, 9]);
    assert_eq!(users.iter().map(|user| user.permissions).collect::<Vec<_>>(), vec![1, 3, 0]);
    assert_eq!(User::from_rows(vec![]), vec![]);
}

#[test]
fn users_page_turns_a_backward_scan_round() {
    let request = UserPagination {
        params: parameters(Some(10), None, 2),
        name: None,
        name_contains: None,
        display_name: None,
        has_permissions: None,
        any_permissions: None,
    };
    let rows = vec![user_row(9, 0), user_row(7, 0), user_row(4, 0)];
    let (items, context) = page(&request, rows, UserPagination::first_and_last(Some(1), Some(30))).unwrap();
    assert_eq!(items.iter().map(|user| user.id).collect::<Vec<_>>(), vec![7, 9]);
    assert_eq!(context, PageContext { has_next: true, has_previous: true, first_id: Some(1), last_id: Some(30) });
}
