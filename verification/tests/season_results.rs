use iracing_api::model::season_results::{EventType, QueryFilter, SeasonResultsQuery};
use iracing_api::text::{bool_to_string, u32_to_string};

#[test]
fn season_results_query_no_options() {
    let params = SeasonResultsQuery::new(1).as_query_params();
    assert_eq!(params, &[("season_id", "1".into())]);
}

#[test]
fn season_results_query_event_type() {
    let params = SeasonResultsQuery::new(1)
        .event_type(EventType::Practice)
        .as_query_params();
    assert_eq!(
        params,
        &[("season_id", "1".into()), ("event_type", "2".into()),]
    )
}

#[test]
fn season_results_query_race_week_num() {
    let params = SeasonResultsQuery::new(1)
        .race_week_num(5)
        .as_query_params();
    assert_eq!(
        params,
        &[("season_id", "1".into()), ("race_week_num", "5".into()),]
    )
}

#[test]
fn season_results_query_all_options() {
    let params = SeasonResultsQuery::new(1)
        .event_type(EventType::Practice)
        .race_week_num(5)
        .as_query_params();
    assert_eq!(
        params,
        &[
            ("season_id", "1".into()),
            ("event_type", "2".into()),
            ("race_week_num", "5".into()),
        ]
    )
}

#[test]
fn filters_go_out_in_the_order_they_were_set() {
    let params = SeasonResultsQuery::new(2345)
        .race_week_num(5)
        .event_type(EventType::Race)
        .as_query_params();
    assert_eq!(
        params,
        vec![
            ("season_id", "2345".to_string()),
            ("race_week_num", "5".to_string()),
            ("event_type", "5".to_string()),
        ]
    );
}

#[test]
fn setting_a_filter_again_changes_its_value_in_place() {
    let params = SeasonResultsQuery::new(7)
        .event_type(EventType::Practice)
        .race_week_num(1)
        .event_type(EventType::TimeTrial)
        .race_week_num(12)
        .as_query_params();
    assert_eq!(
        params,
        vec![
            ("season_id", "7".to_string()),
            ("event_type", "4".to_string()),
            ("race_week_num", "12".to_string()),
        ]
    );
}

#[test]
fn a_filter_given_as_a_value_is_set_like_any_other() {
    let params = SeasonResultsQuery::new(3)
        .filter(QueryFilter::RaceWeekNum(0))
        .filter(QueryFilter::EventType(EventType::Qualify))
        .as_query_params();
    assert_eq!(
        params,
        vec![
            ("season_id", "3".to_string()),
            ("race_week_num", "0".to_string()),
            ("event_type", "3".to_string()),
        ]
    );
}

#[test]
fn no_key_is_sent_twice() {
    let params = SeasonResultsQuery::new(1)
        .race_week_num(1)
        .race_week_num(2)
        .race_week_num(3)
        .as_query_params();
    assert_eq!(
        params,
        vec![("season_id", "1".to_string()), ("race_week_num", "3".to_string())]
    );
}

#[test]
fn building_a_query_twice_gives_the_same_parameters() {
    let first = SeasonResultsQuery::new(99)
        .event_type(EventType::Race)
        .as_query_params();
    let second = SeasonResultsQuery::new(99)
        .event_type(EventType::Race)
        .as_query_params();
    assert_eq!(first, second);
}

#[test]
fn season_ids_are_written_in_decimal() {
    assert_eq!(
        SeasonResultsQuery::new(0).as_query_params(),
        vec![("season_id", "0".to_string())]
    );
    assert_eq!(
        SeasonResultsQuery::new(4294967295).as_query_params(),
        vec![("season_id", "4294967295".to_string())]
    );
}

#[test]
fn event_types_have_their_wire_codes() {
    assert_eq!(EventType::Practice.code(), 2);
    assert_eq!(EventType::Qualify.code(), 3);
    assert_eq!(EventType::TimeTrial.code(), 4);
    assert_eq!(EventType::Race.code(), 5);
    assert_eq!(EventType::Practice.to_string(), "2");
    assert_eq!(EventType::Qualify.to_string(), "3");
    assert_eq!(EventType::TimeTrial.to_string(), "4");
    assert_eq!(EventType::Race.to_string(), "5");
}

#[test]
fn event_types_are_read_back_from_their_codes() {
    assert_eq!(EventType::from_code(2), Some(EventType::Practice));
    assert_eq!(EventType::from_code(3), Some(EventType::Qualify));
    assert_eq!(EventType::from_code(4), Some(EventType::TimeTrial));
    assert_eq!(EventType::from_code(5), Some(EventType::Race));
    assert_eq!(EventType::from_code(0), None);
    assert_eq!(EventType::from_code(1), None);
    assert_eq!(EventType::from_code(6), None);
    assert_eq!(EventType::from_code(255), None);
    let mut code: u8 = 0;
    loop {
        if let Some(event_type) = EventType::from_code(code) {
            assert_eq!(event_type.code(), code);
        }
        if code == 255 {
            break;
        }
        code += 1;
    }
}

#[test]
fn numbers_are_written_as_std_writes_them() {
    let samples: Vec<u32> = vec![
        0, 1, 9, 10, 11, 99, 100, 101, 999, 1000, 12345, 65535, 65536, 1000000, 2147483647,
        2147483648, 4294967294, 4294967295,
    ];
    for n in samples {
        assert_eq!(u32_to_string(n), n.to_string());
    }
    assert_eq!(u32_to_string(2345), "2345");
    assert_eq!(u32_to_string(1000000007), "1000000007");
}

#[test]
fn booleans_are_written_in_letters() {
    assert_eq!(bool_to_string(true), "true");
    assert_eq!(bool_to_string(false), "false");
}
