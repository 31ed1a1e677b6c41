use cronos::api::{check_status, integer_text, ApiConfig};
use cronos::banner::{banner_rows, split_lines};
use cronos::calculator::{
    build_merge_pattern, calculate_time_difference, flag_merge_commits, matches_pattern,
    select_origin, time_from_origin, Commit, MergeRequest,
};
use cronos::color::{hue_for, random_hue, Hue};
use cronos::error::GitLabError;
use cronos::report::{average_duration, decompose, hms_of_duration, whole_seconds, Tally};
use cronos::time::{nanos_between, parse_timestamp, Timestamp};

const NANOS: i128 = 1_000_000_000;

fn commit(created_at: &str, message: &str) -> Commit {
    Commit { created_at: created_at.to_string(), message: message.to_string() }
}

fn request(iid: i64, merged_at: &str) -> MergeRequest {
    MergeRequest { iid, merged_at: merged_at.to_string() }
}

#[test]
fn merge_commit_sets_origin() {
    let mr = request(42, "2024-01-10T12:00:00Z");
    let commits = vec![
        commit("2024-01-08T09:00:00Z", "Merge branch 'feature-x' into 'main'"),
        commit("2024-01-09T09:00:00Z", "fix typo"),
    ];
    let d = calculate_time_difference(&mr, &commits, "main").unwrap();
    assert_eq!(d, 183_600 * NANOS);
    assert_eq!(hms_of_duration(d), (51, 0, 0));
}

#[test]
fn no_merge_commit_uses_first_commit() {
    let mr = request(42, "2024-01-10T12:00:00Z");
    let commits = vec![
        commit("2024-01-08T09:00:00Z", "init"),
        commit("2024-01-09T09:00:00Z", "add feature"),
    ];
    let d = calculate_time_difference(&mr, &commits, "main").unwrap();
    assert_eq!(d, 183_600 * NANOS);
}

#[test]
fn last_merge_commit_wins_in_list_order() {
    let mr = request(7, "2024-01-10T12:00:00Z");
    let commits = vec![
        commit("2024-01-01T00:00:00Z", "start"),
        commit("2024-01-10T11:00:00Z", "Merge branch 'a' into 'main'"),
        commit("2024-01-02T00:00:00Z", "work"),
        commit("2024-01-10T10:00:00Z", "merge branch 'b' into 'main'"),
        commit("2024-01-10T11:30:00Z", "more work"),
    ];
    let d = calculate_time_difference(&mr, &commits, "main").unwrap();
    assert_eq!(d, 2 * 3600 * NANOS);
}

#[test]
fn merge_pattern_ignores_case() {
    let mr = request(1, "2024-01-10T12:00:00Z");
    let commits = vec![
        commit("2024-01-08T09:00:00Z", "first"),
        commit("2024-01-10T11:00:00Z", "MERGE BRANCH 'X' INTO 'Main'"),
    ];
    let d = calculate_time_difference(&mr, &commits, "MAIN").unwrap();
    assert_eq!(d, 3600 * NANOS);
}

#[test]
fn merge_into_other_branch_is_not_a_match() {
    let mr = request(1, "2024-01-10T12:00:00Z");
    let commits = vec![
        commit("2024-01-10T10:00:00Z", "first"),
        commit("2024-01-10T11:00:00Z", "Merge branch 'x' into 'develop'"),
    ];
    let d = calculate_time_difference(&mr, &commits, "main").unwrap();
    assert_eq!(d, 2 * 3600 * NANOS);
}

#[test]
fn empty_commit_list_fails() {
    let mr = request(1, "2024-01-10T12:00:00Z");
    let r = calculate_time_difference(&mr, &vec![], "main");
    assert!(matches!(r, Err(GitLabError::EmptyCommitList)));
}

#[test]
fn bad_merge_timestamp_comes_before_empty_list() {
    let r = calculate_time_difference(&request(1, "garbage"), &vec![], "main");
    assert!(matches!(r, Err(GitLabError::ChronoParseError(_))));
    let r = calculate_time_difference(&request(1, "2024-01-10T12:00:00"), &vec![], "main");
    assert!(matches!(r, Err(GitLabError::ChronoParseError(_))));
}

#[test]
fn bad_merge_timestamp_fails() {
    let mr = request(1, "yesterday");
    let commits = vec![commit("2024-01-08T09:00:00Z", "init")];
    let r = calculate_time_difference(&mr, &commits, "main");
    assert!(matches!(r, Err(GitLabError::ChronoParseError(_))));
}

#[test]
fn bad_commit_timestamp_fails() {
    let mr = request(1, "2024-01-10T12:00:00Z");
    let commits = vec![commit("2024-01-08 nine o'clock", "init")];
    let r = calculate_time_difference(&mr, &commits, "main");
    assert!(matches!(r, Err(GitLabError::ChronoParseError(_))));
}

#[test]
fn invalid_branch_pattern_fails() {
    let mr = request(1, "2024-01-10T12:00:00Z");
    let commits = vec![commit("2024-01-08T09:00:00Z", "init")];
    let r = calculate_time_difference(&mr, &commits, "main(");
    assert!(matches!(r, Err(GitLabError::RegexError(_))));
}

#[test]
fn branch_metacharacters_keep_their_meaning() {
    let flags = flag_merge_commits(
        &vec![
            commit("2024-01-08T09:00:00Z", "Merge branch 'a' into 'mainline'"),
            commit("2024-01-08T09:00:00Z", "Merge branch 'a' into 'maxn'"),
        ],
        "ma.n.*",
    )
    .unwrap();
    assert_eq!(flags, vec![true, true]);
}

#[test]
fn negative_duration_is_reported() {
    let mr = request(1, "2024-01-08T09:00:00Z");
    let commits = vec![commit("2024-01-08T09:00:01Z", "init")];
    let d = calculate_time_difference(&mr, &commits, "main").unwrap();
    assert_eq!(d, -NANOS);
    assert_eq!(hms_of_duration(d), (-1, 59, 59));
}

#[test]
fn pattern_is_built_in_lower_case() {
    assert_eq!(build_merge_pattern("Main"), "merge branch '.*' into 'main'");
}

#[test]
fn matching_folds_the_message() {
    let p = build_merge_pattern("main");
    assert!(matches_pattern(&p, "Merge Branch 'feature' Into 'Main'").unwrap());
    assert!(!matches_pattern(&p, "fix typo").unwrap());
    assert!(matches!(matches_pattern("(", "x"), Err(GitLabError::RegexError(_))));
}

#[test]
fn select_origin_rules() {
    assert_eq!(select_origin(&vec![]), None);
    assert_eq!(select_origin(&vec![false, false, false]), Some(0));
    assert_eq!(select_origin(&vec![true, false, true, false]), Some(2));
    assert_eq!(select_origin(&vec![false, false, true]), Some(2));
}

#[test]
fn time_from_origin_on_empty_list() {
    let t = Timestamp { seconds: 100, nanos: 0 };
    assert!(matches!(time_from_origin(&t, &vec![], &vec![]), Err(GitLabError::EmptyCommitList)));
}

#[test]
fn timestamps_parse_with_offsets_and_fractions() {
    let t = parse_timestamp("2024-01-10T12:00:00Z").unwrap();
    assert_eq!((t.seconds, t.nanos), (1_704_888_000, 0));
    let u = parse_timestamp("2024-01-10T13:00:00.250+01:00").unwrap();
    assert_eq!((u.seconds, u.nanos), (1_704_888_000, 250_000_000));
    assert_eq!(nanos_between(&t, &u), 250_000_000);
    assert!(matches!(parse_timestamp("2024-01-10"), Err(GitLabError::ChronoParseError(_))));
}

#[test]
fn average_over_no_requests_is_zero() {
    assert_eq!(average_duration(0, 0), 0);
    assert_eq!(average_duration(12_345, 0), 0);
    assert_eq!(Tally::new().average(), 0);
}

#[test]
fn average_of_identical_durations() {
    let mut tally = Tally::new();
    for _ in 0..7 {
        tally.record(183_600 * NANOS + 17);
    }
    assert_eq!(tally.count, 7);
    assert_eq!(tally.average(), 183_600 * NANOS + 17);
    let mut negative = Tally::new();
    for _ in 0..3 {
        negative.record(-5);
    }
    assert_eq!(negative.average(), -5);
}

#[test]
fn average_truncates_toward_zero() {
    assert_eq!(average_duration(7, 2), 3);
    assert_eq!(average_duration(-7, 2), -3);
    let mut tally = Tally::new();
    tally.record(NANOS);
    tally.record(2 * NANOS);
    assert_eq!(tally.total, 3 * NANOS);
    assert_eq!(tally.average(), 1_500_000_000);
    assert_eq!(whole_seconds(tally.average()), 1);
}

#[test]
fn whole_seconds_rounds_toward_zero() {
    assert_eq!(whole_seconds(1_999_999_999), 1);
    assert_eq!(whole_seconds(-1_999_999_999), -1);
    assert_eq!(whole_seconds(0), 0);
    assert_eq!(whole_seconds(i128::MIN), i128::MIN / NANOS);
}

#[test]
fn decompose_is_euclidean() {
    assert_eq!(decompose(0), (0, 0, 0));
    assert_eq!(decompose(3661), (1, 1, 1));
    assert_eq!(decompose(183_600), (51, 0, 0));
    assert_eq!(decompose(-1), (-1, 59, 59));
    assert_eq!(decompose(-3600), (-1, 0, 0));
    assert_eq!(decompose(-3661), (-2, 58, 59));
    for t in [0i128, 59, 60, 3599, 3600, 86_399, 1_000_000] {
        let (h, m, s) = decompose(t);
        assert_eq!(h * 3600 + m * 60 + s, t);
        assert!((0..60).contains(&m) && (0..60).contains(&s));
    }
}

#[test]
fn api_status_errors_abort() {
    for code in [401u16, 403, 404, 500, 502, 503, 199, 300] {
        assert!(matches!(check_status(code), Err(GitLabError::ApiError(c)) if c == code));
    }
    for code in [200u16, 201, 204, 299] {
        assert!(check_status(code).is_ok());
    }
}

#[test]
fn endpoint_addresses() {
    let config = ApiConfig {
        base_url: "https://gitlab.com/api/v4".to_string(),
        project_id: "123".to_string(),
        token: "t".to_string(),
    };
    assert_eq!(
        config.merged_requests_url("main", "production"),
        "https://gitlab.com/api/v4/projects/123/merge_requests?state=merged&source_branch=main&target_branch=production"
    );
    assert_eq!(
        config.commits_url(42),
        "https://gitlab.com/api/v4/projects/123/merge_requests/42/commits"
    );
    assert_eq!(
        config.commits_url(-7),
        "https://gitlab.com/api/v4/projects/123/merge_requests/-7/commits"
    );
}

#[test]
fn hues_for_numbers() {
    assert_eq!(hue_for(1), Hue::Red);
    assert_eq!(hue_for(2), Hue::Green);
    assert_eq!(hue_for(3), Hue::Blue);
    assert_eq!(hue_for(4), Hue::Yellow);
    assert_eq!(hue_for(5), Hue::Cyan);
    assert_eq!(hue_for(0), Hue::White);
    for _ in 0..50 {
        assert_ne!(random_hue(), Hue::White);
    }
}

#[test]
fn split_lines_like_str_split() {
    assert_eq!(split_lines("a\nb\n"), vec!["a", "b", ""]);
    assert_eq!(split_lines(""), vec![""]);
    assert_eq!(split_lines("\n\nxy"), vec!["", "", "xy"]);
    assert_eq!(split_lines("caf\u{e9}\n\u{1f600}"), vec!["caf\u{e9}", "\u{1f600}"]);
}

#[test]
fn banner_has_five_rows() {
    let rows = banner_rows("CRONOS CLI").unwrap();
    assert_eq!(rows.len(), 5);
    assert!(rows.iter().any(|r| !r.trim().is_empty()));
    assert!(rows.iter().all(|r| !r.contains('\n')));
    assert!(banner_rows("").is_none());
}

#[test]
fn integers_in_decimal() {
    assert_eq!(integer_text(0), "0");
    assert_eq!(integer_text(9), "9");
    assert_eq!(integer_text(10), "10");
    assert_eq!(integer_text(1234567890), "1234567890");
    assert_eq!(integer_text(-42), "-42");
    assert_eq!(integer_text(i64::MAX), i64::MAX.to_string());
    assert_eq!(integer_text(i64::MIN), i64::MIN.to_string());
}
