use lobsters_mirror::model::{Comment, Story, User};
use lobsters_mirror::pipeline::{
    after_fetch, after_write, feed_url, output_files, plan_threads, summarize, thread_url, FailureKind, RunReport, ThreadAction,
    ThreadOutcome,
};
use lobsters_mirror::render::{render_thread, thread_file_name, Dialect};
use lobsters_mirror::time::{Instant, EARLIEST_SECOND, LATEST_SECOND};
use lobsters_mirror::time::format_instant;

fn story(title: &str, short_id: &str) -> Story {
    Story {
        title: title.to_string(),
        created_at: "2020-06-01T12:30:00Z".to_string(),
        score: 1,
        comment_count: 0,
        short_id: short_id.to_string(),
        short_id_url: format!("https://lobste.rs/s/{}", short_id),
        url: String::new(),
        tags: Vec::new(),
        submitter_user: User { username: "u".to_string() },
    }
}

#[test]
fn thread_address_appends_json() {
    assert_eq!(thread_url("https://lobste.rs/s/abc1"), "https://lobste.rs/s/abc1.json");
}

#[test]
fn one_index_and_one_thread_file_per_story() {
    let stories = vec![story("a", "s1"), story("b", "s2"), story("c", "s3")];
    let files = output_files(&stories, Dialect::Gemini);
    assert_eq!(files, vec!["index.gmi", "s1.gmi", "s2.gmi", "s3.gmi"]);
    let plain = output_files(&Vec::new(), Dialect::Plain);
    assert_eq!(plain, vec!["index.txt"]);
}

#[test]
fn jobs_follow_the_list() {
    let stories = vec![story("a", "s1"), story("b", "s2")];
    let jobs = plan_threads(&stories);
    assert_eq!(jobs.len(), 2);
    assert_eq!(jobs[0].story, 0);
    assert_eq!(jobs[1].story, 1);
    assert_eq!(jobs[1].url, "https://lobste.rs/s/s2.json");
}

#[test]
fn one_failure_leaves_the_others_written() {
    let stories = vec![story("a", "s1"), story("b", "s2"), story("c", "s3")];
    let mut outcomes = Vec::new();
    for (i, s) in stories.iter().enumerate() {
        let file = thread_file_name(s, Dialect::Gemini);
        if i == 1 {
            outcomes.push(ThreadOutcome::failed(s, file, FailureKind::Transport, "refused".to_string()));
        } else {
            outcomes.push(ThreadOutcome::written(file));
        }
    }
    let report = summarize(outcomes);
    assert_eq!(report.written, vec!["s1.gmi", "s3.gmi"]);
    assert_eq!(report.failed_count(), 1);
    assert_eq!(report.written_count(), 2);
    assert!(!report.is_complete());
    assert_eq!(report.failures[0].short_id, "s2");
    assert_eq!(report.failures[0].title, "b");
    assert_eq!(report.failures[0].kind, FailureKind::Transport);
    assert_eq!(report.failures[0].detail, "refused");
}

#[test]
fn every_failure_kind_is_recorded() {
    let s = story("a", "s1");
    let mut report = RunReport::new();
    assert!(report.is_complete());
    for kind in [FailureKind::Transport, FailureKind::Decode, FailureKind::Write] {
        report.record(ThreadOutcome::failed(&s, "s1.gmi".to_string(), kind, String::new()));
    }
    report.record(ThreadOutcome::written("s2.gmi".to_string()));
    let kinds: Vec<FailureKind> = report.failures.iter().map(|f| f.kind).collect();
    assert_eq!(kinds, vec![FailureKind::Transport, FailureKind::Decode, FailureKind::Write]);
    assert_eq!(report.written, vec!["s2.gmi"]);
}

#[test]
fn empty_batch_is_complete() {
    let report = summarize(Vec::new());
    assert!(report.is_complete());
    assert_eq!(report.written_count(), 0);
}

#[test]
fn calendar_bounds() {
    assert!(Instant::from_unix_seconds(LATEST_SECOND + 1).is_none());
    assert!(Instant::from_unix_seconds(EARLIEST_SECOND - 1).is_none());
    let last = Instant::from_unix_seconds(LATEST_SECOND).unwrap();
    assert!(format_instant(&last).ends_with("23:59:59 +262142"));
    let first = Instant::from_unix_seconds(EARLIEST_SECOND).unwrap();
    assert!(format_instant(&first).contains("00:00:00"));
    assert_eq!(last.unix_seconds(), LATEST_SECOND);
}

#[test]
fn feed_address_defaults_to_https() {
    assert_eq!(feed_url("lobste.rs"), "https://lobste.rs/hottest.json");
    assert_eq!(feed_url("http://localhost:3000"), "http://localhost:3000/hottest.json");
    assert_eq!(feed_url("https://lobste.rs"), "https://lobste.rs/hottest.json");
}

#[test]
fn fetched_thread_is_rendered_for_writing() {
    let s = story("a", "s1");
    let cs = vec![Comment {
        comment: "<p>hi</p>".to_string(),
        created_at: String::new(),
        score: 2,
        depth: 0,
        commenting_user: User { username: "c".to_string() },
    }];
    let expected = render_thread(&cs, &s, Dialect::Gemini);
    let fetched: Result<Vec<Comment>, (FailureKind, String)> = Ok(cs);
    match after_fetch(&s, Dialect::Gemini, &fetched) {
        ThreadAction::Write { file_name, page } => {
            assert_eq!(file_name, "s1.gmi");
            assert_eq!(page, expected);
            assert!(page.contains("> c commented [2]:\nhi\n"));
        }
        ThreadAction::Record(_) => panic!("a fetched thread is written"),
    }
}

#[test]
fn failed_fetch_is_recorded() {
    let s = story("a", "s1");
    let fetched: Result<Vec<Comment>, (FailureKind, String)> =
        Err((FailureKind::Decode, "bad json".to_string()));
    match after_fetch(&s, Dialect::Plain, &fetched) {
        ThreadAction::Record(o) => {
            assert_eq!(o.file_name, "s1.txt");
            let f = o.failure.unwrap();
            assert_eq!(f.kind, FailureKind::Decode);
            assert_eq!(f.detail, "bad json");
            assert_eq!(f.title, "a");
        }
        ThreadAction::Write { .. } => panic!("a failed fetch writes nothing"),
    }
}

#[test]
fn write_result_becomes_outcome() {
    let s = story("a", "s1");
    let ok = after_write(&s, "s1.gmi".to_string(), Ok(()));
    assert!(ok.failure.is_none());
    assert_eq!(ok.file_name, "s1.gmi");
    let bad = after_write(&s, "s1.gmi".to_string(), Err("disk full".to_string()));
    let f = bad.failure.unwrap();
    assert_eq!(f.kind, FailureKind::Write);
    assert_eq!(f.detail, "disk full");
    assert_eq!(f.short_id, "s1");
}
