use crab_control::logic::Emotion;
use crab_control::puzzle::{
    Judgement, Label, PullRequest, Puzzle, PuzzleKey, Puzzles, judgement, solve_emotion,
};

fn sample_puzzles() -> Vec<Puzzle> {
    vec![
        Puzzle {
            pr_number: 1,
            markdown: "# one".to_string(),
            html: "<h1>one</h1>".to_string(),
            judgement: Judgement::Merge,
        },
        Puzzle {
            pr_number: 2,
            markdown: "# two".to_string(),
            html: "<h1>two</h1>".to_string(),
            judgement: Judgement::Closed,
        },
    ]
}

#[test]
fn generate_and_solve_round_trip() {
    let mut puzzles = Puzzles::from_puzzles(sample_puzzles());
    let key = puzzles.generate(100);

    // The generated session resolves to one of the loaded puzzles.
    let html = puzzles.get_html(&key).expect("session should exist").to_string();
    assert!(html == "<h1>one</h1>" || html == "<h1>two</h1>");

    let expected = if html == "<h1>one</h1>" { Judgement::Merge } else { Judgement::Closed };
    let (okay, solution) = puzzles.solve(&key, expected);
    assert!(okay);
    assert_eq!(solution, Some(expected));

    // Solving consumes the session.
    let (okay, solution) = puzzles.solve(&key, expected);
    assert!(!okay);
    assert_eq!(solution, None);
    assert!(puzzles.get_html(&key).is_none());
}

#[test]
fn wrong_attempt_reports_solution() {
    let mut puzzles = Puzzles::from_puzzles(vec![Puzzle {
        pr_number: 7,
        markdown: String::new(),
        html: "<p>rfc</p>".to_string(),
        judgement: Judgement::Merge,
    }]);
    let key = puzzles.generate(100);
    let (okay, solution) = puzzles.solve(&key, Judgement::Closed);
    assert!(!okay);
    assert_eq!(solution, Some(Judgement::Merge));
}

#[test]
fn empty_container_hands_out_unsolvable_keys() {
    let mut puzzles = Puzzles::new();
    let key = puzzles.generate(100);
    assert!(puzzles.get_html(&key).is_none());
    assert_eq!(puzzles.next_timeout(), None);
    let (okay, solution) = puzzles.solve(&key, Judgement::Merge);
    assert!(!okay);
    assert_eq!(solution, None);
}

#[test]
fn unknown_key_solves_nothing() {
    let mut puzzles = Puzzles::from_puzzles(sample_puzzles());
    puzzles.generate(100);
    let unknown = PuzzleKey([0xffu8; 16]);
    if puzzles.get_html(&unknown).is_none() {
        let (okay, solution) = puzzles.solve(&unknown, Judgement::Merge);
        assert!(!okay);
        assert_eq!(solution, None);
    }
}

#[test]
fn reap_waits_for_the_latest_timeout() {
    let mut puzzles = Puzzles::from_puzzles(sample_puzzles());
    let early = puzzles.generate(100);
    let late = puzzles.generate(200);
    assert_eq!(puzzles.next_timeout(), Some(200));

    // The queue is drained latest-first: as long as its latest entry has
    // not expired, nothing is reaped.
    puzzles.reap(150);
    assert!(puzzles.get_html(&early).is_some());
    assert!(puzzles.get_html(&late).is_some());
    assert_eq!(puzzles.next_timeout(), Some(200));

    // Once even the latest entry has expired, every queued session goes.
    puzzles.reap(250);
    assert!(puzzles.get_html(&early).is_none());
    assert!(puzzles.get_html(&late).is_none());
    assert_eq!(puzzles.next_timeout(), None);
}

#[test]
fn keys_compare_by_bytes() {
    let a = PuzzleKey([1u8; 16]);
    let b = PuzzleKey([1u8; 16]);
    let mut c = PuzzleKey([1u8; 16]);
    c.0[15] = 2;
    assert!(a == b);
    assert!(a != c);
}

#[test]
fn judgement_follows_disposition_label() {
    let merge_pr = PullRequest {
        head_ref_oid: "abc".to_string(),
        labels: vec![
            Label {
                id: "1".to_string(),
                name: "T-lang".to_string(),
                description: String::new(),
            },
            Label {
                id: "2".to_string(),
                name: "disposition-merge".to_string(),
                description: "in FCP".to_string(),
            },
        ],
        number: 3662,
    };
    assert_eq!(judgement(&merge_pr), Judgement::Merge);

    let closed_pr = PullRequest {
        head_ref_oid: "def".to_string(),
        labels: vec![Label {
            id: "3".to_string(),
            name: "disposition-close".to_string(),
            description: String::new(),
        }],
        number: 1,
    };
    assert_eq!(judgement(&closed_pr), Judgement::Closed);

    let unlabeled = PullRequest { head_ref_oid: "ghi".to_string(), labels: vec![], number: 2 };
    assert_eq!(judgement(&unlabeled), Judgement::Closed);
}

#[test]
fn solve_reward_emotions() {
    assert_eq!(solve_emotion(true), Emotion::Happy);
    assert_eq!(solve_emotion(false), Emotion::Sad);
}
