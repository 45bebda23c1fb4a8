use star_tracker::{OutputRow, Page, Pager, StarError, StarEvent, Step, Timestamp, User};

fn star(login: &str, seconds: i64) -> StarEvent {
    StarEvent {
        starred_at: Timestamp { seconds, nanos: 0 },
        user: User {
            login: login.to_string(),
            email: None,
            location: None,
            followers_count: 1,
            following_count: 2,
            is_hireable: false,
        },
    }
}

fn page(logins: &[&str], has_next_page: bool, end_cursor: Option<&str>) -> Page {
    Page {
        edges: logins.iter().enumerate().map(|(i, l)| star(l, i as i64)).collect(),
        has_next_page,
        end_cursor: end_cursor.map(|c| c.to_string()),
    }
}

/// Feeds pages to a pager as a simulated API would, recording each cursor
/// that the pager asks with.
fn drive(pages: Vec<Result<Page, StarError>>) -> (Vec<Option<String>>, Result<Vec<StarEvent>, StarError>) {
    let mut pager = Pager::new();
    let mut asked = Vec::new();
    let mut replies = pages.into_iter();
    loop {
        match pager.next_step() {
            Step::Fetch(cursor) => {
                asked.push(cursor);
                match replies.next().expect("the pager asked for more pages than exist") {
                    Ok(p) => pager.on_page(p),
                    Err(e) => pager.on_failure(e),
                }
            }
            Step::Done | Step::Abort(_) => break,
        }
    }
    (asked, pager.into_stars())
}

fn logins(stars: &[StarEvent]) -> Vec<String> {
    stars.iter().map(|s| s.user.login.clone()).collect()
}

#[test]
fn pages_of_varying_size_are_concatenated_in_order() {
    let (asked, result) = drive(vec![
        Ok(page(&["a", "b", "c"], true, Some("c1"))),
        Ok(page(&[], true, Some("c2"))),
        Ok(page(&["d"], true, Some("c3"))),
        Ok(page(&["e", "f"], false, Some("c4"))),
    ]);
    assert_eq!(asked.len(), 4);
    let stars = result.unwrap();
    assert_eq!(stars.len(), 6);
    assert_eq!(logins(&stars), vec!["a", "b", "c", "d", "e", "f"]);
}

#[test]
fn each_request_carries_the_previous_end_cursor() {
    let (asked, result) = drive(vec![
        Ok(page(&["a"], true, Some("first"))),
        Ok(page(&["b"], true, Some("second"))),
        Ok(page(&["c"], false, None)),
    ]);
    assert!(result.is_ok());
    assert_eq!(
        asked,
        vec![None, Some("first".to_string()), Some("second".to_string())]
    );
}

#[test]
fn a_first_page_without_successor_ends_the_loop() {
    let (asked, result) = drive(vec![
        Ok(page(&["a", "b"], false, Some("unused"))),
        Ok(page(&["never"], false, None)),
    ]);
    assert_eq!(asked, vec![None]);
    assert_eq!(logins(&result.unwrap()), vec!["a", "b"]);
}

#[test]
fn a_failed_second_page_aborts_without_partial_results() {
    let (asked, result) = drive(vec![
        Ok(page(&["a", "b"], true, Some("p1"))),
        Err(StarError::Remote(502)),
        Ok(page(&["c"], false, None)),
    ]);
    assert_eq!(asked, vec![None, Some("p1".to_string())]);
    match result {
        Err(StarError::Remote(code)) => assert_eq!(code, 502),
        other => panic!("expected the remote failure, got {:?}", other),
    }
}

#[test]
fn the_pager_reports_progress_and_its_next_step() {
    let mut pager = Pager::new();
    assert_eq!(pager.fetched(), 0);
    pager.on_page(page(&["a", "b"], true, Some("x")));
    assert_eq!(pager.fetched(), 2);
    match pager.next_step() {
        Step::Fetch(Some(c)) => assert_eq!(c, "x"),
        other => panic!("unexpected step {:?}", other),
    }
    pager.on_failure(StarError::Transport("connection reset".to_string()));
    match pager.next_step() {
        Step::Abort(StarError::Transport(m)) => assert_eq!(m, "connection reset"),
        other => panic!("unexpected step {:?}", other),
    }
    pager.on_page(page(&["late"], false, None));
    assert_eq!(pager.fetched(), 2);
}

#[test]
fn two_mocked_pages_give_three_rows_in_order() {
    let (asked, result) = drive(vec![
        Ok(page(&["p1e1", "p1e2"], true, Some("abc"))),
        Ok(page(&["p2e1"], false, None)),
    ]);
    assert_eq!(asked, vec![None, Some("abc".to_string())]);
    let rows: Vec<OutputRow> = result.unwrap().iter().map(OutputRow::from_star).collect();
    assert_eq!(rows.len(), 3);
    let names: Vec<&str> = rows.iter().map(|r| r.username.as_str()).collect();
    assert_eq!(names, vec!["p1e1", "p1e2", "p2e1"]);
}
