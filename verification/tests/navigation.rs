use undersea::Episode;
use undersea::Focus;
use undersea::NavEvent;
use undersea::NavigationController;
use undersea::Show;
use undersea::Shows;

fn episode(n: u64) -> Episode {
    Episode {
        media_url: format!("https://example.org/{n}.mp3"),
        title: format!("episode {n}"),
        date: n as i64,
        description: None,
        duration: None,
        resume_time: 0,
        finished: false,
    }
}

fn show(name: &str, episode_count: u64) -> Show {
    let mut episodes = Vec::new();
    for n in 0..episode_count {
        episodes.push(episode(n));
    }
    Show {
        url: format!("https://example.org/{name}.xml"),
        name: String::from(name),
        episodes,
        image: None,
        last_checked: 0,
        last_upload: 0,
    }
}

fn catalog(shows: Vec<Show>) -> Shows {
    Shows { shows, last_change: 0 }
}

#[test]
fn initial_state_empty_catalog() {
    let cat = catalog(vec![]);
    let nav = NavigationController::new(&cat);
    assert_eq!(nav.focus, Focus::Shows);
    assert_eq!(nav.show_cursor, None);
    assert_eq!(nav.episode_cursor, None);
    assert_eq!(nav.committed_episode, None);
    assert!(!nav.should_exit());
}

#[test]
fn initial_state_highlights_first_show() {
    let cat = catalog(vec![show("alpha", 2)]);
    let nav = NavigationController::new(&cat);
    assert_eq!(nav.show_cursor, Some(0));
}

#[test]
fn move_down_clamps_without_wraparound() {
    // Three consecutive moves down over two shows stop at the last index.
    let cat = catalog(vec![show("alpha", 1), show("beta", 1)]);
    let mut nav = NavigationController::new(&cat);
    nav.handle(NavEvent::MoveDown, &cat);
    nav.handle(NavEvent::MoveDown, &cat);
    nav.handle(NavEvent::MoveDown, &cat);
    assert_eq!(nav.show_cursor, Some(1));
}

#[test]
fn move_up_clamps_at_zero() {
    let cat = catalog(vec![show("alpha", 1), show("beta", 1)]);
    let mut nav = NavigationController::new(&cat);
    nav.handle(NavEvent::MoveUp, &cat);
    assert_eq!(nav.show_cursor, Some(0));
}

#[test]
fn move_right_into_empty_episode_list() {
    // The selected show has no episodes: the episode cursor stays absent
    // and a following move down is a no-op.
    let cat = catalog(vec![show("alpha", 0)]);
    let mut nav = NavigationController::new(&cat);
    nav.handle(NavEvent::MoveRight, &cat);
    assert_eq!(nav.focus, Focus::Episodes);
    assert_eq!(nav.episode_cursor, None);
    nav.handle(NavEvent::MoveDown, &cat);
    assert_eq!(nav.episode_cursor, None);
    assert_eq!(nav.show_cursor, Some(0));
}

#[test]
fn move_right_highlights_first_episode() {
    let cat = catalog(vec![show("alpha", 3)]);
    let mut nav = NavigationController::new(&cat);
    nav.handle(NavEvent::MoveRight, &cat);
    assert_eq!(nav.episode_cursor, Some(0));
}

#[test]
fn episode_moves_clamp_within_show() {
    let cat = catalog(vec![show("alpha", 2)]);
    let mut nav = NavigationController::new(&cat);
    nav.handle(NavEvent::MoveRight, &cat);
    nav.handle(NavEvent::MoveDown, &cat);
    nav.handle(NavEvent::MoveDown, &cat);
    nav.handle(NavEvent::MoveDown, &cat);
    assert_eq!(nav.episode_cursor, Some(1));
    nav.handle(NavEvent::MoveUp, &cat);
    nav.handle(NavEvent::MoveUp, &cat);
    nav.handle(NavEvent::MoveUp, &cat);
    assert_eq!(nav.episode_cursor, Some(0));
}

#[test]
fn confirm_commits_highlighted_episode() {
    let cat = catalog(vec![show("alpha", 3)]);
    let mut nav = NavigationController::new(&cat);
    nav.handle(NavEvent::MoveRight, &cat);
    nav.handle(NavEvent::MoveDown, &cat);
    nav.handle(NavEvent::Confirm, &cat);
    assert_eq!(nav.committed_episode, Some(1));
}

#[test]
fn confirm_does_nothing_in_show_focus() {
    let cat = catalog(vec![show("alpha", 3)]);
    let mut nav = NavigationController::new(&cat);
    nav.handle(NavEvent::Confirm, &cat);
    assert_eq!(nav.committed_episode, None);
}

#[test]
fn show_change_clears_episode_selection() {
    // Regression test for the stale-index invariant: a committed episode
    // of one show must not survive a move to a differently sized show.
    let cat = catalog(vec![show("alpha", 3), show("beta", 0)]);
    let mut nav = NavigationController::new(&cat);
    nav.handle(NavEvent::MoveRight, &cat);
    nav.handle(NavEvent::MoveDown, &cat);
    nav.handle(NavEvent::Confirm, &cat);
    assert_eq!(nav.episode_cursor, Some(1));
    assert_eq!(nav.committed_episode, Some(1));
    nav.handle(NavEvent::MoveLeft, &cat);
    assert_eq!(nav.episode_cursor, None);
    nav.handle(NavEvent::MoveDown, &cat);
    assert_eq!(nav.show_cursor, Some(1));
    assert_eq!(nav.episode_cursor, None);
    assert_eq!(nav.committed_episode, None);
}

#[test]
fn quit_signals_exit() {
    let cat = catalog(vec![show("alpha", 1)]);
    let mut nav = NavigationController::new(&cat);
    assert!(!nav.should_exit());
    nav.handle(NavEvent::Quit, &cat);
    assert!(nav.should_exit());
    assert_eq!(nav.show_cursor, Some(0));
}
