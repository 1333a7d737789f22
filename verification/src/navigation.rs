use vstd::prelude::*;

use crate::Shows;

verus! {

/// Which of the two navigable lists currently receives vertical movement.
#[derive(Clone, Copy, Debug, PartialEq, Eq, Structural)]
pub enum Focus {
    Shows,
    Episodes,
}

/// A discrete input symbol, as the host's input decoder hands it over.
#[derive(Clone, Copy, Debug, PartialEq, Eq, Structural)]
pub enum NavEvent {
    MoveLeft,
    MoveRight,
    MoveDown,
    MoveUp,
    Confirm,
    Quit,
}

/// The two-level selection state machine over a catalog: a focus, a
/// highlighted show, a highlighted episode, and the episode the user has
/// explicitly confirmed. The controller reads the catalog and mutates only
/// its own selection state; out-of-range movement is clamped, never an
/// error.
#[derive(Debug)]
pub struct NavigationController {
    pub focus: Focus,
    pub show_cursor: Option<usize>,
    pub episode_cursor: Option<usize>,
    pub committed_episode: Option<usize>,
    pub exit: bool,
}

/// How many shows the catalog holds.
pub open spec fn show_count(catalog: Shows) -> int {
    catalog.shows@.len() as int
}

/// How many episodes the show at index `s` holds.
pub open spec fn episode_count(catalog: Shows, s: int) -> int {
    catalog.shows@[s].episodes@.len() as int
}

/// A cursor advanced by one, clamped below `len`: no wraparound.
pub open spec fn clamped_inc(cur: usize, len: int) -> usize {
    if cur + 1 < len {
        (cur + 1) as usize
    } else {
        cur
    }
}

/// A cursor retreated by one, clamped at zero: no wraparound.
pub open spec fn clamped_dec(cur: usize) -> usize {
    if cur > 0 {
        (cur - 1) as usize
    } else {
        cur
    }
}

/// The state after a vertical move on the show list. A move that lands on a
/// different show invalidates the episode cursor and the committed episode:
/// they indexed into the old show's independently sized episode list.
pub open spec fn moved_show_cursor(
    pre: NavigationController,
    catalog: Shows,
    down: bool,
) -> NavigationController {
    match pre.show_cursor {
        None => pre,
        Some(s) => {
            let ns = if down {
                clamped_inc(s, show_count(catalog))
            } else {
                clamped_dec(s)
            };
            if ns == s {
                pre
            } else {
                NavigationController {
                    show_cursor: Some(ns),
                    episode_cursor: None,
                    committed_episode: None,
                    ..pre
                }
            }
        },
    }
}

/// The state after a vertical move on the episode list: clamped within the
/// selected show's episode count, and a no-op while no episode is
/// highlighted.
pub open spec fn moved_episode_cursor(
    pre: NavigationController,
    catalog: Shows,
    down: bool,
) -> NavigationController {
    match pre.episode_cursor {
        None => pre,
        Some(e) => {
            let ne = if down {
                clamped_inc(e, episode_count(catalog, pre.show_cursor->0 as int))
            } else {
                clamped_dec(e)
            };
            NavigationController { episode_cursor: Some(ne), ..pre }
        },
    }
}

/// The transition function of the state machine: the exact state that one
/// input symbol produces from `pre` over `catalog`.
pub open spec fn nav_step(
    pre: NavigationController,
    event: NavEvent,
    catalog: Shows,
) -> NavigationController {
    match event {
        NavEvent::MoveLeft => NavigationController {
            focus: Focus::Shows,
            episode_cursor: None,
            ..pre
        },
        NavEvent::MoveRight => NavigationController {
            focus: Focus::Episodes,
            episode_cursor: match pre.show_cursor {
                Some(s) => if episode_count(catalog, s as int) > 0 {
                    Some(0usize)
                } else {
                    None
                },
                None => None,
            },
            ..pre
        },
        NavEvent::MoveDown => match pre.focus {
            Focus::Shows => moved_show_cursor(pre, catalog, true),
            Focus::Episodes => moved_episode_cursor(pre, catalog, true),
        },
        NavEvent::MoveUp => match pre.focus {
            Focus::Shows => moved_show_cursor(pre, catalog, false),
            Focus::Episodes => moved_episode_cursor(pre, catalog, false),
        },
        NavEvent::Confirm => match pre.focus {
            Focus::Shows => pre,
            Focus::Episodes => NavigationController {
                committed_episode: pre.episode_cursor,
                ..pre
            },
        },
        NavEvent::Quit => NavigationController { exit: true, ..pre },
    }
}

impl NavigationController {
    /// Integrity of the selection state against a catalog: the show cursor
    /// is a valid index (absent exactly while the catalog is empty), and
    /// both episode indices, when set, index into the currently selected
    /// show's episode list.
    pub open spec fn wf(&self, catalog: Shows) -> bool {
        &&& match self.show_cursor {
            Some(s) => s < catalog.shows@.len(),
            None => catalog.shows@.len() == 0,
        }
        &&& match self.episode_cursor {
            Some(e) => self.show_cursor matches Some(s) && e < catalog.shows@[s as int].episodes@.len(),
            None => true,
        }
        &&& match self.committed_episode {
            Some(e) => self.show_cursor matches Some(s) && e < catalog.shows@[s as int].episodes@.len(),
            None => true,
        }
    }

    /// A controller at startup: focus on the show list, the first show
    /// highlighted when one exists, nothing else selected.
    pub fn new(catalog: &Shows) -> (r: NavigationController)
        ensures
            r.focus is Shows,
            r.show_cursor == if catalog.shows@.len() > 0 {
                Some(0usize)
            } else {
                None::<usize>
            },
            r.episode_cursor is None,
            r.committed_episode is None,
            r.exit == false,
            r.wf(*catalog),
    {
        let show_cursor = if catalog.shows.len() > 0 {
            Some(0)
        } else {
            None
        };
        NavigationController {
            focus: Focus::Shows,
            show_cursor,
            episode_cursor: None,
            committed_episode: None,
            exit: false,
        }
    }

    /// Feeds one input symbol to the state machine. The new state is
    /// exactly what [`nav_step`] prescribes, and stays well formed against
    /// the same catalog.
    pub fn handle(&mut self, event: NavEvent, catalog: &Shows)
        requires
            old(self).wf(*catalog),
        ensures
            *final(self) == nav_step(*old(self), event, *catalog),
            final(self).wf(*catalog),
    {
        match event {
            NavEvent::MoveLeft => {
                self.focus = Focus::Shows;
                self.episode_cursor = None;
            },
            NavEvent::MoveRight => {
                self.focus = Focus::Episodes;
                self.episode_cursor = match self.show_cursor {
                    Some(s) => {
                        if catalog.shows[s].episodes.len() > 0 {
                            Some(0)
                        } else {
                            None
                        }
                    },
                    None => None,
                };
            },
            NavEvent::MoveDown | NavEvent::MoveUp => {
                let down = match event {
                    NavEvent::MoveDown => true,
                    _ => false,
                };
                match self.focus {
                    Focus::Shows => {
                        if let Some(s) = self.show_cursor {
                            let len = catalog.shows.len();
                            let ns = if down {
                                if s + 1 < len {
                                    s + 1
                                } else {
                                    s
                                }
                            } else {
                                if s > 0 {
                                    s - 1
                                } else {
                                    s
                                }
                            };
                            if ns != s {
                                self.show_cursor = Some(ns);
                                self.episode_cursor = None;
                                self.committed_episode = None;
                            }
                        }
                    },
                    Focus::Episodes => {
                        if let Some(e) = self.episode_cursor {
                            let s = match self.show_cursor {
                                Some(s) => s,
                                None => 0,
                            };
                            let count = catalog.shows[s].episodes.len();
                            let ne = if down {
                                if e + 1 < count {
                                    e + 1
                                } else {
                                    e
                                }
                            } else {
                                if e > 0 {
                                    e - 1
                                } else {
                                    e
                                }
                            };
                            self.episode_cursor = Some(ne);
                        }
                    },
                }
            },
            NavEvent::Confirm => {
                match self.focus {
                    Focus::Shows => {},
                    Focus::Episodes => {
                        self.committed_episode = self.episode_cursor;
                    },
                }
            },
            NavEvent::Quit => {
                self.exit = true;
            },
        }
    }

    /// Whether the controller has signalled the host loop to stop.
    pub fn should_exit(&self) -> (r: bool)
        ensures
            r == self.exit,
    {
        self.exit
    }
}

/// Stale-index protection: whenever one step lands on a different show, the
/// episode cursor and the committed episode come out cleared — an index
/// never outlives the show's episode list it pointed into.
pub proof fn lemma_show_change_clears_episode_state(
    pre: NavigationController,
    event: NavEvent,
    catalog: Shows,
)
    requires
        pre.wf(catalog),
    ensures
        nav_step(pre, event, catalog).show_cursor != pre.show_cursor ==> {
            &&& nav_step(pre, event, catalog).episode_cursor is None
            &&& nav_step(pre, event, catalog).committed_episode is None
        },
{
}

/// Every step keeps the selection state well formed against the catalog it
/// was driven by.
pub proof fn lemma_step_preserves_wf(
    pre: NavigationController,
    event: NavEvent,
    catalog: Shows,
)
    requires
        pre.wf(catalog),
    ensures
        nav_step(pre, event, catalog).wf(catalog),
{
}

} // verus!
