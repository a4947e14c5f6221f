//! Configuration data for a watch set, and the watcher's error taxonomy.
//!
//! The configuration document format is owned by an external serializer; the
//! surrounding process parses the document and hands a `WatchConfig` of plain
//! values to this library.

use vstd::prelude::*;

use crate::paths::SegmentPath;

verus! {

/// How the notification engine detects changes; passed through unmodified.
#[derive(Clone, Copy, PartialEq, Eq, Structural, Debug)]
pub enum WatchMode {
    Event,
    Poll,
}

/// The bytes of the configuration document's name for `WatchMode::Event`,
/// "event".
pub open spec fn event_name() -> Seq<u8> {
    seq![101u8, 118u8, 101u8, 110u8, 116u8]
}

/// The bytes of the configuration document's name for `WatchMode::Poll`,
/// "poll".
pub open spec fn poll_name() -> Seq<u8> {
    seq![112u8, 111u8, 108u8, 108u8]
}

impl WatchMode {
    /// Interprets the configuration document's mode field: exactly "event"
    /// and "poll" name a mode; anything else is a parse failure.
    pub fn from_name(name: &Vec<u8>) -> (r: Option<WatchMode>)
        ensures
            r == Some(WatchMode::Event) <==> name@ == event_name(),
            r == Some(WatchMode::Poll) <==> name@ == poll_name(),
            r.is_none() <==> name@ != event_name() && name@ != poll_name(),
    {
        if name.len() == 5 && name[0] == 101 && name[1] == 118 && name[2] == 101 && name[3] == 110
            && name[4] == 116 {
            proof {
                assert(name@ =~= event_name());
            }
            Some(WatchMode::Event)
        } else if name.len() == 4 && name[0] == 112 && name[1] == 111 && name[2] == 108 && name[3]
            == 108 {
            proof {
                assert(name@ =~= poll_name());
            }
            Some(WatchMode::Poll)
        } else {
            proof {
                if name@ == event_name() {
                    assert(name@.len() == 5);
                    assert(false);
                }
                if name@ == poll_name() {
                    assert(name@.len() == 4);
                    assert(false);
                }
            }
            None
        }
    }
}

/// One watched repository root, as configured (before resolution).
pub struct RepoConfig {
    pub path: SegmentPath,
}

/// A full watch-set configuration. An empty `repos` list is legal (a no-op
/// watch), and any `debounce_period` is legal (the window in time ticks).
pub struct WatchConfig {
    pub repos: Vec<RepoConfig>,
    pub mode: WatchMode,
    pub debounce_period: u64,
}

/// Construction-time failures. Steady-state callback failures are soft and
/// never surface as values of this type.
#[derive(Debug)]
pub enum Error {
    /// The configuration document was unreadable or unparseable.
    Config,
    /// A configured repository path failed to resolve; `index` is the
    /// position of the first failing entry in the configured list.
    Path { index: usize },
    /// The notification engine refused a registration.
    Notification,
    /// The repository engine failed at construction time.
    Repo,
}

} // verus!
