//! Resources of the user interface: the workspace and configuration it
//! works on, and the status messages it shows.

use vstd::prelude::*;
use std::collections::VecDeque;
use crate::utils::config::app_config::AppConfig;
use crate::utils::workspaces::Workspace;

verus! {

/// The workspace, as a resource of the user interface.
pub struct WorkspaceResource {
    /// The workspace.
    pub inner: Workspace,
}

/// The configuration, as a resource of the user interface.
pub struct ConfigResource {
    /// The configuration.
    pub inner: AppConfig,
}

/// The most status messages shown at once.
pub const MAX_STATUS_MESSAGES: usize = 3;

/// How many frames a status message stays.
pub const MESSAGE_DURATION_FRAMES: u32 = 100;

/// The status messages of the application, each with the frames it has
/// left, the oldest first; and the loading indicator.
pub struct AppStatus {
    /// The messages and their remaining frames.
    pub messages: VecDeque<(String, u32)>,
    /// Whether something is loading.
    pub is_loading: bool,
    /// How far loading has come, in percent.
    pub loading_progress: u8,
}

/// The texts and timers of a message queue.
pub open spec fn message_views(q: Seq<(String, u32)>) -> Seq<(Seq<char>, u32)> {
    q.map_values(|m: (String, u32)| (m.0@, m.1))
}

/// The queue of status messages after `m` is added (see
/// `AppStatus::set_message`).
pub open spec fn with_message(shown: Seq<(Seq<char>, u32)>, m: Seq<char>) -> Seq<(Seq<char>, u32)> {
    (if shown.len() >= MAX_STATUS_MESSAGES {
        shown.drop_first()
    } else {
        shown
    }).push((m, MESSAGE_DURATION_FRAMES))
}

impl AppStatus {
    /// The messages, as texts and timers.
    pub open spec fn shown(&self) -> Seq<(Seq<char>, u32)> {
        message_views(self.messages@)
    }

    /// A status with no message, not loading.
    pub fn new() -> (s: Self)
        ensures
            s.shown() == Seq::<(Seq<char>, u32)>::empty(),
            !s.is_loading,
            s.loading_progress == 0,
    {
        let s = AppStatus { messages: VecDeque::new(), is_loading: false, loading_progress: 0 };
        assert(s.shown() =~= Seq::<(Seq<char>, u32)>::empty());
        s
    }

    /// Adds a message with a full timer, dropping the oldest when three are
    /// already shown.
    pub fn set_message(&mut self, message: String)
        ensures
            final(self).shown() == (if old(self).shown().len() >= MAX_STATUS_MESSAGES {
                old(self).shown().drop_first()
            } else {
                old(self).shown()
            }).push((message@, MESSAGE_DURATION_FRAMES)),
            final(self).is_loading == old(self).is_loading,
            final(self).loading_progress == old(self).loading_progress,
    {
        let ghost q0 = self.messages@;
        if self.messages.len() >= MAX_STATUS_MESSAGES {
            self.messages.pop_front();
            assert(message_views(self.messages@) =~= message_views(q0).drop_first());
        }
        let ghost q1 = self.messages@;
        self.messages.push_back((message, MESSAGE_DURATION_FRAMES));
        assert(message_views(self.messages@) =~= message_views(q1).push(
            (self.messages@.last().0@, MESSAGE_DURATION_FRAMES),
        ));
    }
}

impl Default for AppStatus {
    fn default() -> (s: Self)
        ensures
            s.shown() == Seq::<(Seq<char>, u32)>::empty(),
            !s.is_loading,
            s.loading_progress == 0,
    {
        AppStatus::new()
    }
}

} // verus!
