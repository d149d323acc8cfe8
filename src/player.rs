use vstd::prelude::*;

verus! {

/// What the playback backend is doing, as far as this side knows.
#[derive(Clone, Debug)]
pub enum PlayerState {
    Playing(String),
    Stopped,
    Buffering,
}

impl Default for PlayerState {
    fn default() -> (r: PlayerState)
        ensures
            r == PlayerState::Stopped,
    {
        PlayerState::Stopped
    }
}

/// A status event reported by the playback backend, reduced to the
/// categories that matter here.
#[derive(Clone, Debug)]
pub enum PlaybackEvent {
    /// A new stream was started.
    StartFile,
    /// Playback resumed after a seek or a stall.
    PlaybackRestart,
    /// The backend is shutting down.
    Shutdown,
    /// The current stream ended.
    EndFile,
    /// The stream's media title changed.
    TitleChanged(String),
    /// Anything else; ignored.
    Other,
}

/// The last known playback state and track title.
#[derive(Clone, Debug)]
pub struct Player {
    pub state: PlayerState,
    pub current_title: Option<String>,
}

impl Player {
    /// The title reported so far, or the empty text.
    pub open spec fn title_or_default(self) -> Seq<char> {
        match self.current_title {
            Some(t) => t@,
            None => Seq::empty(),
        }
    }

    /// Whether `next` and the returned `r` are what folding in `event` gives:
    /// start and restart mean playing with the known title, end and shutdown
    /// mean stopped, a title change replaces the title (and the playing
    /// state's title) but keeps the state's kind, and anything else, or no
    /// event, changes nothing. `r` is the new state where the kind may have
    /// changed.
    pub open spec fn folds(self, event: Option<PlaybackEvent>, next: Player, r: Option<PlayerState>) -> bool {
        match event {
            Some(PlaybackEvent::StartFile) | Some(PlaybackEvent::PlaybackRestart) => {
                &&& next.state matches PlayerState::Playing(t) && t@ == self.title_or_default()
                &&& next.current_title == self.current_title
                &&& r == Some(next.state)
            },
            Some(PlaybackEvent::Shutdown) | Some(PlaybackEvent::EndFile) => {
                &&& next.state == PlayerState::Stopped
                &&& next.current_title == self.current_title
                &&& r == Some(PlayerState::Stopped)
            },
            Some(PlaybackEvent::TitleChanged(t)) => {
                &&& next.state == (match self.state {
                    PlayerState::Playing(_) => PlayerState::Playing(t),
                    other => other,
                })
                &&& next.current_title == Some(t)
                &&& r.is_none()
            },
            _ => next == self && r.is_none(),
        }
    }

    pub fn new() -> (r: Player)
        ensures
            r.state == PlayerState::Stopped,
            r.current_title.is_none(),
    {
        Player { state: PlayerState::Stopped, current_title: None }
    }

    /// Records the outcome of a load command: the state becomes `Buffering`
    /// when the backend accepted it, and stays as it was otherwise.
    pub fn play(&mut self, accepted: bool)
        ensures
            final(self).state == (if accepted {
                PlayerState::Buffering
            } else {
                old(self).state
            }),
            final(self).current_title == old(self).current_title,
    {
        if accepted {
            self.state = PlayerState::Buffering;
        }
    }

    /// Records the outcome of a stop command: the state becomes `Stopped`
    /// when the backend accepted it, and stays as it was otherwise.
    pub fn stop(&mut self, accepted: bool)
        ensures
            final(self).state == (if accepted {
                PlayerState::Stopped
            } else {
                old(self).state
            }),
            final(self).current_title == old(self).current_title,
    {
        if accepted {
            self.state = PlayerState::Stopped;
        }
    }

    fn title_or_empty(&self) -> (r: String)
        ensures
            r@ == self.title_or_default(),
    {
        match &self.current_title {
            Some(t) => t.clone(),
            None => String::new(),
        }
    }

    /// Folds one polled backend event into the state and returns the new
    /// state where the event changed it. Start and restart mean playing with
    /// the known title, end and shutdown mean stopped, a title change only
    /// replaces the title, and anything else changes nothing.
    pub fn update_status(&mut self, event: Option<PlaybackEvent>) -> (r: Option<PlayerState>)
        ensures
            old(self).folds(event, *final(self), r),
    {
        match event {
            None => None,
            Some(PlaybackEvent::TitleChanged(t)) => {
                let t2 = t.clone();
                let state = match &self.state {
                    PlayerState::Playing(_) => PlayerState::Playing(t2),
                    PlayerState::Stopped => PlayerState::Stopped,
                    PlayerState::Buffering => PlayerState::Buffering,
                };
                self.state = state;
                self.current_title = Some(t);
                None
            },
            Some(PlaybackEvent::StartFile) | Some(PlaybackEvent::PlaybackRestart) => {
                let title = self.title_or_empty();
                self.state = PlayerState::Playing(title.clone());
                Some(PlayerState::Playing(title))
            },
            Some(PlaybackEvent::Shutdown) | Some(PlaybackEvent::EndFile) => {
                self.state = PlayerState::Stopped;
                Some(PlayerState::Stopped)
            },
            Some(PlaybackEvent::Other) => None,
        }
    }
}

} // verus!
