//! The Play button of a game card: its states, what each event does to it,
//! and how it looks. Downloading `umu-run`, starting and stopping the game,
//! and watching it are the caller's; it reports back with events.
use vstd::prelude::*;

use crate::text::{decimal, push_decimal, push_str, string_of};

verus! {

/// Where a game's Play button is.
#[derive(Debug, Clone, Copy, PartialEq, Eq, Structural)]
pub enum PlayState {
    /// Nothing running: the button offers Play.
    Idle,
    /// `umu-run` is being downloaded; the last progress reported, if any.
    Downloading(Option<u8>),
    /// The game is being started (after a download, or not).
    Starting(bool),
    /// The game was started; its window is not up yet.
    Launching,
    /// The game is running: the button offers Stop.
    Running,
}

/// What happened.
#[derive(Debug, Clone, Copy, PartialEq, Eq, Structural)]
pub enum PlayEvent {
    /// The button was pressed; whether `umu-run` must be downloaded first.
    Pressed(bool),
    /// The download reached this percentage.
    Progress(u8),
    /// `umu-run` is in place.
    UmuReady,
    /// The download failed.
    UmuFailed,
    /// The game's process was started.
    Spawned,
    /// The game's process could not be started.
    SpawnFailed,
    /// The game's process has a child: the game is up.
    GameReady,
    /// The game's process ended after this many seconds.
    GameExited(u64),
}

/// What the caller must do.
#[derive(Debug, Clone, Copy, PartialEq, Eq, Structural)]
pub enum PlayAction {
    Nothing,
    /// Download `umu-run`, reporting progress.
    DownloadUmu,
    /// Start the game.
    Launch,
    /// Kill the game's process tree.
    StopGame,
    /// Add a finished session of this many seconds to the game.
    RecordSession(u64),
}

/// The button's next state and the caller's action for an event.
pub open spec fn play_step(s: PlayState, e: PlayEvent) -> (PlayState, PlayAction) {
    match e {
        PlayEvent::GameExited(secs) => (PlayState::Idle, PlayAction::RecordSession(secs)),
        PlayEvent::Pressed(umu_needed) => match s {
            PlayState::Idle => if umu_needed {
                (PlayState::Downloading(None), PlayAction::DownloadUmu)
            } else {
                (PlayState::Starting(false), PlayAction::Launch)
            },
            PlayState::Launching | PlayState::Running => (PlayState::Idle, PlayAction::StopGame),
            _ => (s, PlayAction::Nothing),
        },
        PlayEvent::Progress(p) => match s {
            PlayState::Downloading(_) => (PlayState::Downloading(Some(p)), PlayAction::Nothing),
            _ => (s, PlayAction::Nothing),
        },
        PlayEvent::UmuReady => match s {
            PlayState::Downloading(_) => (PlayState::Starting(true), PlayAction::Launch),
            _ => (s, PlayAction::Nothing),
        },
        PlayEvent::UmuFailed => match s {
            PlayState::Downloading(_) => (PlayState::Idle, PlayAction::Nothing),
            _ => (s, PlayAction::Nothing),
        },
        PlayEvent::Spawned => match s {
            PlayState::Starting(_) => (PlayState::Launching, PlayAction::Nothing),
            _ => (s, PlayAction::Nothing),
        },
        PlayEvent::SpawnFailed => match s {
            PlayState::Starting(_) => (PlayState::Idle, PlayAction::Nothing),
            _ => (s, PlayAction::Nothing),
        },
        PlayEvent::GameReady => match s {
            PlayState::Launching => (PlayState::Running, PlayAction::Nothing),
            _ => (s, PlayAction::Nothing),
        },
    }
}

/// The button's next state and the caller's action for an event.
pub fn play_next(s: PlayState, e: PlayEvent) -> (r: (PlayState, PlayAction))
    ensures
        r == play_step(s, e),
{
    match e {
        PlayEvent::GameExited(secs) => (PlayState::Idle, PlayAction::RecordSession(secs)),
        PlayEvent::Pressed(umu_needed) => match s {
            PlayState::Idle => if umu_needed {
                (PlayState::Downloading(None), PlayAction::DownloadUmu)
            } else {
                (PlayState::Starting(false), PlayAction::Launch)
            },
            PlayState::Launching | PlayState::Running => (PlayState::Idle, PlayAction::StopGame),
            _ => (s, PlayAction::Nothing),
        },
        PlayEvent::Progress(p) => match s {
            PlayState::Downloading(_) => (PlayState::Downloading(Some(p)), PlayAction::Nothing),
            _ => (s, PlayAction::Nothing),
        },
        PlayEvent::UmuReady => match s {
            PlayState::Downloading(_) => (PlayState::Starting(true), PlayAction::Launch),
            _ => (s, PlayAction::Nothing),
        },
        PlayEvent::UmuFailed => match s {
            PlayState::Downloading(_) => (PlayState::Idle, PlayAction::Nothing),
            _ => (s, PlayAction::Nothing),
        },
        PlayEvent::Spawned => match s {
            PlayState::Starting(_) => (PlayState::Launching, PlayAction::Nothing),
            _ => (s, PlayAction::Nothing),
        },
        PlayEvent::SpawnFailed => match s {
            PlayState::Starting(_) => (PlayState::Idle, PlayAction::Nothing),
            _ => (s, PlayAction::Nothing),
        },
        PlayEvent::GameReady => match s {
            PlayState::Launching => (PlayState::Running, PlayAction::Nothing),
            _ => (s, PlayAction::Nothing),
        },
    }
}

/// How the button looks.
#[derive(Debug)]
pub struct ButtonLook {
    pub label: String,
    /// Styled as a Stop button (`btn-stop`) rather than a Play one.
    pub stop_style: bool,
    /// It can be pressed.
    pub sensitive: bool,
}

/// The label the button shows in a state.
pub open spec fn play_label(s: PlayState) -> Seq<char> {
    match s {
        PlayState::Idle => "▶  Play"@,
        PlayState::Downloading(None) => "⬇  Downloading UMU…"@,
        PlayState::Downloading(Some(p)) => "⬇  UMU "@ + decimal(p as nat) + "%"@,
        PlayState::Starting(after_download) => if after_download { "⏳  Launching…"@ } else { "▶  Play"@ },
        PlayState::Launching => "⏳  Launching…"@,
        PlayState::Running => "■  Stop"@,
    }
}

/// The button can be pressed only when nothing is running or the game is
/// up.
pub open spec fn play_pressable(s: PlayState) -> bool {
    s == PlayState::Idle || s == PlayState::Running
}

/// How the button looks in a state.
pub fn button_look(s: PlayState) -> (r: ButtonLook)
    ensures
        r.label@ == play_label(s),
        r.stop_style == (s != PlayState::Idle),
        r.sensitive == play_pressable(s),
{
    let label = match s {
        PlayState::Idle => String::from_str("▶  Play"),
        PlayState::Downloading(None) => String::from_str("⬇  Downloading UMU…"),
        PlayState::Downloading(Some(p)) => {
            let mut v: Vec<char> = Vec::new();
            push_str(&mut v, "⬇  UMU ");
            push_decimal(&mut v, p as u128);
            push_str(&mut v, "%");
            string_of(v.as_slice())
        },
        PlayState::Starting(after_download) => if after_download {
            String::from_str("⏳  Launching…")
        } else {
            String::from_str("▶  Play")
        },
        PlayState::Launching => String::from_str("⏳  Launching…"),
        PlayState::Running => String::from_str("■  Stop"),
    };
    let stop_style = match s {
        PlayState::Idle => false,
        _ => true,
    };
    let sensitive = match s {
        PlayState::Idle | PlayState::Running => true,
        _ => false,
    };
    ButtonLook { label, stop_style, sensitive }
}

/// The label of a card's main button: Play for an installed game, Install
/// otherwise.
pub fn card_button_label(installed: bool) -> (r: &'static str)
    ensures
        r@ == (if installed { "▶  Play"@ } else { "⬇  Install"@ }),
{
    if installed { "▶  Play" } else { "⬇  Install" }
}

/// Every session that ends is recorded, with its length, and leaves the
/// button ready to play again.
pub proof fn law_session_recorded(s: PlayState, secs: u64)
    ensures
        play_step(s, PlayEvent::GameExited(secs)) == (PlayState::Idle, PlayAction::RecordSession(secs)),
{
}

/// Pressing Play downloads `umu-run` first exactly when it is needed, and
/// otherwise starts the game; pressing Stop stops it.
pub proof fn law_press(umu_needed: bool)
    ensures
        play_step(PlayState::Idle, PlayEvent::Pressed(umu_needed)).1
            == (if umu_needed { PlayAction::DownloadUmu } else { PlayAction::Launch }),
        play_step(PlayState::Running, PlayEvent::Pressed(umu_needed)) == (PlayState::Idle, PlayAction::StopGame),
{
}

/// A game is started only by pressing Play with nothing running, or once a
/// download it waited for is done.
pub proof fn law_launch_only_when_asked(s: PlayState, e: PlayEvent)
    ensures
        play_step(s, e).1 == PlayAction::Launch ==>
            (s == PlayState::Idle && e == PlayEvent::Pressed(false)) || (s is Downloading && e == PlayEvent::UmuReady),
{
}


/// While the game is starting the button shows Launching, and once the game
/// is up it shows Stop and can be pressed.
pub proof fn law_launching_then_stop()
    ensures
        play_label(PlayState::Launching) == "⏳  Launching…"@,
        !play_pressable(PlayState::Launching),
        play_step(PlayState::Launching, PlayEvent::GameReady).0 == PlayState::Running,
        play_label(PlayState::Running) == "■  Stop"@,
        play_pressable(PlayState::Running),
{
}

/// Once the game's process is started, whether or not `umu-run` had to be
/// downloaded first, the button shows "⏳  Launching…" and cannot be pressed;
/// when the game is then up it turns into a Stop button.
pub proof fn law_spawned_launching(after_download: bool)
    ensures
        ({
            let s = play_step(PlayState::Starting(after_download), PlayEvent::Spawned);
            &&& s.1 == PlayAction::Nothing
            &&& play_label(s.0) == "⏳  Launching…"@
            &&& !play_pressable(s.0)
            &&& play_label(play_step(s.0, PlayEvent::GameReady).0) == "■  Stop"@
            &&& play_pressable(play_step(s.0, PlayEvent::GameReady).0)
        }),
{
}

/// A whole run of the button: pressing Play on an idle button (downloading
/// `umu-run` first when it is needed), the process starting and the game
/// coming up leave the button as Stop; pressing it then stops the game, and
/// the game's exit records the session and brings Play back.
pub proof fn law_play_run(umu_needed: bool, secs: u64)
    ensures
        ({
            let s1 = play_step(PlayState::Idle, PlayEvent::Pressed(umu_needed)).0;
            let s2 = if umu_needed { play_step(s1, PlayEvent::UmuReady).0 } else { s1 };
            let s3 = play_step(s2, PlayEvent::Spawned).0;
            let s4 = play_step(s3, PlayEvent::GameReady).0;
            &&& play_label(s3) == "⏳  Launching…"@
            &&& play_label(s4) == "■  Stop"@
            &&& play_step(s4, PlayEvent::Pressed(false)).1 == PlayAction::StopGame
            &&& play_step(s4, PlayEvent::GameExited(secs)) == (PlayState::Idle, PlayAction::RecordSession(secs))
            &&& play_label(play_step(s4, PlayEvent::GameExited(secs)).0) == "▶  Play"@
        }),
{
}
} // verus!
