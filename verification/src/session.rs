use vstd::prelude::*;

use crate::config::Config;
use crate::countdown::{
    can_tick, spec_cancel, spec_tick, CountdownProgress, CountdownState, COUNTDOWN_SECONDS,
};
use crate::domain::Region;

verus! {

/// What the user, the countdown timer or a ping measurement reports to the launcher.
#[derive(Debug, Clone, Copy, PartialEq, Eq, Structural)]
pub enum Message {
    /// The user clicked a region's card.
    SelectRegion(Region),
    /// The user pressed the launch button.
    LaunchSelected,
    /// The countdown ran out.
    AutoLaunch,
    /// The countdown has these many seconds left.
    Countdown(i32),
    /// The user asked to stop the countdown.
    CancelCountdown,
    /// The user starred a region as the default.
    SetFavorite(Region),
    /// A ping to a region's server took these many milliseconds, or failed.
    PingResult(Region, Option<u32>),
}

/// What the launcher does after handling a message.
#[derive(Debug, Clone, Copy, PartialEq, Eq, Structural)]
pub enum Action {
    /// Keep waiting for messages.
    Continue,
    /// Start the game against this region, then stop.
    Launch(Region),
    /// Write the configuration file, then keep waiting.
    SaveConfig,
}

/// The region that is selected and the region that is the default.
#[derive(Debug, Clone, Copy, PartialEq, Eq, Structural)]
pub struct SelectionState {
    pub selected_region: Region,
    pub default_region: Region,
}

impl SelectionState {
    /// The selection when the launcher opens: the default region is selected.
    pub fn new(default_region: Region) -> (s: Self)
        ensures
            s.selected_region == default_region,
            s.default_region == default_region,
    {
        SelectionState { selected_region: default_region, default_region }
    }
}

/// What the window shows: the selected and default regions, the seconds left
/// on the countdown while it is shown, and the last ping to each region.
#[derive(Debug, Clone, Copy, PartialEq, Eq, Structural)]
pub struct UiModel {
    pub selected_region: Region,
    pub default_region: Region,
    pub countdown_seconds: Option<i32>,
    pub americas_ping_ms: Option<u32>,
    pub europe_ping_ms: Option<u32>,
    pub asia_ping_ms: Option<u32>,
}

impl UiModel {
    /// The last ping shown for a region.
    pub open spec fn spec_ping(self, region: Region) -> Option<u32> {
        match region {
            Region::Americas => self.americas_ping_ms,
            Region::Europe => self.europe_ping_ms,
            Region::Asia => self.asia_ping_ms,
        }
    }

    /// The window with the last ping of `region` set to `ping_ms`.
    pub open spec fn with_ping(self, region: Region, ping_ms: Option<u32>) -> UiModel {
        match region {
            Region::Americas => UiModel { americas_ping_ms: ping_ms, ..self },
            Region::Europe => UiModel { europe_ping_ms: ping_ms, ..self },
            Region::Asia => UiModel { asia_ping_ms: ping_ms, ..self },
        }
    }

    /// The window when the launcher opens: no countdown and no pings shown.
    pub fn new(selected_region: Region, default_region: Region) -> (ui: Self)
        ensures
            ui.selected_region == selected_region,
            ui.default_region == default_region,
            ui.countdown_seconds is None,
            ui.americas_ping_ms is None,
            ui.europe_ping_ms is None,
            ui.asia_ping_ms is None,
    {
        UiModel {
            selected_region,
            default_region,
            countdown_seconds: None,
            americas_ping_ms: None,
            europe_ping_ms: None,
            asia_ping_ms: None,
        }
    }

    /// The last ping shown for a region.
    pub fn ping(&self, region: Region) -> (ping_ms: Option<u32>)
        ensures
            ping_ms == self.spec_ping(region),
    {
        match region {
            Region::Americas => self.americas_ping_ms,
            Region::Europe => self.europe_ping_ms,
            Region::Asia => self.asia_ping_ms,
        }
    }

    pub fn set_selected_region(&mut self, region: Region)
        ensures
            *final(self) == (UiModel { selected_region: region, ..*old(self) }),
    {
        self.selected_region = region;
    }

    pub fn set_default_region(&mut self, region: Region)
        ensures
            *final(self) == (UiModel { default_region: region, ..*old(self) }),
    {
        self.default_region = region;
    }

    pub fn show_countdown(&mut self, seconds: i32)
        ensures
            *final(self) == (UiModel { countdown_seconds: Some(seconds), ..*old(self) }),
    {
        self.countdown_seconds = Some(seconds);
    }

    pub fn clear_countdown(&mut self)
        ensures
            *final(self) == (UiModel { countdown_seconds: None, ..*old(self) }),
    {
        self.countdown_seconds = None;
    }

    /// Shows `ping_ms` as the last ping of `region`.
    pub fn update_ping(&mut self, region: Region, ping_ms: Option<u32>)
        ensures
            *final(self) == old(self).with_ping(region, ping_ms),
    {
        match region {
            Region::Americas => self.americas_ping_ms = ping_ms,
            Region::Europe => self.europe_ping_ms = ping_ms,
            Region::Asia => self.asia_ping_ms = ping_ms,
        }
    }
}

/// Everything the launcher decides on between opening and starting the game.
#[derive(Debug, Clone)]
pub struct LauncherState {
    pub config: Config,
    pub selection: SelectionState,
    pub countdown: CountdownState,
    pub ui: UiModel,
}

/// What the countdown timer does after one second.
#[derive(Debug, Clone, Copy, PartialEq, Eq, Structural)]
pub struct TimerStep {
    /// The message to report, if any.
    pub message: Option<Message>,
    /// Whether to wait another second.
    pub reschedule: bool,
}

/// The state after a request to stop the countdown: the countdown stops unless
/// it already has or has run out, and the window stops showing it.
pub open spec fn spec_cancel_countdown(s: LauncherState) -> LauncherState {
    LauncherState {
        countdown: spec_cancel(s.countdown).0,
        ui: UiModel { countdown_seconds: None, ..s.ui },
        ..s
    }
}

/// The state after a message, and what the launcher does next.
pub open spec fn spec_handle_message(s: LauncherState, msg: Message) -> (LauncherState, Action) {
    match msg {
        Message::SelectRegion(region) => {
            let c = spec_cancel_countdown(s);
            (
                LauncherState {
                    selection: SelectionState { selected_region: region, ..c.selection },
                    ui: UiModel { selected_region: region, ..c.ui },
                    ..c
                },
                Action::Continue,
            )
        },
        Message::LaunchSelected => (
            spec_cancel_countdown(s),
            Action::Launch(s.selection.selected_region),
        ),
        Message::AutoLaunch => if s.countdown.cancelled {
            (s, Action::Continue)
        } else {
            (s, Action::Launch(s.selection.selected_region))
        },
        Message::Countdown(seconds) => if s.countdown.cancelled {
            (s, Action::Continue)
        } else {
            (LauncherState { ui: UiModel { countdown_seconds: Some(seconds), ..s.ui }, ..s }, Action::Continue)
        },
        Message::CancelCountdown => (spec_cancel_countdown(s), Action::Continue),
        Message::SetFavorite(region) => {
            let c = spec_cancel_countdown(s);
            if c.selection.default_region == region {
                (c, Action::Continue)
            } else {
                (
                    LauncherState {
                        selection: SelectionState { default_region: region, ..c.selection },
                        ui: UiModel { default_region: region, ..c.ui },
                        config: Config { default_region: Some(region), ..c.config },
                        ..c
                    },
                    Action::SaveConfig,
                )
            }
        },
        Message::PingResult(region, ping_ms) => (
            LauncherState { ui: s.ui.with_ping(region, ping_ms), ..s },
            Action::Continue,
        ),
    }
}

/// The state after one second of the countdown, and what the timer does.
pub open spec fn spec_timer_step(s: LauncherState) -> (LauncherState, TimerStep) {
    let (countdown, progress) = spec_tick(s.countdown);
    let step = match progress {
        CountdownProgress::Cancelled => TimerStep { message: None, reschedule: false },
        CountdownProgress::Running(seconds) => TimerStep {
            message: Some(Message::Countdown(seconds)),
            reschedule: true,
        },
        CountdownProgress::Complete => TimerStep {
            message: Some(Message::AutoLaunch),
            reschedule: false,
        },
    };
    (LauncherState { countdown, ..s }, step)
}

/// Whether the window shows the same selected and default regions as the selection.
pub open spec fn ui_matches_selection(s: LauncherState) -> bool {
    &&& s.ui.selected_region == s.selection.selected_region
    &&& s.ui.default_region == s.selection.default_region
}

impl LauncherState {
    /// The state when the launcher opens with `config`: the configured default
    /// region (or Americas) is selected, and with quick launch on the countdown
    /// of `COUNTDOWN_SECONDS` is shown.
    pub fn new(config: Config) -> (s: Self)
        ensures
            s.config == config,
            s.selection.default_region == match config.default_region {
                Some(r) => r,
                None => Region::Americas,
            },
            s.selection.selected_region == s.selection.default_region,
            s.countdown == (CountdownState { remaining_seconds: COUNTDOWN_SECONDS, cancelled: false }),
            s.ui == (UiModel {
                selected_region: s.selection.selected_region,
                default_region: s.selection.default_region,
                countdown_seconds: if config.quick_launch {
                    Some(COUNTDOWN_SECONDS)
                } else {
                    None
                },
                americas_ping_ms: None,
                europe_ping_ms: None,
                asia_ping_ms: None,
            }),
    {
        let default_region = match config.default_region {
            Some(r) => r,
            None => Region::Americas,
        };
        let selection = SelectionState::new(default_region);
        let mut ui = UiModel::new(selection.selected_region, selection.default_region);
        let countdown = CountdownState::new(COUNTDOWN_SECONDS);
        if config.quick_launch {
            ui.show_countdown(countdown.remaining_seconds());
        }
        LauncherState { config, selection, countdown, ui }
    }

    /// Stops the countdown unless it already has or has run out, and stops
    /// showing it; returns whether it stopped it.
    pub fn cancel_countdown(&mut self) -> (stopped: bool)
        ensures
            *final(self) == spec_cancel_countdown(*old(self)),
            stopped == spec_cancel(old(self).countdown).1,
    {
        let stopped = self.countdown.cancel();
        self.ui.clear_countdown();
        stopped
    }

    /// Handles a message and says what the launcher does next.
    pub fn handle_message(&mut self, msg: Message) -> (action: Action)
        ensures
            (*final(self), action) == spec_handle_message(*old(self), msg),
    {
        match msg {
            Message::SelectRegion(region) => {
                self.cancel_countdown();
                self.selection.selected_region = region;
                self.ui.set_selected_region(region);
                Action::Continue
            },
            Message::LaunchSelected => {
                let region = self.selection.selected_region;
                self.cancel_countdown();
                Action::Launch(region)
            },
            Message::AutoLaunch => {
                if self.countdown.is_cancelled() {
                    Action::Continue
                } else {
                    Action::Launch(self.selection.selected_region)
                }
            },
            Message::Countdown(seconds) => {
                if !self.countdown.is_cancelled() {
                    self.ui.show_countdown(seconds);
                }
                Action::Continue
            },
            Message::CancelCountdown => {
                self.cancel_countdown();
                Action::Continue
            },
            Message::SetFavorite(region) => {
                self.cancel_countdown();
                if self.selection.default_region == region {
                    return Action::Continue;
                }
                self.selection.default_region = region;
                self.ui.set_default_region(region);
                self.config.default_region = Some(region);
                Action::SaveConfig
            },
            Message::PingResult(region, ping_ms) => {
                self.ui.update_ping(region, ping_ms);
                Action::Continue
            },
        }
    }

    /// Lets one second of the countdown pass and says what the timer reports:
    /// the seconds left, or that the time is up, or nothing once it was stopped.
    pub fn countdown_timer_step(&mut self) -> (step: TimerStep)
        requires
            can_tick(old(self).countdown),
        ensures
            (*final(self), step) == spec_timer_step(*old(self)),
    {
        match self.countdown.tick() {
            CountdownProgress::Cancelled => TimerStep { message: None, reschedule: false },
            CountdownProgress::Running(seconds) => TimerStep {
                message: Some(Message::Countdown(seconds)),
                reschedule: true,
            },
            CountdownProgress::Complete => TimerStep {
                message: Some(Message::AutoLaunch),
                reschedule: false,
            },
        }
    }
}

/// Every message keeps the window showing the selection's regions.
pub proof fn lemma_ui_keeps_matching_selection(s: LauncherState, msg: Message)
    requires
        ui_matches_selection(s),
    ensures
        ui_matches_selection(spec_handle_message(s, msg).0),
        ui_matches_selection(spec_timer_step(s).0),
{
}

/// Once the countdown is stopped, no message and no second of the timer
/// restarts it, and it never starts the game on its own.
pub proof fn lemma_cancelled_countdown_never_launches(s: LauncherState, msg: Message)
    requires
        s.countdown.cancelled,
    ensures
        spec_handle_message(s, msg).0.countdown.cancelled,
        spec_timer_step(s).0.countdown.cancelled,
        spec_timer_step(s).1.message is None,
        spec_handle_message(s, Message::AutoLaunch).1 == Action::Continue,
        spec_handle_message(s, Message::AutoLaunch).0 == s,
{
}

/// Clicking a region, the launch button, the cancel button or a star while the
/// countdown runs stops it: the countdown is no longer shown and its running
/// out no longer starts the game.
pub proof fn lemma_user_action_stops_countdown(s: LauncherState, msg: Message)
    requires
        s.countdown.remaining_seconds > 0,
        msg is SelectRegion || msg is LaunchSelected || msg is CancelCountdown
            || msg is SetFavorite,
    ensures
        spec_handle_message(s, msg).0.countdown.cancelled,
        spec_handle_message(s, msg).0.ui.countdown_seconds is None,
        spec_handle_message(spec_handle_message(s, msg).0, Message::AutoLaunch).1
            == Action::Continue,
{
}

/// The game is only ever started against the region that is selected at the time.
pub proof fn lemma_launch_uses_selected_region(s: LauncherState, msg: Message, region: Region)
    requires
        spec_handle_message(s, msg).1 == Action::Launch(region),
    ensures
        region == s.selection.selected_region,
{
}

/// Pressing the launch button after clicking a region starts the game against that region.
pub proof fn lemma_select_then_launch(s: LauncherState, region: Region)
    ensures
        spec_handle_message(
            spec_handle_message(s, Message::SelectRegion(region)).0,
            Message::LaunchSelected,
        ).1 == Action::Launch(region),
{
}

/// Starring a region saves the configuration exactly when the region was not
/// already the default, and the saved configuration names it as the default.
pub proof fn lemma_favorite_saved_only_when_changed(s: LauncherState, region: Region)
    ensures
        (spec_handle_message(s, Message::SetFavorite(region)).1 == Action::SaveConfig)
            <==> s.selection.default_region != region,
        spec_handle_message(s, Message::SetFavorite(region)).0.selection.default_region == region,
        s.selection.default_region != region ==> spec_handle_message(
            s,
            Message::SetFavorite(region),
        ).0.config.default_region == Some(region),
        s.selection.default_region == region ==> spec_handle_message(
            s,
            Message::SetFavorite(region),
        ).0.config == s.config,
{
}

/// A ping result changes the ping shown for its region and nothing else.
pub proof fn lemma_ping_result_touches_only_its_region(
    s: LauncherState,
    region: Region,
    ping_ms: Option<u32>,
    other: Region,
)
    ensures
        spec_handle_message(s, Message::PingResult(region, ping_ms)).0.ui.spec_ping(region)
            == ping_ms,
        other != region ==> spec_handle_message(
            s,
            Message::PingResult(region, ping_ms),
        ).0.ui.spec_ping(other) == s.ui.spec_ping(other),
        spec_handle_message(s, Message::PingResult(region, ping_ms)).0.selection == s.selection,
        spec_handle_message(s, Message::PingResult(region, ping_ms)).0.countdown == s.countdown,
        spec_handle_message(s, Message::PingResult(region, ping_ms)).0.config == s.config,
{
}

/// Only the launch button, or the countdown running out while it was not
/// stopped, starts the game. Clicking a region only selects it; the cancel
/// button, a star, a countdown update and a ping result never start the game.
pub proof fn lemma_only_launch_requests_start_the_game(s: LauncherState, msg: Message)
    ensures
        spec_handle_message(s, msg).1 is Launch ==> (msg is LaunchSelected || (msg is AutoLaunch
            && !s.countdown.cancelled)),
        msg is LaunchSelected || (msg is AutoLaunch && !s.countdown.cancelled)
            ==> spec_handle_message(s, msg).1 is Launch,
{
}

/// Clicking a region, whether or not it is already selected, selects it and
/// never starts the game.
pub proof fn lemma_select_region_never_launches(s: LauncherState, region: Region)
    ensures
        spec_handle_message(s, Message::SelectRegion(region)).1 == Action::Continue,
        spec_handle_message(s, Message::SelectRegion(region)).0.selection.selected_region
            == region,
        spec_handle_message(s, Message::SelectRegion(region)).0.selection.default_region
            == s.selection.default_region,
        spec_handle_message(s, Message::SelectRegion(region)).0.config == s.config,
{
}

} // verus!
