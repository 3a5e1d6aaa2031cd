use vstd::prelude::*;

use crate::domain::Region;
use crate::session::{Message, UiModel};
use crate::text::{decimal, push_decimal, push_signed_decimal, signed_decimal};

verus! {

/// Colours, as `0xRRGGBB`.
pub const IDLE_CARD_COLOR: u32 = 0x162131;
pub const SELECTED_CARD_COLOR: u32 = 0x22324a;
pub const TITLE_TEXT_COLOR: u32 = 0xf2d4a0;
pub const MUTED_TEXT_COLOR: u32 = 0x96a4b9;
pub const SELECTED_ACCENT_COLOR: u32 = 0xd0a15c;
pub const DEFAULT_ACCENT_COLOR: u32 = 0x6f7f97;
pub const IDLE_ACCENT_COLOR: u32 = 0x30435d;
pub const GOOD_PING_COLOR: u32 = 0x21493a;
pub const FAIR_PING_COLOR: u32 = 0x67561f;
pub const POOR_PING_COLOR: u32 = 0x693030;
pub const UNKNOWN_PING_COLOR: u32 = 0x2c3951;

/// Pings under this many milliseconds are good.
pub const GOOD_PING_LIMIT_MS: u32 = 70;
/// Pings under this many milliseconds, and not good, are fair.
pub const FAIR_PING_LIMIT_MS: u32 = 180;

/// Heights and gaps of the window's rows, in unscaled pixels.
pub const TITLE_HEIGHT: i32 = 24;
pub const REGION_CARD_HEIGHT: i32 = 64;
pub const COUNTDOWN_LABEL_HEIGHT: i32 = 18;
pub const ACTION_ROW_HEIGHT: i32 = 40;
pub const LAYOUT_MARGIN: i32 = 16;
pub const LAYOUT_SPACING: i32 = 10;

/// How a ping is shown: the colour of its badge.
#[derive(Debug, Clone, Copy, PartialEq, Eq, Structural)]
pub struct PingPresentation {
    pub badge_color: u32,
}

/// How a region's card is drawn.
#[derive(Debug, Clone, PartialEq, Eq)]
pub struct CardView {
    pub card_color: u32,
    pub accent_color: u32,
    pub favorite_label: &'static str,
    pub favorite_color: u32,
    pub title: String,
    pub ping_color: u32,
    pub ping_label: String,
}

/// What a click on a region's card does.
#[derive(Debug, Clone, Copy, PartialEq, Eq, Structural)]
pub enum CardClick {
    /// Nothing: the card leaves the event to others.
    Ignore,
    /// Select the region.
    Select,
    /// Select the region and start the game against it.
    SelectAndLaunch,
}

/// A rectangle of the window that handles clicks itself.
#[derive(Debug, Clone, Copy, PartialEq, Eq, Structural)]
pub struct InteractiveArea {
    pub x: i32,
    pub y: i32,
    pub w: i32,
    pub h: i32,
}

/// How good a ping is: 0 good, 1 fair, 2 poor, 3 unknown.
pub open spec fn ping_tier(ping_ms: Option<u32>) -> nat {
    match ping_ms {
        Some(ms) => if ms < GOOD_PING_LIMIT_MS {
            0
        } else if ms < FAIR_PING_LIMIT_MS {
            1
        } else {
            2
        },
        None => 3,
    }
}

/// The badge colour of each tier.
pub open spec fn tier_color(tier: nat) -> u32 {
    if tier == 0 {
        GOOD_PING_COLOR
    } else if tier == 1 {
        FAIR_PING_COLOR
    } else if tier == 2 {
        POOR_PING_COLOR
    } else {
        UNKNOWN_PING_COLOR
    }
}

/// The text of a ping badge.
pub open spec fn spec_ping_badge_label(ping_ms: Option<u32>) -> Seq<char> {
    match ping_ms {
        Some(ms) => decimal(ms as nat) + " ms"@,
        None => "-- ms"@,
    }
}

/// The text that shows the seconds left on the countdown.
pub open spec fn spec_countdown_message(seconds: i32) -> Seq<char> {
    "Auto-launch in "@ + signed_decimal(seconds as int) + "s"@
}

/// The star of a region's card: filled for the default region.
pub open spec fn spec_favorite_button_label(is_default: bool) -> Seq<char> {
    if is_default {
        "\u{2605}"@
    } else {
        "\u{2606}"@
    }
}

/// The title of a region's card: its flag and its name.
pub open spec fn spec_region_title_label(region: Region) -> Seq<char> {
    region.spec_flag() + " "@ + region.spec_name()
}

/// The text of the launch button.
pub open spec fn spec_launch_button_label(region: Region) -> Seq<char> {
    "Launch "@ + region.spec_name()
}

/// Whether the point lies inside the area (right and bottom edges excluded).
pub open spec fn spec_contains(area: InteractiveArea, x: int, y: int) -> bool {
    area.x <= x < area.x + area.w && area.y <= y < area.y + area.h
}

/// Whether the area's right and bottom edges lie within the range of `i32`.
pub open spec fn fits(area: InteractiveArea) -> bool {
    &&& i32::MIN <= area.x + area.w <= i32::MAX
    &&& i32::MIN <= area.y + area.h <= i32::MAX
}

/// The badge colour of a ping: good under 70 ms, fair under 180 ms, poor
/// otherwise, and neutral when the ping is unknown.
pub fn ping_presentation(ping_ms: Option<u32>) -> (p: PingPresentation)
    ensures
        p.badge_color == tier_color(ping_tier(ping_ms)),
{
    match ping_ms {
        Some(ms) => if ms < GOOD_PING_LIMIT_MS {
            PingPresentation { badge_color: GOOD_PING_COLOR }
        } else if ms < FAIR_PING_LIMIT_MS {
            PingPresentation { badge_color: FAIR_PING_COLOR }
        } else {
            PingPresentation { badge_color: POOR_PING_COLOR }
        },
        None => PingPresentation { badge_color: UNKNOWN_PING_COLOR },
    }
}

/// The colour of a region's card: lighter for the selected region.
pub fn region_card_color(selected: bool, is_default: bool) -> (color: u32)
    ensures
        color == if selected {
            SELECTED_CARD_COLOR
        } else {
            IDLE_CARD_COLOR
        },
{
    if selected {
        SELECTED_CARD_COLOR
    } else {
        IDLE_CARD_COLOR
    }
}

/// The colour of the stripe at a card's edge: one for the selected region,
/// another for the default region when it is not selected, a third otherwise.
pub fn region_accent_color(selected: bool, is_default: bool) -> (color: u32)
    ensures
        color == if selected {
            SELECTED_ACCENT_COLOR
        } else if is_default {
            DEFAULT_ACCENT_COLOR
        } else {
            IDLE_ACCENT_COLOR
        },
{
    if selected {
        SELECTED_ACCENT_COLOR
    } else if is_default {
        DEFAULT_ACCENT_COLOR
    } else {
        IDLE_ACCENT_COLOR
    }
}

/// The colour of a card's star: highlighted for the default region.
pub fn favorite_button_color(is_default: bool) -> (color: u32)
    ensures
        color == if is_default {
            TITLE_TEXT_COLOR
        } else {
            MUTED_TEXT_COLOR
        },
{
    if is_default {
        TITLE_TEXT_COLOR
    } else {
        MUTED_TEXT_COLOR
    }
}

/// The text of a ping badge: the milliseconds, or `--` when unknown.
pub fn ping_badge_label(ping_ms: Option<u32>) -> (label: String)
    ensures
        label@ == spec_ping_badge_label(ping_ms),
{
    match ping_ms {
        Some(ms) => {
            let mut label = String::new();
            push_decimal(&mut label, ms as u64);
            label.append(" ms");
            label
        },
        None => String::from_str("-- ms"),
    }
}

/// The text that shows the seconds left on the countdown.
pub fn countdown_message(seconds: i32) -> (message: String)
    ensures
        message@ == spec_countdown_message(seconds),
{
    let mut message = String::from_str("Auto-launch in ");
    push_signed_decimal(&mut message, seconds as i64);
    message.append("s");
    message
}

/// The star of a region's card: filled for the default region, hollow otherwise.
pub fn favorite_button_label(is_default: bool) -> (label: &'static str)
    ensures
        label@ == spec_favorite_button_label(is_default),
{
    if is_default {
        "\u{2605}"
    } else {
        "\u{2606}"
    }
}

/// The title of a region's card: its flag and its name.
pub fn region_title_label(region: Region) -> (label: String)
    ensures
        label@ == spec_region_title_label(region),
{
    let mut label = String::from_str(region.flag());
    label.append(" ");
    label.append(region.name());
    label
}

/// The text of the launch button for the selected region.
pub fn launch_button_label(region: Region) -> (label: String)
    ensures
        label@ == spec_launch_button_label(region),
{
    let mut label = String::from_str("Launch ");
    label.append(region.name());
    label
}

impl InteractiveArea {
    /// Whether the point lies inside the area (right and bottom edges excluded).
    pub fn contains(self, x: i32, y: i32) -> (inside: bool)
        requires
            fits(self),
        ensures
            inside == spec_contains(self, x as int, y as int),
    {
        x >= self.x && x < self.x + self.w && y >= self.y && y < self.y + self.h
    }
}

/// Whether the point lies inside any of the areas.
pub fn point_hits_interactive_area(x: i32, y: i32, areas: &Vec<InteractiveArea>) -> (hit: bool)
    requires
        forall|i: int| 0 <= i < areas.len() ==> fits(#[trigger] areas@[i]),
    ensures
        hit == exists|i: int|
            0 <= i < areas.len() && spec_contains(#[trigger] areas@[i], x as int, y as int),
{
    let mut i: usize = 0;
    while i < areas.len()
        invariant
            i <= areas.len(),
            forall|k: int| 0 <= k < areas.len() ==> fits(#[trigger] areas@[k]),
            forall|k: int| 0 <= k < i ==> !spec_contains(#[trigger] areas@[k], x as int, y as int),
        decreases areas.len() - i,
    {
        if areas[i].contains(x, y) {
            return true;
        }
        i = i + 1;
    }
    false
}

/// What releasing a mouse button over a region's card does: with the left
/// button, away from the card's star, a click selects the region and a double
/// click also starts the game against it; anything else is left to others.
pub fn card_release_action(button: i32, x: i32, y: i32, star: InteractiveArea, double_click: bool)
    -> (click: CardClick)
    requires
        fits(star),
    ensures
        click == if button != 1 || spec_contains(star, x as int, y as int) {
            CardClick::Ignore
        } else if double_click {
            CardClick::SelectAndLaunch
        } else {
            CardClick::Select
        },
{
    if button != 1 || star.contains(x, y) {
        CardClick::Ignore
    } else if double_click {
        CardClick::SelectAndLaunch
    } else {
        CardClick::Select
    }
}

/// The messages that a click on the card of `region` sends, in order.
pub fn card_click_messages(click: CardClick, region: Region) -> (messages: Vec<Message>)
    ensures
        messages@ == match click {
            CardClick::Ignore => Seq::<Message>::empty(),
            CardClick::Select => seq![Message::SelectRegion(region)],
            CardClick::SelectAndLaunch => seq![
                Message::SelectRegion(region),
                Message::LaunchSelected,
            ],
        },
{
    let mut messages: Vec<Message> = Vec::new();
    match click {
        CardClick::Ignore => {},
        CardClick::Select => {
            messages.push(Message::SelectRegion(region));
        },
        CardClick::SelectAndLaunch => {
            messages.push(Message::SelectRegion(region));
            messages.push(Message::LaunchSelected);
        },
    }
    assert(messages@ =~= match click {
        CardClick::Ignore => Seq::<Message>::empty(),
        CardClick::Select => seq![Message::SelectRegion(region)],
        CardClick::SelectAndLaunch => seq![Message::SelectRegion(region), Message::LaunchSelected],
    });
    messages
}

/// The areas of the window that handle clicks themselves: the cards, the
/// launch button, and the cancel button while it is shown.
pub fn interactive_areas(
    card_areas: &Vec<InteractiveArea>,
    launch_area: InteractiveArea,
    cancel_area: InteractiveArea,
    cancel_visible: bool,
) -> (areas: Vec<InteractiveArea>)
    ensures
        areas@ == if cancel_visible {
            card_areas@.push(launch_area).push(cancel_area)
        } else {
            card_areas@.push(launch_area)
        },
{
    let mut areas: Vec<InteractiveArea> = Vec::new();
    let mut i: usize = 0;
    while i < card_areas.len()
        invariant
            i <= card_areas.len(),
            areas@ == card_areas@.subrange(0, i as int),
        decreases card_areas.len() - i,
    {
        areas.push(card_areas[i]);
        i = i + 1;
        assert(areas@ =~= card_areas@.subrange(0, i as int));
    }
    assert(card_areas@.subrange(0, card_areas.len() as int) =~= card_areas@);
    areas.push(launch_area);
    if cancel_visible {
        areas.push(cancel_area);
    }
    areas
}

/// The height of the window's content, margins included, before scaling:
/// the rows (title, three region cards, countdown line, buttons), the gaps
/// between them, and a margin above and below.
pub fn unscaled_window_height() -> (height: i32)
    ensures
        height == TITLE_HEIGHT + 3 * REGION_CARD_HEIGHT + COUNTDOWN_LABEL_HEIGHT + ACTION_ROW_HEIGHT
            + 5 * LAYOUT_SPACING + 2 * LAYOUT_MARGIN,
{
    let row_heights: [i32; 6] = [
        TITLE_HEIGHT,
        REGION_CARD_HEIGHT,
        REGION_CARD_HEIGHT,
        REGION_CARD_HEIGHT,
        COUNTDOWN_LABEL_HEIGHT,
        ACTION_ROW_HEIGHT,
    ];
    let mut content_height: i32 = 0;
    let mut i: usize = 0;
    while i < 6
        invariant
            i <= 6,
            row_heights@ == seq![
                TITLE_HEIGHT,
                REGION_CARD_HEIGHT,
                REGION_CARD_HEIGHT,
                REGION_CARD_HEIGHT,
                COUNTDOWN_LABEL_HEIGHT,
                ACTION_ROW_HEIGHT,
            ],
            content_height == row_sum(row_heights@, i as int),
            0 <= content_height <= 64 * i,
        decreases 6 - i,
    {
        content_height = content_height + row_heights[i];
        i = i + 1;
    }
    proof {
        reveal_with_fuel(row_sum, 7);
    }
    let spacing_height = LAYOUT_SPACING * (6 - 1);
    let margins_height = LAYOUT_MARGIN * 2;
    content_height + spacing_height + margins_height
}

/// The sum of the first `n` row heights.
pub open spec fn row_sum(rows: Seq<i32>, n: int) -> int
    decreases n,
{
    if n <= 0 {
        0
    } else {
        row_sum(rows, n - 1) + rows[n - 1]
    }
}

impl UiModel {
    /// Whether the cancel button is shown: while the countdown is.
    pub fn cancel_button_visible(&self) -> (visible: bool)
        ensures
            visible == self.countdown_seconds is Some,
    {
        self.countdown_seconds.is_some()
    }

    /// The text under the cards: the countdown while it is shown, else nothing.
    pub fn countdown_label(&self) -> (label: String)
        ensures
            label@ == match self.countdown_seconds {
                Some(seconds) => spec_countdown_message(seconds),
                None => Seq::empty(),
            },
    {
        match self.countdown_seconds {
            Some(seconds) => countdown_message(seconds),
            None => String::new(),
        }
    }

    /// The text of the launch button.
    pub fn launch_label(&self) -> (label: String)
        ensures
            label@ == spec_launch_button_label(self.selected_region),
    {
        launch_button_label(self.selected_region)
    }

    /// How the card of `region` is drawn.
    pub fn card_view(&self, region: Region) -> (view: CardView)
        ensures
            view.card_color == if region == self.selected_region {
                SELECTED_CARD_COLOR
            } else {
                IDLE_CARD_COLOR
            },
            view.accent_color == if region == self.selected_region {
                SELECTED_ACCENT_COLOR
            } else if region == self.default_region {
                DEFAULT_ACCENT_COLOR
            } else {
                IDLE_ACCENT_COLOR
            },
            view.favorite_label@ == spec_favorite_button_label(region == self.default_region),
            view.favorite_color == if region == self.default_region {
                TITLE_TEXT_COLOR
            } else {
                MUTED_TEXT_COLOR
            },
            view.title@ == spec_region_title_label(region),
            view.ping_color == tier_color(ping_tier(self.spec_ping(region))),
            view.ping_label@ == spec_ping_badge_label(self.spec_ping(region)),
    {
        let selected = region == self.selected_region;
        let is_default = region == self.default_region;
        let ping_ms = self.ping(region);
        CardView {
            card_color: region_card_color(selected, is_default),
            accent_color: region_accent_color(selected, is_default),
            favorite_label: favorite_button_label(is_default),
            favorite_color: favorite_button_color(is_default),
            title: region_title_label(region),
            ping_color: ping_presentation(ping_ms).badge_color,
            ping_label: ping_badge_label(ping_ms),
        }
    }
}

/// A lower ping never gets a worse badge than a higher one, and a known ping
/// never gets the badge of an unknown one.
pub proof fn lemma_ping_tier_monotonic(a: u32, b: u32)
    ensures
        a <= b ==> ping_tier(Some(a)) <= ping_tier(Some(b)),
        ping_tier(Some(a)) < ping_tier(None),
        tier_color(ping_tier(Some(a))) != UNKNOWN_PING_COLOR,
{
}

/// The badge of a ping: green-ish `0x21493a` under 70 ms, amber `0x67561f`
/// from 70 ms up to 180 ms, red `0x693030` from 180 ms, and slate `0x2c3951`
/// when the ping is unknown.
pub proof fn lemma_ping_badge_thresholds(ms: u32)
    ensures
        ms < 70 ==> tier_color(ping_tier(Some(ms))) == 0x21493a,
        70 <= ms < 180 ==> tier_color(ping_tier(Some(ms))) == 0x67561f,
        180 <= ms ==> tier_color(ping_tier(Some(ms))) == 0x693030,
        tier_color(ping_tier(None)) == 0x2c3951,
{
}

} // verus!
