use d2rlauncher::domain::Region;
use d2rlauncher::presentation::{
    card_click_messages, card_release_action, countdown_message, favorite_button_label, interactive_areas,
    launch_button_label, ping_badge_label, ping_presentation, point_hits_interactive_area,
    region_accent_color, region_card_color, region_title_label, unscaled_window_height,
    CardClick, InteractiveArea, DEFAULT_ACCENT_COLOR, IDLE_ACCENT_COLOR, IDLE_CARD_COLOR,
    SELECTED_ACCENT_COLOR, SELECTED_CARD_COLOR,
};
use d2rlauncher::session::{Message, UiModel};

#[test]
fn favorite_button_label_should_show_filled_star_for_saved_region() {
    assert_eq!(favorite_button_label(true), "\u{2605}");
}

#[test]
fn countdown_message_should_match_timer_label() {
    assert_eq!(countdown_message(4), "Auto-launch in 4s");
}

#[test]
fn ping_presentation_should_return_neutral_badge_when_unavailable() {
    let ping = ping_presentation(None);
    assert_eq!(ping.badge_color, 0x2c3951);
}

#[test]
fn ping_badge_label_should_show_placeholder_when_ping_is_unknown() {
    assert_eq!(ping_badge_label(None), "-- ms");
}

#[test]
fn ping_presentation_should_keep_mid_latency_in_good_range() {
    let ping = ping_presentation(Some(154));
    assert_eq!(ping.badge_color, 0x67561f);
}

#[test]
fn ping_presentation_tiers_at_their_limits() {
    assert_eq!(ping_presentation(Some(0)).badge_color, 0x21493a);
    assert_eq!(ping_presentation(Some(69)).badge_color, 0x21493a);
    assert_eq!(ping_presentation(Some(70)).badge_color, 0x67561f);
    assert_eq!(ping_presentation(Some(179)).badge_color, 0x67561f);
    assert_eq!(ping_presentation(Some(180)).badge_color, 0x693030);
    assert_eq!(ping_presentation(Some(u32::MAX)).badge_color, 0x693030);
}

#[test]
fn ping_badge_label_shows_milliseconds() {
    assert_eq!(ping_badge_label(Some(0)), "0 ms");
    assert_eq!(ping_badge_label(Some(154)), "154 ms");
    assert_eq!(ping_badge_label(Some(u32::MAX)), "4294967295 ms");
}

#[test]
fn countdown_message_formats_any_seconds() {
    assert_eq!(countdown_message(0), "Auto-launch in 0s");
    assert_eq!(countdown_message(10), "Auto-launch in 10s");
    assert_eq!(countdown_message(-3), "Auto-launch in -3s");
    assert_eq!(countdown_message(i32::MIN), "Auto-launch in -2147483648s");
}

#[test]
fn favorite_button_label_hollow_for_other_regions() {
    assert_eq!(favorite_button_label(false), "\u{2606}");
}

#[test]
fn card_colors_follow_selection_and_default() {
    assert_eq!(region_card_color(true, false), SELECTED_CARD_COLOR);
    assert_eq!(region_card_color(false, true), IDLE_CARD_COLOR);
    assert_eq!(region_accent_color(true, true), SELECTED_ACCENT_COLOR);
    assert_eq!(region_accent_color(false, true), DEFAULT_ACCENT_COLOR);
    assert_eq!(region_accent_color(false, false), IDLE_ACCENT_COLOR);
}

#[test]
fn titles_and_launch_label_name_the_region() {
    assert_eq!(region_title_label(Region::Americas), "\u{1F1FA}\u{1F1F8} Americas");
    assert_eq!(region_title_label(Region::Asia), "\u{1F1EF}\u{1F1F5} Asia");
    assert_eq!(launch_button_label(Region::Europe), "Launch Europe");
}

#[test]
fn areas_include_left_and_top_edges_only() {
    let area = InteractiveArea { x: 10, y: 20, w: 5, h: 5 };
    assert!(area.contains(10, 20));
    assert!(area.contains(14, 24));
    assert!(!area.contains(15, 24));
    assert!(!area.contains(14, 25));
    assert!(!area.contains(9, 20));
    let areas = vec![area, InteractiveArea { x: 0, y: 0, w: 2, h: 2 }];
    assert!(point_hits_interactive_area(1, 1, &areas));
    assert!(point_hits_interactive_area(12, 22, &areas));
    assert!(!point_hits_interactive_area(5, 5, &areas));
    assert!(!point_hits_interactive_area(5, 5, &Vec::new()));
}

#[test]
fn releasing_left_button_off_the_star_selects() {
    let star = InteractiveArea { x: 10, y: 10, w: 28, h: 20 };
    assert_eq!(card_release_action(1, 0, 0, star, false), CardClick::Select);
    assert_eq!(card_release_action(1, 0, 0, star, true), CardClick::SelectAndLaunch);
    assert_eq!(card_release_action(1, 12, 12, star, true), CardClick::Ignore);
    assert_eq!(card_release_action(3, 0, 0, star, false), CardClick::Ignore);
}

#[test]
fn card_clicks_send_select_then_launch() {
    assert!(card_click_messages(CardClick::Ignore, Region::Asia).is_empty());
    assert_eq!(
        card_click_messages(CardClick::Select, Region::Asia),
        vec![Message::SelectRegion(Region::Asia)]
    );
    assert_eq!(
        card_click_messages(CardClick::SelectAndLaunch, Region::Asia),
        vec![Message::SelectRegion(Region::Asia), Message::LaunchSelected]
    );
}

#[test]
fn cancel_button_area_only_while_visible() {
    let card = InteractiveArea { x: 0, y: 0, w: 1, h: 1 };
    let launch = InteractiveArea { x: 1, y: 1, w: 1, h: 1 };
    let cancel = InteractiveArea { x: 2, y: 2, w: 1, h: 1 };
    assert_eq!(interactive_areas(&vec![card], launch, cancel, true), vec![card, launch, cancel]);
    assert_eq!(interactive_areas(&vec![card], launch, cancel, false), vec![card, launch]);
}

#[test]
fn window_height_sums_rows_gaps_and_margins() {
    assert_eq!(unscaled_window_height(), 24 + 3 * 64 + 18 + 40 + 5 * 10 + 2 * 16);
}

#[test]
fn card_view_reflects_model() {
    let mut ui = UiModel::new(Region::Europe, Region::Asia);
    ui.update_ping(Region::Asia, Some(42));
    let asia = ui.card_view(Region::Asia);
    assert_eq!(asia.card_color, IDLE_CARD_COLOR);
    assert_eq!(asia.accent_color, DEFAULT_ACCENT_COLOR);
    assert_eq!(asia.favorite_label, "\u{2605}");
    assert_eq!(asia.ping_label, "42 ms");
    assert_eq!(asia.ping_color, 0x21493a);
    let europe = ui.card_view(Region::Europe);
    assert_eq!(europe.card_color, SELECTED_CARD_COLOR);
    assert_eq!(europe.favorite_label, "\u{2606}");
    assert_eq!(europe.ping_label, "-- ms");
    assert_eq!(ui.launch_label(), "Launch Europe");
    assert_eq!(ui.countdown_label(), "");
    assert!(!ui.cancel_button_visible());
    ui.show_countdown(3);
    assert_eq!(ui.countdown_label(), "Auto-launch in 3s");
    assert!(ui.cancel_button_visible());
}
