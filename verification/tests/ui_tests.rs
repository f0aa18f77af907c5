use gpttrans::settings::{
    config_from_form, default_base_for, form_from_config, model_for_selection, model_index_for,
    provider_for_index, provider_index, select_provider,
};
use gpttrans::config::{Config, ProviderKind};
use gpttrans::tray::{handle_tray_action, tray_icon_rgba, TrayAction};
use gpttrans::ui::{
    append_text, has_ever_updated, set_config, set_translating, show_output_text, show_settings,
    show_translation_window, DisplayState, UiState,
};
use gpttrans::util::{dec_string, ts};

#[test]
fn streamed_fragments_accumulate_on_the_display() {
    let mut ui = UiState::new();
    let mut d = DisplayState::new();
    show_output_text(&mut ui, String::new());
    append_text(&mut ui, String::from("Bon"));
    append_text(&mut ui, String::from("jour"));
    assert_eq!(ui.queue_len(), 3);
    gpttrans::ui::update_step(&mut ui, &mut d);
    assert_eq!(d.text, "Bonjour");
    assert_eq!(ui.queue_len(), 0);
    assert_eq!(ui.last_text(), "Bonjour");
}

#[test]
fn showing_a_text_replaces_the_display_and_leaves_settings() {
    let mut ui = UiState::new();
    let mut d = DisplayState::new();
    show_settings(&mut ui);
    gpttrans::ui::update_step(&mut ui, &mut d);
    assert!(d.show_settings);
    show_output_text(&mut ui, String::from("result"));
    gpttrans::ui::update_step(&mut ui, &mut d);
    assert_eq!(d.text, "result");
    assert!(!d.show_settings);
    assert!(d.need_focus);
}

#[test]
fn the_loading_indicator_takes_over_the_display_while_on() {
    let mut ui = UiState::new();
    let mut d = DisplayState::new();
    set_translating(&mut ui, true);
    gpttrans::ui::update_step(&mut ui, &mut d);
    assert!(d.is_translating);
    assert_eq!(d.text, "Translating...");
    set_translating(&mut ui, false);
    gpttrans::ui::update_step(&mut ui, &mut d);
    assert!(!d.is_translating);
    assert_eq!(d.text, "Translating...");
}

#[test]
fn the_window_reshows_the_most_recent_text() {
    let mut ui = UiState::new();
    let mut d = DisplayState::new();
    show_output_text(&mut ui, String::from("kept"));
    gpttrans::ui::update_step(&mut ui, &mut d);
    d.text = String::from("overwritten locally");
    show_translation_window(&mut ui);
    gpttrans::ui::update_step(&mut ui, &mut d);
    assert_eq!(d.text, "kept");
}

#[test]
fn the_update_flag_records_the_first_pass() {
    let mut ui = UiState::new();
    let mut d = DisplayState::new();
    assert!(!has_ever_updated(&ui));
    gpttrans::ui::update_step(&mut ui, &mut d);
    assert!(has_ever_updated(&ui));
}

#[test]
fn the_config_handle_is_kept() {
    let mut ui = UiState::new();
    let cfg = Config::from_parts(None, None, None, None, None, None);
    set_config(&mut ui, cfg);
    assert_eq!(ui.queue_len(), 0);
}

#[test]
fn tray_actions_map_to_their_intents() {
    let mut ui = UiState::new();
    let mut d = DisplayState::new();
    show_output_text(&mut ui, String::from("last"));
    gpttrans::ui::update_step(&mut ui, &mut d);

    assert!(handle_tray_action(&mut ui, &TrayAction::Quit));
    assert_eq!(ui.queue_len(), 0);

    assert!(!handle_tray_action(&mut ui, &TrayAction::OpenSettings));
    gpttrans::ui::update_step(&mut ui, &mut d);
    assert!(d.show_settings);

    assert!(!handle_tray_action(&mut ui, &TrayAction::ShowWindow));
    gpttrans::ui::update_step(&mut ui, &mut d);
    assert_eq!(d.text, "last");
}

#[test]
fn the_tray_icon_is_a_uniform_teal_square() {
    let rgba = tray_icon_rgba();
    assert_eq!(rgba.len(), 16 * 16 * 4);
    for p in rgba.chunks(4) {
        assert_eq!(p, &[0x14, 0xb8, 0xa6, 0xff]);
    }
}

#[test]
fn timestamps_pad_milliseconds_to_three_digits() {
    assert_eq!(ts(5, 7), "5.007");
    assert_eq!(ts(1000, 999), "1000.999");
    assert_eq!(ts(0, 0), "0.000");
    assert_eq!(dec_string(18446744073709551615), "18446744073709551615");
}

#[test]
fn provider_choices_round_trip_and_bring_their_defaults() {
    for p in [
        ProviderKind::OpenaiCompatible,
        ProviderKind::OllamaNative,
        ProviderKind::StubFree,
    ] {
        assert_eq!(provider_for_index(provider_index(p)), p);
    }
    assert_eq!(provider_for_index(99), ProviderKind::OpenaiCompatible);
    assert_eq!(
        default_base_for(ProviderKind::OllamaNative),
        "http://localhost:11434"
    );
    assert_eq!(
        model_for_selection(ProviderKind::OllamaNative, 1),
        "gemma3:270m"
    );
    assert_eq!(
        model_index_for(ProviderKind::OllamaNative, &String::from("gemma3:270m")),
        1
    );
    assert_eq!(
        model_index_for(ProviderKind::OpenaiCompatible, &String::from("gpt-4o-mini")),
        0
    );
}

#[test]
fn switching_the_provider_choice_reconfigures_base_and_model() {
    let cfg = Config::from_parts(None, None, None, None, None, None);
    let mut form = form_from_config(&cfg);
    select_provider(&mut form, 1);
    assert_eq!(form.provider, ProviderKind::OllamaNative);
    assert_eq!(form.api_base, "http://localhost:11434");
    assert_eq!(form.model, "gemma3:1b");
    let saved = config_from_form(&form);
    assert_eq!(saved.provider, ProviderKind::OllamaNative);
    assert_eq!(saved.api_base, "http://localhost:11434");
}
