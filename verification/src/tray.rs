//! Tray intents and the tray icon's pixels.
//!
//! The tray menu itself is an external collaborator; it delivers one of
//! three discrete intents, at least once per user action, so their handling
//! must be idempotent.

use crate::ui::{show_settings, show_translation_window, UiMessageView, UiState};
use vstd::prelude::*;

verus! {

/// One user intent from the tray.
#[derive(Clone, Debug)]
pub enum TrayAction {
    Quit,
    OpenSettings,
    ShowWindow,
}

/// Width and height of the tray icon, in pixels.
pub const ICON_SIDE: usize = 16;

/// The tray icon: a uniform teal square, four channel bytes per pixel.
pub fn tray_icon_rgba() -> (r: Vec<u8>)
    ensures
        r@.len() == ICON_SIDE * ICON_SIDE * 4,
        forall|p: int|
            0 <= p < ICON_SIDE * ICON_SIDE ==> {
                &&& #[trigger] r@[4 * p] == 0x14
                &&& r@[4 * p + 1] == 0xb8
                &&& r@[4 * p + 2] == 0xa6
                &&& r@[4 * p + 3] == 0xff
            },
{
    let mut v: Vec<u8> = Vec::new();
    let mut p: usize = 0;
    while p < 256
        invariant
            0 <= p <= 256,
            v@.len() == 4 * p,
            forall|q: int|
                0 <= q < p ==> {
                    &&& #[trigger] v@[4 * q] == 0x14
                    &&& v@[4 * q + 1] == 0xb8
                    &&& v@[4 * q + 2] == 0xa6
                    &&& v@[4 * q + 3] == 0xff
                },
        decreases 256 - p,
    {
        let ghost before = v@;
        v.push(0x14);
        v.push(0xb8);
        v.push(0xa6);
        v.push(0xff);
        proof {
            assert forall|q: int|
                0 <= q < p + 1 implies {
                &&& #[trigger] v@[4 * q] == 0x14
                &&& v@[4 * q + 1] == 0xb8
                &&& v@[4 * q + 2] == 0xa6
                &&& v@[4 * q + 3] == 0xff
            } by {
                if q < p {
                    assert(v@[4 * q] == before[4 * q]);
                    assert(v@[4 * q + 1] == before[4 * q + 1]);
                    assert(v@[4 * q + 2] == before[4 * q + 2]);
                    assert(v@[4 * q + 3] == before[4 * q + 3]);
                }
            }
        }
        p = p + 1;
    }
    v
}

/// Serve one tray intent: `Quit` asks the process to end, the other two are
/// display intents; re-showing an already shown window only re-queues the
/// same text, so at-least-once delivery is harmless.
pub fn handle_tray_action(ui: &mut UiState, act: &TrayAction) -> (quit: bool)
    ensures
        quit == (act is Quit),
        match act {
            TrayAction::Quit => final(ui).queue_view() == old(ui).queue_view(),
            TrayAction::OpenSettings => final(ui).queue_view() == old(ui).queue_view().push(
                UiMessageView::OpenSettings,
            ),
            TrayAction::ShowWindow => final(ui).queue_view() == old(ui).queue_view().push(
                UiMessageView::ShowText(old(ui).last_text_view()),
            ),
        },
        final(ui).last_text_view() == old(ui).last_text_view(),
        final(ui).has_updated() == old(ui).has_updated(),
        final(ui).config_view() == old(ui).config_view(),
{
    match act {
        TrayAction::Quit => true,
        TrayAction::OpenSettings => {
            show_settings(ui);
            false
        },
        TrayAction::ShowWindow => {
            show_translation_window(ui);
            false
        },
    }
}

} // verus!
