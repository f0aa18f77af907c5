//! The display event queue.
//!
//! Actors hand display intents to the rendering surface through a queue:
//! show a full text, append a streamed fragment, show or hide the loading
//! indicator, open the settings form.  Beside the queue live the
//! last-shown-text cache — so the window can be re-shown with the most
//! recent result — and the flag that records whether the rendering loop ever
//! ran.  The rendering itself happens outside the library; it drains the
//! queue through [`update_step`].

use crate::config::Config;
use vstd::prelude::*;
use vstd::string::StringExecFns;

verus! {

/// One display intent.
pub enum UiMessage {
    /// Replace the displayed text and bring the window up.
    ShowText(String),
    /// Open the settings form.
    OpenSettings,
    /// Append one streamed fragment.
    AppendText(String),
    /// Show or hide the loading indicator.
    SetTranslating(bool),
}

/// A display intent, strings by content.
pub enum UiMessageView {
    ShowText(Seq<char>),
    OpenSettings,
    AppendText(Seq<char>),
    SetTranslating(bool),
}

pub open spec fn view_of_msg(m: UiMessage) -> UiMessageView {
    match m {
        UiMessage::ShowText(t) => UiMessageView::ShowText(t@),
        UiMessage::OpenSettings => UiMessageView::OpenSettings,
        UiMessage::AppendText(t) => UiMessageView::AppendText(t@),
        UiMessage::SetTranslating(b) => UiMessageView::SetTranslating(b),
    }
}

pub open spec fn views_of_msgs(msgs: Seq<UiMessage>) -> Seq<UiMessageView> {
    msgs.map_values(|m: UiMessage| view_of_msg(m))
}

/// The actor-facing side: the pending intents and the shared caches.
pub struct UiState {
    queue: Vec<UiMessage>,
    last_text: String,
    has_updated: bool,
    config: Option<Config>,
}

impl UiState {
    /// The pending intents, in order.
    pub closed spec fn queue_view(&self) -> Seq<UiMessageView> {
        views_of_msgs(self.queue@)
    }

    /// The most recent full text shown or streamed.
    pub closed spec fn last_text_view(&self) -> Seq<char> {
        self.last_text@
    }

    /// Whether the rendering loop ever drained the queue.
    pub closed spec fn has_updated(&self) -> bool {
        self.has_updated
    }

    /// The configuration handed to the settings form, if any.
    pub closed spec fn config_view(&self) -> Option<Config> {
        self.config
    }

    /// How many intents are pending.
    pub fn queue_len(&self) -> (n: usize)
        ensures
            n == self.queue_view().len(),
    {
        self.queue.len()
    }

    /// A copy of the most recent text.
    pub fn last_text(&self) -> (r: String)
        ensures
            r@ == self.last_text_view(),
    {
        self.last_text.clone()
    }

    pub fn new() -> (r: UiState)
        ensures
            r.queue_view() == Seq::<UiMessageView>::empty(),
            r.last_text_view() == Seq::<char>::empty(),
            !r.has_updated(),
            r.config_view() is None,
    {
        let r = UiState {
            queue: Vec::new(),
            last_text: String::new(),
            has_updated: false,
            config: None,
        };
        proof {
            assert(r.queue_view() =~= Seq::<UiMessageView>::empty());
        }
        r
    }
}

/// Show a full text: queue the intent and remember the text as the most
/// recent one.
pub fn show_output_text(ui: &mut UiState, text: String)
    ensures
        final(ui).queue_view() == old(ui).queue_view().push(UiMessageView::ShowText(text@)),
        final(ui).last_text_view() == text@,
        final(ui).has_updated() == old(ui).has_updated(),
        final(ui).config_view() == old(ui).config_view(),
{
    ui.last_text = text.clone();
    proof {
        assert(views_of_msgs(ui.queue@.push(UiMessage::ShowText(text))) =~= views_of_msgs(
            ui.queue@,
        ).push(UiMessageView::ShowText(text@)));
    }
    ui.queue.push(UiMessage::ShowText(text));
}

/// Queue one streamed fragment.
pub fn append_text(ui: &mut UiState, text: String)
    ensures
        final(ui).queue_view() == old(ui).queue_view().push(UiMessageView::AppendText(text@)),
        final(ui).last_text_view() == old(ui).last_text_view(),
        final(ui).has_updated() == old(ui).has_updated(),
        final(ui).config_view() == old(ui).config_view(),
{
    proof {
        assert(views_of_msgs(ui.queue@.push(UiMessage::AppendText(text))) =~= views_of_msgs(
            ui.queue@,
        ).push(UiMessageView::AppendText(text@)));
    }
    ui.queue.push(UiMessage::AppendText(text));
}

/// Queue the loading indicator state.
pub fn set_translating(ui: &mut UiState, translating: bool)
    ensures
        final(ui).queue_view() == old(ui).queue_view().push(
            UiMessageView::SetTranslating(translating),
        ),
        final(ui).last_text_view() == old(ui).last_text_view(),
        final(ui).has_updated() == old(ui).has_updated(),
        final(ui).config_view() == old(ui).config_view(),
{
    proof {
        assert(views_of_msgs(ui.queue@.push(UiMessage::SetTranslating(translating)))
            =~= views_of_msgs(ui.queue@).push(UiMessageView::SetTranslating(translating)));
    }
    ui.queue.push(UiMessage::SetTranslating(translating));
}

/// Queue the settings form.
pub fn show_settings(ui: &mut UiState)
    ensures
        final(ui).queue_view() == old(ui).queue_view().push(UiMessageView::OpenSettings),
        final(ui).last_text_view() == old(ui).last_text_view(),
        final(ui).has_updated() == old(ui).has_updated(),
        final(ui).config_view() == old(ui).config_view(),
{
    proof {
        assert(views_of_msgs(ui.queue@.push(UiMessage::OpenSettings)) =~= views_of_msgs(
            ui.queue@,
        ).push(UiMessageView::OpenSettings));
    }
    ui.queue.push(UiMessage::OpenSettings);
}

/// Re-show the window with the most recent text.
pub fn show_translation_window(ui: &mut UiState)
    ensures
        final(ui).queue_view() == old(ui).queue_view().push(
            UiMessageView::ShowText(old(ui).last_text_view()),
        ),
        final(ui).last_text_view() == old(ui).last_text_view(),
        final(ui).has_updated() == old(ui).has_updated(),
        final(ui).config_view() == old(ui).config_view(),
{
    let text = ui.last_text.clone();
    proof {
        assert(views_of_msgs(ui.queue@.push(UiMessage::ShowText(text))) =~= views_of_msgs(
            ui.queue@,
        ).push(UiMessageView::ShowText(text@)));
    }
    ui.queue.push(UiMessage::ShowText(text));
}

/// Whether the rendering loop ever drained the queue.
pub fn has_ever_updated(ui: &UiState) -> (r: bool)
    ensures
        r == ui.has_updated(),
{
    ui.has_updated
}

/// Hand the settings form its configuration.
pub fn set_config(ui: &mut UiState, cfg: Config)
    ensures
        final(ui).config_view() == Some(cfg),
        final(ui).queue_view() == old(ui).queue_view(),
        final(ui).last_text_view() == old(ui).last_text_view(),
        final(ui).has_updated() == old(ui).has_updated(),
{
    ui.config = Some(cfg);
}

/// What the rendering surface shows.
pub struct DisplayState {
    pub text: String,
    pub show_settings: bool,
    pub is_translating: bool,
    pub need_focus: bool,
}

/// The rendering surface, strings by content.
pub struct DisplayView {
    pub text: Seq<char>,
    pub show_settings: bool,
    pub is_translating: bool,
    pub need_focus: bool,
}

pub open spec fn view_of_display(d: DisplayState) -> DisplayView {
    DisplayView {
        text: d.text@,
        show_settings: d.show_settings,
        is_translating: d.is_translating,
        need_focus: d.need_focus,
    }
}

impl DisplayState {
    pub fn new() -> (r: DisplayState)
        ensures
            view_of_display(r) == (DisplayView {
                text: Seq::<char>::empty(),
                show_settings: false,
                is_translating: false,
                need_focus: false,
            }),
    {
        DisplayState {
            text: String::new(),
            show_settings: false,
            is_translating: false,
            need_focus: false,
        }
    }
}

/// What one intent does to the surface and to the last-text cache: a full
/// text replaces the display and leaves the settings form, a fragment is
/// appended and becomes (with what it joined) the most recent text, the
/// loading indicator replaces the display with a fixed line while it is on,
/// and opening the settings only raises the form.
pub open spec fn apply_msg(st: (DisplayView, Seq<char>), m: UiMessageView) -> (
    DisplayView,
    Seq<char>,
) {
    match m {
        UiMessageView::ShowText(t) => (
            DisplayView { text: t, show_settings: false, is_translating: false, need_focus: true },
            st.1,
        ),
        UiMessageView::AppendText(t) => (
            DisplayView { text: st.0.text + t, ..st.0 },
            st.0.text + t,
        ),
        UiMessageView::SetTranslating(b) => if b {
            (
                DisplayView {
                    text: "Translating..."@,
                    show_settings: false,
                    is_translating: true,
                    need_focus: true,
                },
                st.1,
            )
        } else {
            (DisplayView { is_translating: false, ..st.0 }, st.1)
        },
        UiMessageView::OpenSettings => (
            DisplayView { show_settings: true, need_focus: true, ..st.0 },
            st.1,
        ),
    }
}

/// Law: tray intents are delivered at least once per user action, so their
/// display effect must be idempotent: delivering the same show-text intent
/// twice leaves the surface exactly as one delivery does.
pub proof fn lemma_show_text_idempotent(st: (DisplayView, Seq<char>), t: Seq<char>)
    ensures
        apply_msg(apply_msg(st, UiMessageView::ShowText(t)), UiMessageView::ShowText(t))
            == apply_msg(st, UiMessageView::ShowText(t)),
{
}

/// All queued intents applied in order.
pub open spec fn apply_all(st: (DisplayView, Seq<char>), msgs: Seq<UiMessageView>) -> (
    DisplayView,
    Seq<char>,
)
    decreases msgs.len(),
{
    if msgs.len() == 0 {
        st
    } else {
        apply_msg(apply_all(st, msgs.drop_last()), msgs.last())
    }
}

/// One pass of the rendering loop: drain every pending intent, in order,
/// onto the surface; record that the loop has run.
pub fn update_step(ui: &mut UiState, d: &mut DisplayState)
    ensures
        (view_of_display(*final(d)), final(ui).last_text_view()) == apply_all(
            (view_of_display(*old(d)), old(ui).last_text_view()),
            old(ui).queue_view(),
        ),
        final(ui).queue_view() == Seq::<UiMessageView>::empty(),
        final(ui).has_updated(),
        final(ui).config_view() == old(ui).config_view(),
{
    let ghost init = (view_of_display(*old(d)), old(ui).last_text_view());
    let ghost msgs = old(ui).queue_view();
    ui.has_updated = true;
    let mut i: usize = 0;
    proof {
        assert(msgs.subrange(0, 0) =~= Seq::<UiMessageView>::empty());
    }
    let n = ui.queue.len();
    while i < n
        invariant
            0 <= i <= n,
            n == ui.queue@.len(),
            views_of_msgs(ui.queue@) == msgs,
            ui.has_updated,
            ui.config == old(ui).config_view(),
            (view_of_display(*d), ui.last_text@) == apply_all(init, msgs.subrange(0, i as int)),
        decreases n - i,
    {
        proof {
            assert(msgs.subrange(0, i + 1).drop_last() =~= msgs.subrange(0, i as int));
            assert(msgs.subrange(0, i + 1).last() == msgs[i as int]);
        }
        match &ui.queue[i] {
            UiMessage::ShowText(t) => {
                d.text = t.clone();
                d.show_settings = false;
                d.is_translating = false;
                d.need_focus = true;
            },
            UiMessage::AppendText(t) => {
                d.text.append(t.as_str());
                ui.last_text = d.text.clone();
            },
            UiMessage::SetTranslating(b) => {
                if *b {
                    d.text = String::from_str("Translating...");
                    d.show_settings = false;
                    d.is_translating = true;
                    d.need_focus = true;
                } else {
                    d.is_translating = false;
                }
            },
            UiMessage::OpenSettings => {
                d.show_settings = true;
                d.need_focus = true;
            },
        }
        i = i + 1;
    }
    proof {
        assert(msgs.subrange(0, n as int) =~= msgs);
    }
    ui.queue.clear();
    proof {
        assert(views_of_msgs(Seq::<UiMessage>::empty()) =~= Seq::<UiMessageView>::empty());
    }
}

} // verus!
