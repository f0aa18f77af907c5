//! The orchestrating state machine.
//!
//! One translation runs at a time: `Idle → Capturing → Translating →
//! Delivering → Idle`, with `Idle → Idle` when a precondition fails.  The
//! outside work — sleeping, reading the clipboard, the network transfer,
//! writing the clipboard — happens outside the library; the coordinator
//! takes each completed step as an event and decides the next phase and the
//! actions to perform.  A hotkey press while a trigger is already being
//! served is never dropped silently and never starts a second concurrent
//! request: it is coalesced into one pending press, served when the current
//! trigger finishes.

use crate::clipboard::ClipboardPayload;
use crate::config::{missing_key, Config};
use crate::session::TranslateError;
use crate::wire::{make_request, TranslationRequest};
use vstd::prelude::*;
use vstd::string::StringExecFns;

verus! {

/// Where the coordinator stands for the current trigger.
#[derive(Clone, Copy, PartialEq, Eq, Structural, Debug)]
pub enum Phase {
    Idle,
    Capturing,
    Translating,
    Delivering,
}

/// What happened outside the library.
pub enum CoordEvent {
    /// The global hotkey fired.
    Hotkey,
    /// The clipboard reads finished with this payload.
    Captured(ClipboardPayload),
    /// The network transfer finished.
    StreamDone(Result<String, TranslateError>),
    /// The result was written back to the clipboard, or not.
    Delivered(bool),
}

/// What the outside must do next.
pub enum CoordAction {
    /// Tell the user the provider requires a token and none is set.
    NoticeMissingKey,
    /// Tell the user the clipboard held nothing usable.
    NoticeClipboardEmpty,
    /// Tell the user a translation is under way.
    NoticeTranslating,
    /// Read the clipboard (image first, then text) and report back.
    StartCapture,
    /// Show or hide the loading indicator.
    SetLoading(bool),
    /// Clear the displayed text before fragments arrive.
    ClearText,
    /// Post this request and feed the response back.
    StartRequest(TranslationRequest),
    /// Write the finished translation to the clipboard and report back.
    WriteClipboard(String),
    /// Tell the user the result was copied.
    NoticeCopied,
    /// Tell the user the result arrived but the copy failed.
    NoticeCopyFailed,
    /// Tell the user the attempt failed.
    NoticeError(String),
    /// Put a failure line on the display surface.
    ShowErrorText(String),
}

/// The payload, strings by content.
pub enum PayloadView {
    Text(Seq<char>),
    Image(Seq<u8>, Seq<char>),
    Empty,
}

pub open spec fn view_of_payload(p: ClipboardPayload) -> PayloadView {
    match p {
        ClipboardPayload::Text(t) => PayloadView::Text(t@),
        ClipboardPayload::Image(d) => PayloadView::Image(d.bytes@, d.mime_type@),
        ClipboardPayload::Empty => PayloadView::Empty,
    }
}

/// A request, strings by content.
pub struct RequestView {
    pub payload: PayloadView,
    pub target_lang: Seq<char>,
    pub provider: crate::config::ProviderKind,
    pub model: Seq<char>,
    pub api_key: Seq<char>,
    pub api_base: Seq<char>,
}

pub open spec fn view_of_request(r: TranslationRequest) -> RequestView {
    RequestView {
        payload: view_of_payload(r.payload),
        target_lang: r.target_lang@,
        provider: r.provider,
        model: r.model@,
        api_key: r.api_key@,
        api_base: r.api_base@,
    }
}

/// The request a configuration snapshot and a payload give rise to.
pub open spec fn request_view_of(c: Config, p: PayloadView) -> RequestView {
    RequestView {
        payload: p,
        target_lang: c.target_lang@,
        provider: c.provider,
        model: c.openai_model@,
        api_key: c.openai_api_key@,
        api_base: c.api_base@,
    }
}

/// An action, strings by content.
pub enum ActionView {
    NoticeMissingKey,
    NoticeClipboardEmpty,
    NoticeTranslating,
    StartCapture,
    SetLoading(bool),
    ClearText,
    StartRequest(RequestView),
    WriteClipboard(Seq<char>),
    NoticeCopied,
    NoticeCopyFailed,
    NoticeError(Seq<char>),
    ShowErrorText(Seq<char>),
}

pub open spec fn view_of_action(a: CoordAction) -> ActionView {
    match a {
        CoordAction::NoticeMissingKey => ActionView::NoticeMissingKey,
        CoordAction::NoticeClipboardEmpty => ActionView::NoticeClipboardEmpty,
        CoordAction::NoticeTranslating => ActionView::NoticeTranslating,
        CoordAction::StartCapture => ActionView::StartCapture,
        CoordAction::SetLoading(b) => ActionView::SetLoading(b),
        CoordAction::ClearText => ActionView::ClearText,
        CoordAction::StartRequest(r) => ActionView::StartRequest(view_of_request(r)),
        CoordAction::WriteClipboard(t) => ActionView::WriteClipboard(t@),
        CoordAction::NoticeCopied => ActionView::NoticeCopied,
        CoordAction::NoticeCopyFailed => ActionView::NoticeCopyFailed,
        CoordAction::NoticeError(m) => ActionView::NoticeError(m@),
        CoordAction::ShowErrorText(m) => ActionView::ShowErrorText(m@),
    }
}

pub open spec fn views_of_actions(acts: Seq<CoordAction>) -> Seq<ActionView> {
    acts.map_values(|a: CoordAction| view_of_action(a))
}

/// Coordinator state: the phase, and whether one press arrived while a
/// trigger was being served.
pub struct CoordState {
    pub phase: Phase,
    pub pending: bool,
}

/// Begin serving a press under configuration `c`: the precondition check in
/// order — a provider that requires a token must have one — then capture.
pub open spec fn begin_spec(c: Config) -> (CoordState, Seq<ActionView>) {
    if missing_key(c) {
        (CoordState { phase: Phase::Idle, pending: false }, seq![ActionView::NoticeMissingKey])
    } else {
        (CoordState { phase: Phase::Capturing, pending: false }, seq![ActionView::StartCapture])
    }
}

/// Return to rest after a trigger, serving the one pending press, if any,
/// under the configuration then current.
pub open spec fn finish_spec(pending: bool, c: Config, acts: Seq<ActionView>) -> (
    CoordState,
    Seq<ActionView>,
) {
    if pending {
        let (st, more) = begin_spec(c);
        (st, acts + more)
    } else {
        (CoordState { phase: Phase::Idle, pending: false }, acts)
    }
}

/// The whole transition relation: what each event does in each phase.  An
/// event that does not belong to the current phase changes nothing.
pub open spec fn step_spec(st: CoordState, ev: CoordEvent, c: Config) -> (
    CoordState,
    Seq<ActionView>,
) {
    match ev {
        CoordEvent::Hotkey => {
            if st.phase is Idle {
                begin_spec(c)
            } else {
                (CoordState { phase: st.phase, pending: true }, Seq::empty())
            }
        },
        CoordEvent::Captured(payload) => {
            if st.phase is Capturing {
                match payload {
                    ClipboardPayload::Empty => finish_spec(
                        st.pending,
                        c,
                        seq![ActionView::NoticeClipboardEmpty],
                    ),
                    _ => (
                        CoordState { phase: Phase::Translating, pending: st.pending },
                        seq![
                            ActionView::SetLoading(true),
                            ActionView::NoticeTranslating,
                            ActionView::ClearText,
                            ActionView::StartRequest(
                                request_view_of(c, view_of_payload(payload)),
                            ),
                        ],
                    ),
                }
            } else {
                (st, Seq::empty())
            }
        },
        CoordEvent::StreamDone(res) => {
            if st.phase is Translating {
                match res {
                    Ok(text) => (
                        CoordState { phase: Phase::Delivering, pending: st.pending },
                        seq![ActionView::SetLoading(false), ActionView::WriteClipboard(text@)],
                    ),
                    Err(e) => finish_spec(
                        st.pending,
                        c,
                        seq![
                            ActionView::SetLoading(false),
                            ActionView::NoticeError(e.message_spec()),
                            ActionView::ShowErrorText("Error: "@ + e.message_spec()),
                        ],
                    ),
                }
            } else {
                (st, Seq::empty())
            }
        },
        CoordEvent::Delivered(ok) => {
            if st.phase is Delivering {
                if ok {
                    finish_spec(st.pending, c, seq![ActionView::NoticeCopied])
                } else {
                    finish_spec(st.pending, c, seq![ActionView::NoticeCopyFailed])
                }
            } else {
                (st, Seq::empty())
            }
        },
    }
}

/// The orchestrating loop's state.
pub struct Coordinator {
    state: CoordState,
}

impl Coordinator {
    pub closed spec fn state(&self) -> CoordState {
        self.state
    }

    pub open spec fn phase(&self) -> Phase {
        self.state().phase
    }

    pub fn new() -> (r: Coordinator)
        ensures
            r.phase() is Idle,
            !r.state().pending,
    {
        Coordinator { state: CoordState { phase: Phase::Idle, pending: false } }
    }

    /// The phase being served right now.
    pub fn current_phase(&self) -> (p: Phase)
        ensures
            p == self.phase(),
    {
        self.state.phase
    }

    /// Whether a press is waiting to be served.
    pub fn has_pending(&self) -> (r: bool)
        ensures
            r == self.state().pending,
    {
        self.state.pending
    }

    /// Take one event under the current configuration snapshot; the next
    /// state and the emitted actions follow [`step_spec`] exactly.
    pub fn step(&mut self, ev: CoordEvent, c: &Config) -> (acts: Vec<CoordAction>)
        ensures
            (final(self).state(), views_of_actions(acts@)) == step_spec(
                old(self).state(),
                ev,
                *c,
            ),
    {
        let mut acts: Vec<CoordAction> = Vec::new();
        match ev {
            CoordEvent::Hotkey => {
                match self.state.phase {
                    Phase::Idle => {
                        self.begin(c, &mut acts);
                    },
                    _ => {
                        self.state.pending = true;
                    },
                }
            },
            CoordEvent::Captured(payload) => {
                match self.state.phase {
                    Phase::Capturing => {
                        match payload {
                            ClipboardPayload::Empty => {
                                acts.push(CoordAction::NoticeClipboardEmpty);
                                self.finish(c, &mut acts);
                            },
                            _ => {
                                acts.push(CoordAction::SetLoading(true));
                                acts.push(CoordAction::NoticeTranslating);
                                acts.push(CoordAction::ClearText);
                                let req = make_request(c, payload);
                                acts.push(CoordAction::StartRequest(req));
                                self.state.phase = Phase::Translating;
                            },
                        }
                    },
                    _ => {},
                }
            },
            CoordEvent::StreamDone(res) => {
                match self.state.phase {
                    Phase::Translating => {
                        match res {
                            Ok(text) => {
                                acts.push(CoordAction::SetLoading(false));
                                acts.push(CoordAction::WriteClipboard(text));
                                self.state.phase = Phase::Delivering;
                            },
                            Err(e) => {
                                acts.push(CoordAction::SetLoading(false));
                                let msg = e.message();
                                let mut line = String::from_str("Error: ");
                                line.append(msg.as_str());
                                acts.push(CoordAction::NoticeError(msg));
                                acts.push(CoordAction::ShowErrorText(line));
                                self.finish(c, &mut acts);
                            },
                        }
                    },
                    _ => {},
                }
            },
            CoordEvent::Delivered(ok) => {
                match self.state.phase {
                    Phase::Delivering => {
                        if ok {
                            acts.push(CoordAction::NoticeCopied);
                        } else {
                            acts.push(CoordAction::NoticeCopyFailed);
                        }
                        self.finish(c, &mut acts);
                    },
                    _ => {},
                }
            },
        }
        proof {
            assert(views_of_actions(acts@) =~= step_spec(old(self).state(), ev, *c).1);
        }
        acts
    }

    fn begin(&mut self, c: &Config, acts: &mut Vec<CoordAction>)
        ensures
            final(self).state() == begin_spec(*c).0,
            views_of_actions(final(acts)@) == views_of_actions(old(acts)@) + begin_spec(*c).1,
    {
        if crate::config::config_missing_key(c) {
            acts.push(CoordAction::NoticeMissingKey);
            self.state.phase = Phase::Idle;
            self.state.pending = false;
        } else {
            acts.push(CoordAction::StartCapture);
            self.state.phase = Phase::Capturing;
            self.state.pending = false;
        }
        proof {
            assert(views_of_actions(final(acts)@) =~= views_of_actions(old(acts)@) + begin_spec(
                *c,
            ).1);
        }
    }

    fn finish(&mut self, c: &Config, acts: &mut Vec<CoordAction>)
        ensures
            ({
                let (st, more) = finish_spec(old(self).state().pending, *c, Seq::empty());
                &&& final(self).state() == st
                &&& views_of_actions(final(acts)@) == views_of_actions(old(acts)@) + more
            }),
    {
        if self.state.pending {
            self.state.pending = false;
            self.begin(c, acts);
        } else {
            self.state.phase = Phase::Idle;
            self.state.pending = false;
            proof {
                assert(views_of_actions(final(acts)@) =~= views_of_actions(old(acts)@)
                    + Seq::<ActionView>::empty());
            }
        }
    }
}

/// Law: a hotkey press while a trigger is being served starts nothing — the
/// phase stays as it was, no capture and no request is emitted, and the
/// press is only remembered.  Together with the law below, two presses back
/// to back while a translation is in flight produce no overlapping requests:
/// the second request, if any, begins only after the first completes.
pub proof fn lemma_busy_press_starts_nothing(st: CoordState, c: Config)
    requires
        !(st.phase is Idle),
    ensures
        step_spec(st, CoordEvent::Hotkey, c).0.phase == st.phase,
        step_spec(st, CoordEvent::Hotkey, c).0.pending,
        step_spec(st, CoordEvent::Hotkey, c).1 == Seq::<ActionView>::empty(),
{
}

/// Law: a request action is emitted only when a capture completes with a
/// usable payload, and it moves the coordinator into the translating phase;
/// no other transition emits one.  In particular nothing is emitted from the
/// translating phase itself but by its own completion event.
pub proof fn lemma_request_only_from_capture(st: CoordState, ev: CoordEvent, c: Config)
    ensures
        (exists|i: int|
            0 <= i < step_spec(st, ev, c).1.len() && step_spec(st, ev, c).1[i] is StartRequest)
            ==> {
            &&& st.phase is Capturing
            &&& ev is Captured
            &&& step_spec(st, ev, c).0.phase is Translating
        },
{
    let out = step_spec(st, ev, c);
    if exists|i: int| 0 <= i < out.1.len() && out.1[i] is StartRequest {
        let i = choose|i: int| 0 <= i < out.1.len() && out.1[i] is StartRequest;
        match ev {
            CoordEvent::Hotkey => {
                assert(!(out.1[i] is StartRequest));
            },
            CoordEvent::Captured(payload) => {
                if !(st.phase is Capturing) {
                    assert(!(out.1[i] is StartRequest));
                } else {
                    match payload {
                        ClipboardPayload::Empty => {
                            assert(!(out.1[i] is StartRequest));
                        },
                        _ => {},
                    }
                }
            },
            CoordEvent::StreamDone(res) => {
                assert(!(out.1[i] is StartRequest));
            },
            CoordEvent::Delivered(ok) => {
                assert(!(out.1[i] is StartRequest));
            },
        }
    }
}

} // verus!
