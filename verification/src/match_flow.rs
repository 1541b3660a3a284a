//! The decisions of the two match endpoints, as a state machine that the
//! server drives: it performs each requested action (a storage read, the
//! Bayesian match, a storage write) and reports what came of it.
//!
//! `POST /api/match/{guest_id}` always matches afresh; `GET /api/match/{guest_id}`
//! answers with the stored matches when there are any and otherwise matches
//! afresh, keeping the first twenty candidates.

use vstd::prelude::*;
use crate::replies::{HttpStatus, GUEST_NOT_FOUND};

verus! {

/// Answer when the remnant catalogue is empty and a fresh match was asked for.
pub const NO_SNR_CATALOG: &'static str = "No SNR catalog available";

/// Number of candidates kept when the saved-match endpoint matches afresh.
pub const AUTO_MATCH_KEEP: usize = 20;

/// Which endpoint is being served.
#[derive(Clone, Copy, Debug, PartialEq, Eq, Structural)]
pub enum MatchMode {
    /// Match afresh, keeping at most the requested number of candidates.
    Run,
    /// Answer with the stored matches, matching afresh only when there are none.
    ServeSaved,
}

/// How far a request has come.
#[derive(Clone, Copy, Debug, PartialEq, Eq, Structural)]
pub enum MatchStage {
    Start,
    AwaitingSaved,
    AwaitingGuest,
    AwaitingCatalog,
    AwaitingMatch,
    AwaitingSave,
    Answered,
}

/// What the server reports back after performing an action.
pub enum MatchEvent {
    /// The request arrived.
    Begin,
    /// The stored matches of the guest star were read; `count` of them exist.
    SavedLoaded { count: usize },
    /// The guest star exists.
    GuestFound,
    /// No guest star has the requested id.
    GuestMissing,
    /// The remnant catalogue was read; it holds `count` remnants.
    CatalogLoaded { count: usize },
    /// The Bayesian match ran.
    Matched,
    /// Storing the match results finished; `ok` says whether it succeeded.
    Saved { ok: bool },
    /// A storage read failed with `message`.
    StorageFailed { message: String },
}

/// The final answer of a request.
pub enum MatchAnswer {
    /// The stored matches.
    SavedMatches,
    /// The guest star, the fresh candidates and a description of the method.
    Candidates,
    /// An empty candidate list.
    NoCandidates,
    /// An error envelope with this status and message.
    Failure { status: HttpStatus, message: String },
}

/// What the server is asked to do next.
pub enum MatchAction {
    LoadSaved,
    LoadGuest,
    LoadCatalog,
    /// Run the Bayesian match and keep at most `keep` candidates (all when `None`).
    RunMatch { keep: Option<usize> },
    SaveResults,
    Answer(MatchAnswer),
}

/// The mathematical value of an answer.
pub enum AnswerView {
    SavedMatches,
    Candidates,
    NoCandidates,
    Failure { status: HttpStatus, message: Seq<char> },
}

/// The mathematical value of an action.
pub enum ActionView {
    LoadSaved,
    LoadGuest,
    LoadCatalog,
    RunMatch { keep: Option<usize> },
    SaveResults,
    Answer(AnswerView),
}

impl View for MatchAnswer {
    type V = AnswerView;

    open spec fn view(&self) -> AnswerView {
        match self {
            MatchAnswer::SavedMatches => AnswerView::SavedMatches,
            MatchAnswer::Candidates => AnswerView::Candidates,
            MatchAnswer::NoCandidates => AnswerView::NoCandidates,
            MatchAnswer::Failure { status, message } => AnswerView::Failure { status: *status, message: message@ },
        }
    }
}

impl View for MatchAction {
    type V = ActionView;

    open spec fn view(&self) -> ActionView {
        match self {
            MatchAction::LoadSaved => ActionView::LoadSaved,
            MatchAction::LoadGuest => ActionView::LoadGuest,
            MatchAction::LoadCatalog => ActionView::LoadCatalog,
            MatchAction::RunMatch { keep } => ActionView::RunMatch { keep: *keep },
            MatchAction::SaveResults => ActionView::SaveResults,
            MatchAction::Answer(a) => ActionView::Answer(a@),
        }
    }
}

impl AnswerView {
    /// The HTTP status an answer is sent with: the stored matches, the fresh
    /// candidates and the empty list are successes; a failure carries its own.
    pub open spec fn status(self) -> HttpStatus {
        match self {
            AnswerView::Failure { status, .. } => status,
            _ => HttpStatus::Success,
        }
    }
}

impl MatchAnswer {
    /// The HTTP status this answer is sent with.
    pub fn http_status(&self) -> (s: HttpStatus)
        ensures
            s == self@.status(),
            !(self@ is Failure) ==> s == HttpStatus::Success,
    {
        match self {
            MatchAnswer::Failure { status, .. } => *status,
            _ => HttpStatus::Success,
        }
    }
}

/// The number of candidates a fresh match keeps for the requested `top_k`:
/// a non-negative request keeps that many, a negative or absent one keeps all.
pub open spec fn keep_for(top_k: Option<i32>) -> Option<usize> {
    match top_k {
        Some(k) => if k >= 0 { Some(k as usize) } else { None },
        None => None,
    }
}

/// The number of candidates a fresh match keeps for the requested `top_k`.
pub fn keep_count(top_k: Option<i32>) -> (r: Option<usize>)
    ensures
        r == keep_for(top_k),
        match top_k {
            Some(k) => if k >= 0 { r == Some(k as usize) } else { r is None },
            None => r is None,
        },
{
    match top_k {
        Some(k) => if k >= 0 { Some(k as usize) } else { None },
        None => None,
    }
}

/// The first `keep` elements of `s`, or all of them when `keep` is `None` or
/// exceeds the length.
pub open spec fn kept<T>(s: Seq<T>, keep: Option<usize>) -> Seq<T> {
    match keep {
        Some(k) => if k < s.len() { s.take(k as int) } else { s },
        None => s,
    }
}

/// Drops every candidate past the first `keep`.
pub fn keep_first<T>(v: &mut Vec<T>, keep: Option<usize>)
    ensures
        final(v)@ == kept(old(v)@, keep),
{
    if let Some(k) = keep {
        v.truncate(k);
    }
}

/// A request to one of the match endpoints.
pub struct MatchFlow {
    pub mode: MatchMode,
    pub top_k: Option<i32>,
    pub stage: MatchStage,
}

/// The position of a stage along a request; every step moves forward.
pub open spec fn stage_rank(s: MatchStage) -> nat {
    match s {
        MatchStage::Start => 0,
        MatchStage::AwaitingSaved => 1,
        MatchStage::AwaitingGuest => 2,
        MatchStage::AwaitingCatalog => 3,
        MatchStage::AwaitingMatch => 4,
        MatchStage::AwaitingSave => 5,
        MatchStage::Answered => 6,
    }
}

impl MatchFlow {
    /// Whether `e` is a report the flow waits for in its current stage.
    pub open spec fn accepts(self, e: MatchEvent) -> bool {
        match self.stage {
            MatchStage::Start => e is Begin,
            MatchStage::AwaitingSaved => e is SavedLoaded || e is StorageFailed,
            MatchStage::AwaitingGuest => e is GuestFound || e is GuestMissing || e is StorageFailed,
            MatchStage::AwaitingCatalog => e is CatalogLoaded || e is StorageFailed,
            MatchStage::AwaitingMatch => e is Matched,
            MatchStage::AwaitingSave => e is Saved,
            MatchStage::Answered => false,
        }
    }

    /// The stage after an accepted report `e`.
    pub open spec fn next_stage(self, e: MatchEvent) -> MatchStage {
        match e {
            MatchEvent::Begin => if self.mode == MatchMode::Run { MatchStage::AwaitingGuest } else { MatchStage::AwaitingSaved },
            MatchEvent::SavedLoaded { count } => if count > 0 { MatchStage::Answered } else { MatchStage::AwaitingGuest },
            MatchEvent::GuestFound => MatchStage::AwaitingCatalog,
            MatchEvent::GuestMissing => MatchStage::Answered,
            MatchEvent::CatalogLoaded { count } => if count > 0 { MatchStage::AwaitingMatch } else { MatchStage::Answered },
            MatchEvent::Matched => MatchStage::AwaitingSave,
            MatchEvent::Saved { .. } => MatchStage::Answered,
            MatchEvent::StorageFailed { .. } => MatchStage::Answered,
        }
    }

    /// The action requested after an accepted report `e`.
    pub open spec fn next_action(self, e: MatchEvent) -> ActionView {
        match e {
            MatchEvent::Begin => if self.mode == MatchMode::Run { ActionView::LoadGuest } else { ActionView::LoadSaved },
            MatchEvent::SavedLoaded { count } =>
                if count > 0 { ActionView::Answer(AnswerView::SavedMatches) } else { ActionView::LoadGuest },
            MatchEvent::GuestFound => ActionView::LoadCatalog,
            MatchEvent::GuestMissing => ActionView::Answer(
                AnswerView::Failure { status: HttpStatus::NotFound, message: GUEST_NOT_FOUND@ }),
            MatchEvent::CatalogLoaded { count } =>
                if count > 0 {
                    ActionView::RunMatch {
                        keep: if self.mode == MatchMode::Run { keep_for(self.top_k) } else { Some(AUTO_MATCH_KEEP) },
                    }
                } else if self.mode == MatchMode::Run {
                    ActionView::Answer(AnswerView::Failure {
                        status: HttpStatus::InternalServerError, message: NO_SNR_CATALOG@ })
                } else {
                    ActionView::Answer(AnswerView::NoCandidates)
                },
            MatchEvent::Matched => ActionView::SaveResults,
            MatchEvent::Saved { .. } => ActionView::Answer(AnswerView::Candidates),
            MatchEvent::StorageFailed { message } => ActionView::Answer(
                AnswerView::Failure { status: HttpStatus::InternalServerError, message: message@ }),
        }
    }

    /// A new request to the endpoint `mode`, with the requested `top_k`.
    pub fn new(mode: MatchMode, top_k: Option<i32>) -> (f: Self)
        ensures
            f.mode == mode,
            f.top_k == top_k,
            f.stage == MatchStage::Start,
    {
        MatchFlow { mode, top_k, stage: MatchStage::Start }
    }

    /// Whether `e` is a report the flow waits for.
    pub fn expects(&self, e: &MatchEvent) -> (b: bool)
        ensures
            b == self.accepts(*e),
    {
        match self.stage {
            MatchStage::Start => matches!(e, MatchEvent::Begin),
            MatchStage::AwaitingSaved => matches!(e, MatchEvent::SavedLoaded { .. } | MatchEvent::StorageFailed { .. }),
            MatchStage::AwaitingGuest => matches!(e, MatchEvent::GuestFound | MatchEvent::GuestMissing | MatchEvent::StorageFailed { .. }),
            MatchStage::AwaitingCatalog => matches!(e, MatchEvent::CatalogLoaded { .. } | MatchEvent::StorageFailed { .. }),
            MatchStage::AwaitingMatch => matches!(e, MatchEvent::Matched),
            MatchStage::AwaitingSave => matches!(e, MatchEvent::Saved { .. }),
            MatchStage::Answered => false,
        }
    }

    /// Takes the report `e` and says what to do next.
    pub fn step(&mut self, e: MatchEvent) -> (a: MatchAction)
        requires
            old(self).accepts(e),
        ensures
            final(self).mode == old(self).mode,
            final(self).top_k == old(self).top_k,
            final(self).stage == old(self).next_stage(e),
            a@ == old(self).next_action(e),
    {
        let run = self.mode == MatchMode::Run;
        match e {
            MatchEvent::Begin => {
                if run {
                    self.stage = MatchStage::AwaitingGuest;
                    MatchAction::LoadGuest
                } else {
                    self.stage = MatchStage::AwaitingSaved;
                    MatchAction::LoadSaved
                }
            },
            MatchEvent::SavedLoaded { count } => {
                if count > 0 {
                    self.stage = MatchStage::Answered;
                    MatchAction::Answer(MatchAnswer::SavedMatches)
                } else {
                    self.stage = MatchStage::AwaitingGuest;
                    MatchAction::LoadGuest
                }
            },
            MatchEvent::GuestFound => {
                self.stage = MatchStage::AwaitingCatalog;
                MatchAction::LoadCatalog
            },
            MatchEvent::GuestMissing => {
                self.stage = MatchStage::Answered;
                MatchAction::Answer(MatchAnswer::Failure {
                    status: HttpStatus::NotFound,
                    message: String::from_str(GUEST_NOT_FOUND),
                })
            },
            MatchEvent::CatalogLoaded { count } => {
                if count > 0 {
                    self.stage = MatchStage::AwaitingMatch;
                    let keep = if run { keep_count(self.top_k) } else { Some(AUTO_MATCH_KEEP) };
                    MatchAction::RunMatch { keep }
                } else {
                    self.stage = MatchStage::Answered;
                    if run {
                        MatchAction::Answer(MatchAnswer::Failure {
                            status: HttpStatus::InternalServerError,
                            message: String::from_str(NO_SNR_CATALOG),
                        })
                    } else {
                        MatchAction::Answer(MatchAnswer::NoCandidates)
                    }
                }
            },
            MatchEvent::Matched => {
                self.stage = MatchStage::AwaitingSave;
                MatchAction::SaveResults
            },
            MatchEvent::Saved { .. } => {
                self.stage = MatchStage::Answered;
                MatchAction::Answer(MatchAnswer::Candidates)
            },
            MatchEvent::StorageFailed { message } => {
                self.stage = MatchStage::Answered;
                MatchAction::Answer(MatchAnswer::Failure {
                    status: HttpStatus::InternalServerError,
                    message,
                })
            },
        }
    }
}


impl MatchFlow {
    /// The flow after an accepted report `e`.
    pub open spec fn after(self, e: MatchEvent) -> MatchFlow {
        MatchFlow { mode: self.mode, top_k: self.top_k, stage: self.next_stage(e) }
    }
}

/// The reports `es` are accepted one after another, starting from `f`.
pub open spec fn accepts_all(f: MatchFlow, es: Seq<MatchEvent>) -> bool
    decreases es.len(),
{
    es.len() == 0 || (f.accepts(es[0]) && accepts_all(f.after(es[0]), es.drop_first()))
}

/// The actions requested in answer to the reports `es`, starting from `f`.
pub open spec fn actions(f: MatchFlow, es: Seq<MatchEvent>) -> Seq<ActionView>
    decreases es.len(),
{
    if es.len() == 0 {
        seq![]
    } else {
        seq![f.next_action(es[0])] + actions(f.after(es[0]), es.drop_first())
    }
}

/// The stage a request is in once the action `a` was requested.
pub open spec fn stage_after(a: ActionView) -> MatchStage {
    match a {
        ActionView::LoadSaved => MatchStage::AwaitingSaved,
        ActionView::LoadGuest => MatchStage::AwaitingGuest,
        ActionView::LoadCatalog => MatchStage::AwaitingCatalog,
        ActionView::RunMatch { .. } => MatchStage::AwaitingMatch,
        ActionView::SaveResults => MatchStage::AwaitingSave,
        ActionView::Answer(_) => MatchStage::Answered,
    }
}

/// The protocol of the match endpoints: which action may come right after `prev`.
/// The guest is looked up only when there are no stored matches, the catalogue
/// only once the guest was found, the match runs only on a loaded catalogue,
/// the results are stored right after the match, and fresh candidates are
/// answered only once they were stored.
pub open spec fn may_follow(prev: ActionView, cur: ActionView) -> bool {
    match cur {
        ActionView::LoadSaved => false,
        ActionView::LoadGuest => prev is LoadSaved,
        ActionView::LoadCatalog => prev is LoadGuest,
        ActionView::RunMatch { .. } => prev is LoadCatalog,
        ActionView::SaveResults => prev is RunMatch,
        ActionView::Answer(AnswerView::SavedMatches) => prev is LoadSaved,
        ActionView::Answer(AnswerView::Candidates) => prev is SaveResults,
        ActionView::Answer(AnswerView::NoCandidates) => prev is LoadCatalog,
        ActionView::Answer(AnswerView::Failure { .. }) =>
            prev is LoadSaved || prev is LoadGuest || prev is LoadCatalog,
    }
}

/// Each accepted report moves the request forward, and the request is
/// answered exactly when the requested action is the answer.
pub proof fn lemma_step_moves_forward(f: MatchFlow, e: MatchEvent)
    requires
        f.accepts(e),
    ensures
        stage_rank(f.next_stage(e)) > stage_rank(f.stage),
        stage_after(f.next_action(e)) == f.next_stage(e),
        (f.next_stage(e) == MatchStage::Answered) <==> (f.next_action(e) is Answer),
{
}

proof fn lemma_step_follows(f: MatchFlow, e: MatchEvent, prev: ActionView)
    requires
        f.accepts(e),
        f.stage != MatchStage::Start,
        stage_after(prev) == f.stage,
    ensures
        may_follow(prev, f.next_action(e)),
{
}

proof fn lemma_trace_follows(f: MatchFlow, es: Seq<MatchEvent>, prev: ActionView)
    requires
        accepts_all(f, es),
        f.stage != MatchStage::Start,
        stage_after(prev) == f.stage,
    ensures
        actions(f, es).len() == es.len(),
        es.len() > 0 ==> may_follow(prev, actions(f, es)[0]),
        forall|i: int| 0 < i < es.len() ==> may_follow(actions(f, es)[i - 1], #[trigger] actions(f, es)[i]),
        forall|i: int| 0 <= i < es.len() - 1 ==> !(#[trigger] actions(f, es)[i] is Answer),
        es.len() + stage_rank(f.stage) <= 6,
    decreases es.len(),
{
    if es.len() > 0 {
        let e = es[0];
        let a = f.next_action(e);
        let f1 = f.after(e);
        let rest = es.drop_first();
        lemma_step_follows(f, e, prev);
        lemma_step_moves_forward(f, e);
        lemma_trace_follows(f1, rest, a);
        let acts = actions(f, es);
        let tail = actions(f1, rest);
        assert(acts =~= seq![a] + tail);
        assert forall|i: int| 0 < i < es.len() implies may_follow(acts[i - 1], #[trigger] acts[i]) by {
            assert(acts[i] == tail[i - 1]);
            if i > 1 {
                assert(acts[i - 1] == tail[i - 2]);
            }
        }
        assert forall|i: int| 0 <= i < es.len() - 1 implies !(#[trigger] acts[i] is Answer) by {
            if i > 0 {
                assert(acts[i] == tail[i - 1]);
            } else {
                assert(f1.accepts(rest[0]));
            }
        }
    }
}

/// Every request to a match endpoint follows the endpoint protocol
/// (`may_follow`): it starts by reading either the stored matches or the guest
/// star, each action may follow the one before it, the answer is the last
/// action, and no request needs more than six reports.
pub proof fn lemma_request_follows_protocol(f: MatchFlow, es: Seq<MatchEvent>)
    requires
        f.stage == MatchStage::Start,
        accepts_all(f, es),
    ensures
        actions(f, es).len() == es.len(),
        es.len() <= 6,
        es.len() > 0 ==> (actions(f, es)[0] is LoadSaved || actions(f, es)[0] is LoadGuest),
        forall|i: int| 0 < i < es.len() ==> may_follow(actions(f, es)[i - 1], #[trigger] actions(f, es)[i]),
        forall|i: int| 0 <= i < es.len() - 1 ==> !(#[trigger] actions(f, es)[i] is Answer),
{
    if es.len() > 0 {
        let e = es[0];
        let a = f.next_action(e);
        let f1 = f.after(e);
        let rest = es.drop_first();
        lemma_step_moves_forward(f, e);
        lemma_trace_follows(f1, rest, a);
        let acts = actions(f, es);
        let tail = actions(f1, rest);
        assert(acts =~= seq![a] + tail);
        assert forall|i: int| 0 < i < es.len() implies may_follow(acts[i - 1], #[trigger] acts[i]) by {
            assert(acts[i] == tail[i - 1]);
            if i > 1 {
                assert(acts[i - 1] == tail[i - 2]);
            }
        }
        assert forall|i: int| 0 <= i < es.len() - 1 implies !(#[trigger] acts[i] is Answer) by {
            if i > 0 {
                assert(acts[i] == tail[i - 1]);
            }
        }
    }
}


/// A non-negative `top_k` keeps exactly that many candidates; only a negative
/// or absent one keeps them all.
pub proof fn lemma_keep_follows_top_k()
    ensures
        forall|k: i32| k >= 0 ==> #[trigger] keep_for(Some(k)) == Some(k as usize),
        forall|k: i32| k < 0 ==> #[trigger] keep_for(Some(k)) is None,
        keep_for(None) is None,
        forall|k: i32, s: Seq<int>| k >= 0 ==> #[trigger] kept(s, keep_for(Some(k))).len()
            == if (k as int) < s.len() { k as int } else { s.len() as int },
{
}

/// While a request waits, it takes every report the server can make about the
/// action it asked for: any count of stored matches or remnants, a found or
/// missing guest, any storage error, the finished match, and the end of the
/// save whether it succeeded or not.
pub proof fn lemma_flow_takes_every_report_of_its_action(
    f: MatchFlow,
    count: usize,
    ok: bool,
    message: String,
)
    ensures
        f.stage == MatchStage::Start ==> f.accepts(MatchEvent::Begin),
        f.stage == MatchStage::AwaitingSaved ==> f.accepts(MatchEvent::SavedLoaded { count })
            && f.accepts(MatchEvent::StorageFailed { message }),
        f.stage == MatchStage::AwaitingGuest ==> f.accepts(MatchEvent::GuestFound)
            && f.accepts(MatchEvent::GuestMissing) && f.accepts(MatchEvent::StorageFailed { message }),
        f.stage == MatchStage::AwaitingCatalog ==> f.accepts(MatchEvent::CatalogLoaded { count })
            && f.accepts(MatchEvent::StorageFailed { message }),
        f.stage == MatchStage::AwaitingMatch ==> f.accepts(MatchEvent::Matched),
        f.stage == MatchStage::AwaitingSave ==> f.accepts(MatchEvent::Saved { ok }),
{
}

/// The saved-match endpoint with nothing stored, a found guest and a
/// non-empty catalogue runs the match keeping twenty candidates, whatever
/// `top_k` says, stores them and answers with the fresh candidates.
pub proof fn lemma_serve_saved_matches_afresh(top_k: Option<i32>, count: usize, ok: bool)
    requires
        count > 0,
    ensures
        accepts_all(
            MatchFlow { mode: MatchMode::ServeSaved, top_k, stage: MatchStage::Start },
            seq![MatchEvent::Begin, MatchEvent::SavedLoaded { count: 0 }, MatchEvent::GuestFound,
                MatchEvent::CatalogLoaded { count }, MatchEvent::Matched, MatchEvent::Saved { ok }],
        ),
        actions(
            MatchFlow { mode: MatchMode::ServeSaved, top_k, stage: MatchStage::Start },
            seq![MatchEvent::Begin, MatchEvent::SavedLoaded { count: 0 }, MatchEvent::GuestFound,
                MatchEvent::CatalogLoaded { count }, MatchEvent::Matched, MatchEvent::Saved { ok }],
        ) == seq![ActionView::LoadSaved, ActionView::LoadGuest, ActionView::LoadCatalog,
                ActionView::RunMatch { keep: Some(20usize) }, ActionView::SaveResults,
                ActionView::Answer(AnswerView::Candidates)],
{
    let f = MatchFlow { mode: MatchMode::ServeSaved, top_k, stage: MatchStage::Start };
    let e0 = MatchEvent::Begin;
    let e1 = MatchEvent::SavedLoaded { count: 0 };
    let e2 = MatchEvent::GuestFound;
    let e3 = MatchEvent::CatalogLoaded { count };
    let e4 = MatchEvent::Matched;
    let e5 = MatchEvent::Saved { ok };
    let es = seq![e0, e1, e2, e3, e4, e5];
    let f1 = f.after(e0);
    let f2 = f1.after(e1);
    let f3 = f2.after(e2);
    let f4 = f3.after(e3);
    let f5 = f4.after(e4);
    let f6 = f5.after(e5);
    let s5 = seq![e5];
    let s4 = seq![e4, e5];
    let s3 = seq![e3, e4, e5];
    let s2 = seq![e2, e3, e4, e5];
    let s1 = seq![e1, e2, e3, e4, e5];
    assert(es.drop_first() =~= s1);
    assert(s1.drop_first() =~= s2);
    assert(s2.drop_first() =~= s3);
    assert(s3.drop_first() =~= s4);
    assert(s4.drop_first() =~= s5);
    assert(s5.drop_first() =~= Seq::<MatchEvent>::empty());
    let empty = Seq::<MatchEvent>::empty();
    assert(accepts_all(f6, empty) && actions(f6, empty) =~= Seq::<ActionView>::empty());
    assert(accepts_all(f5, s5) && actions(f5, s5) =~= seq![f5.next_action(e5)]);
    assert(accepts_all(f4, s4) && actions(f4, s4) =~= seq![f4.next_action(e4)] + actions(f5, s5));
    assert(accepts_all(f3, s3) && actions(f3, s3) =~= seq![f3.next_action(e3)] + actions(f4, s4));
    assert(accepts_all(f2, s2) && actions(f2, s2) =~= seq![f2.next_action(e2)] + actions(f3, s3));
    assert(accepts_all(f1, s1) && actions(f1, s1) =~= seq![f1.next_action(e1)] + actions(f2, s2));
    assert(accepts_all(f, es) && actions(f, es) =~= seq![f.next_action(e0)] + actions(f1, s1));
}

/// A fresh match with a found guest and a non-empty catalogue runs the match
/// keeping `top_k` candidates (all of them for a negative or absent `top_k`),
/// stores them whether or not storing succeeds, and answers with them.
pub proof fn lemma_run_matches_afresh(top_k: Option<i32>, count: usize, ok: bool)
    requires
        count > 0,
    ensures
        accepts_all(
            MatchFlow { mode: MatchMode::Run, top_k, stage: MatchStage::Start },
            seq![MatchEvent::Begin, MatchEvent::GuestFound, MatchEvent::CatalogLoaded { count },
                MatchEvent::Matched, MatchEvent::Saved { ok }],
        ),
        actions(
            MatchFlow { mode: MatchMode::Run, top_k, stage: MatchStage::Start },
            seq![MatchEvent::Begin, MatchEvent::GuestFound, MatchEvent::CatalogLoaded { count },
                MatchEvent::Matched, MatchEvent::Saved { ok }],
        ) == seq![ActionView::LoadGuest, ActionView::LoadCatalog,
                ActionView::RunMatch {
                    keep: match top_k {
                        Some(k) => if k >= 0 { Some(k as usize) } else { None },
                        None => None,
                    },
                },
                ActionView::SaveResults, ActionView::Answer(AnswerView::Candidates)],
{
    let f = MatchFlow { mode: MatchMode::Run, top_k, stage: MatchStage::Start };
    let e0 = MatchEvent::Begin;
    let e2 = MatchEvent::GuestFound;
    let e3 = MatchEvent::CatalogLoaded { count };
    let e4 = MatchEvent::Matched;
    let e5 = MatchEvent::Saved { ok };
    let es = seq![e0, e2, e3, e4, e5];
    let f2 = f.after(e0);
    let f3 = f2.after(e2);
    let f4 = f3.after(e3);
    let f5 = f4.after(e4);
    let f6 = f5.after(e5);
    let s5 = seq![e5];
    let s4 = seq![e4, e5];
    let s3 = seq![e3, e4, e5];
    let s2 = seq![e2, e3, e4, e5];
    assert(es.drop_first() =~= s2);
    assert(s2.drop_first() =~= s3);
    assert(s3.drop_first() =~= s4);
    assert(s4.drop_first() =~= s5);
    assert(s5.drop_first() =~= Seq::<MatchEvent>::empty());
    let empty = Seq::<MatchEvent>::empty();
    assert(accepts_all(f6, empty) && actions(f6, empty) =~= Seq::<ActionView>::empty());
    assert(accepts_all(f5, s5) && actions(f5, s5) =~= seq![f5.next_action(e5)]);
    assert(accepts_all(f4, s4) && actions(f4, s4) =~= seq![f4.next_action(e4)] + actions(f5, s5));
    assert(accepts_all(f3, s3) && actions(f3, s3) =~= seq![f3.next_action(e3)] + actions(f4, s4));
    assert(accepts_all(f2, s2) && actions(f2, s2) =~= seq![f2.next_action(e2)] + actions(f3, s3));
    assert(accepts_all(f, es) && actions(f, es) =~= seq![f.next_action(e0)] + actions(f2, s2));
}

/// The empty candidate list is answered only by the saved-match endpoint and
/// only when the remnant catalogue is empty.
pub proof fn lemma_no_candidates_only_for_empty_catalogue(f: MatchFlow, e: MatchEvent)
    requires
        f.accepts(e),
        f.next_action(e) == ActionView::Answer(AnswerView::NoCandidates),
    ensures
        f.mode == MatchMode::ServeSaved,
        e == (MatchEvent::CatalogLoaded { count: 0 }),
{
}


/// The answers of the match endpoints: stored matches are served as they are,
/// a missing guest is "not found" with "Guest star not found", a storage error
/// is an internal error carrying its own message, and an empty catalogue is an
/// internal error "No SNR catalog available" for a fresh match but an empty
/// list for the saved-match endpoint.
pub proof fn lemma_match_answers(f: MatchFlow, count: usize, message: String)
    ensures
        count > 0 ==> f.next_action(MatchEvent::SavedLoaded { count })
            == ActionView::Answer(AnswerView::SavedMatches),
        count == 0 ==> f.next_action(MatchEvent::SavedLoaded { count }) == ActionView::LoadGuest,
        f.next_action(MatchEvent::GuestMissing) == ActionView::Answer(AnswerView::Failure {
            status: HttpStatus::NotFound, message: "Guest star not found"@ }),
        f.next_action(MatchEvent::StorageFailed { message }) == ActionView::Answer(AnswerView::Failure {
            status: HttpStatus::InternalServerError, message: message@ }),
        f.mode == MatchMode::Run ==> f.next_action(MatchEvent::CatalogLoaded { count: 0 })
            == ActionView::Answer(AnswerView::Failure {
                status: HttpStatus::InternalServerError, message: "No SNR catalog available"@ }),
        f.mode == MatchMode::ServeSaved ==> f.next_action(MatchEvent::CatalogLoaded { count: 0 })
            == ActionView::Answer(AnswerView::NoCandidates),
        f.next_action(MatchEvent::Begin) == if f.mode == MatchMode::Run { ActionView::LoadGuest } else { ActionView::LoadSaved },
{
}

} // verus!
