use ancient_star_catalog::match_flow::{
    keep_count, keep_first, MatchAction, MatchAnswer, MatchEvent, MatchFlow, MatchMode,
    MatchStage, AUTO_MATCH_KEEP,
};
use ancient_star_catalog::replies::HttpStatus;

fn drive(flow: &mut MatchFlow, e: MatchEvent) -> MatchAction {
    assert!(flow.expects(&e));
    flow.step(e)
}

#[test]
fn fresh_match_runs_saves_then_answers() {
    let mut f = MatchFlow::new(MatchMode::Run, Some(3));
    assert!(matches!(drive(&mut f, MatchEvent::Begin), MatchAction::LoadGuest));
    assert!(matches!(drive(&mut f, MatchEvent::GuestFound), MatchAction::LoadCatalog));
    assert!(matches!(
        drive(&mut f, MatchEvent::CatalogLoaded { count: 50 }),
        MatchAction::RunMatch { keep: Some(3) }
    ));
    assert!(matches!(drive(&mut f, MatchEvent::Matched), MatchAction::SaveResults));
    assert!(matches!(
        drive(&mut f, MatchEvent::Saved { ok: false }),
        MatchAction::Answer(MatchAnswer::Candidates)
    ));
    assert_eq!(f.stage, MatchStage::Answered);
    assert!(!f.expects(&MatchEvent::Begin));
}

#[test]
fn fresh_match_without_top_k_keeps_all() {
    let mut f = MatchFlow::new(MatchMode::Run, None);
    drive(&mut f, MatchEvent::Begin);
    drive(&mut f, MatchEvent::GuestFound);
    assert!(matches!(
        drive(&mut f, MatchEvent::CatalogLoaded { count: 1 }),
        MatchAction::RunMatch { keep: None }
    ));
}

#[test]
fn missing_guest_is_not_found() {
    let mut f = MatchFlow::new(MatchMode::Run, None);
    drive(&mut f, MatchEvent::Begin);
    match drive(&mut f, MatchEvent::GuestMissing) {
        MatchAction::Answer(MatchAnswer::Failure { status, message }) => {
            assert_eq!(status, HttpStatus::NotFound);
            assert_eq!(message, "Guest star not found");
        }
        _ => panic!("expected a not-found answer"),
    }
}

#[test]
fn empty_catalog_fails_a_fresh_match() {
    let mut f = MatchFlow::new(MatchMode::Run, Some(5));
    drive(&mut f, MatchEvent::Begin);
    drive(&mut f, MatchEvent::GuestFound);
    match drive(&mut f, MatchEvent::CatalogLoaded { count: 0 }) {
        MatchAction::Answer(MatchAnswer::Failure { status, message }) => {
            assert_eq!(status, HttpStatus::InternalServerError);
            assert_eq!(message, "No SNR catalog available");
        }
        _ => panic!("expected a failure"),
    }
}

#[test]
fn stored_matches_are_served_without_matching() {
    let mut f = MatchFlow::new(MatchMode::ServeSaved, None);
    assert!(matches!(drive(&mut f, MatchEvent::Begin), MatchAction::LoadSaved));
    assert!(matches!(
        drive(&mut f, MatchEvent::SavedLoaded { count: 4 }),
        MatchAction::Answer(MatchAnswer::SavedMatches)
    ));
    assert_eq!(f.stage, MatchStage::Answered);
}

#[test]
fn no_stored_matches_match_afresh_keeping_twenty() {
    let mut f = MatchFlow::new(MatchMode::ServeSaved, Some(3));
    drive(&mut f, MatchEvent::Begin);
    assert!(matches!(drive(&mut f, MatchEvent::SavedLoaded { count: 0 }), MatchAction::LoadGuest));
    drive(&mut f, MatchEvent::GuestFound);
    match drive(&mut f, MatchEvent::CatalogLoaded { count: 9 }) {
        MatchAction::RunMatch { keep } => assert_eq!(keep, Some(AUTO_MATCH_KEEP)),
        _ => panic!("expected a match"),
    }
    assert_eq!(AUTO_MATCH_KEEP, 20);
    drive(&mut f, MatchEvent::Matched);
    assert!(matches!(
        drive(&mut f, MatchEvent::Saved { ok: true }),
        MatchAction::Answer(MatchAnswer::Candidates)
    ));
}

#[test]
fn no_stored_matches_and_empty_catalog_answers_empty_list() {
    let mut f = MatchFlow::new(MatchMode::ServeSaved, None);
    drive(&mut f, MatchEvent::Begin);
    drive(&mut f, MatchEvent::SavedLoaded { count: 0 });
    drive(&mut f, MatchEvent::GuestFound);
    assert!(matches!(
        drive(&mut f, MatchEvent::CatalogLoaded { count: 0 }),
        MatchAction::Answer(MatchAnswer::NoCandidates)
    ));
}

#[test]
fn storage_failure_is_reported() {
    let mut f = MatchFlow::new(MatchMode::ServeSaved, None);
    drive(&mut f, MatchEvent::Begin);
    match drive(&mut f, MatchEvent::StorageFailed { message: "relation missing".to_string() }) {
        MatchAction::Answer(MatchAnswer::Failure { status, message }) => {
            assert_eq!(status, HttpStatus::InternalServerError);
            assert_eq!(message, "relation missing");
        }
        _ => panic!("expected a failure"),
    }
}

#[test]
fn unexpected_reports_are_refused() {
    let f = MatchFlow::new(MatchMode::Run, None);
    assert!(!f.expects(&MatchEvent::Matched));
    assert!(!f.expects(&MatchEvent::GuestFound));
    assert!(f.expects(&MatchEvent::Begin));
}

#[test]
fn keep_count_and_truncation() {
    assert_eq!(keep_count(Some(10)), Some(10));
    assert_eq!(keep_count(Some(0)), Some(0));
    assert_eq!(keep_count(Some(-1)), None);
    assert_eq!(keep_count(None), None);
    let mut v = vec![1, 2, 3, 4, 5];
    keep_first(&mut v, Some(3));
    assert_eq!(v, vec![1, 2, 3]);
    keep_first(&mut v, Some(10));
    assert_eq!(v, vec![1, 2, 3]);
    keep_first(&mut v, None);
    assert_eq!(v, vec![1, 2, 3]);
    keep_first(&mut v, Some(0));
    assert!(v.is_empty());
}

#[test]
fn answers_carry_their_http_status() {
    assert_eq!(MatchAnswer::SavedMatches.http_status(), HttpStatus::Success);
    assert_eq!(MatchAnswer::Candidates.http_status(), HttpStatus::Success);
    assert_eq!(MatchAnswer::NoCandidates.http_status(), HttpStatus::Success);
    let missing = MatchAnswer::Failure { status: HttpStatus::NotFound, message: "Guest star not found".to_string() };
    assert_eq!(missing.http_status(), HttpStatus::NotFound);
    let failed = MatchAnswer::Failure { status: HttpStatus::InternalServerError, message: "x".to_string() };
    assert_eq!(failed.http_status(), HttpStatus::InternalServerError);
}
