use ancient_star_catalog::astronomy::{mansion_index, trajectory_point_count, MANSION_COUNT};
use ancient_star_catalog::matching::ScoreBreakdown;
use ancient_star_catalog::models::{ApiResponse, DynastyInfo, MatchRequest, PKG_VERSION};
use ancient_star_catalog::replies::{
    reply_counted, reply_listing, reply_lookup, validate_mansion_order, HttpStatus,
    GUEST_NOT_FOUND, MANSION_ORDER_RANGE, STAR_NOT_FOUND,
};

#[test]
fn ok_envelope_carries_data_and_no_total() {
    let r = ApiResponse::ok(vec![1, 2, 3]);
    assert_eq!(r.code, 0);
    assert_eq!(r.message, "success");
    assert_eq!(r.data, Some(vec![1, 2, 3]));
    assert_eq!(r.total, None);
    assert_eq!(r.version, PKG_VERSION);
}

#[test]
fn ok_with_count_envelope_carries_total() {
    let r = ApiResponse::ok_with_count("stars", 1200);
    assert_eq!(r.code, 0);
    assert_eq!(r.message, "success");
    assert_eq!(r.data, Some("stars"));
    assert_eq!(r.total, Some(1200));
}

#[test]
fn err_envelope_carries_message_only() {
    let r: ApiResponse<u8> = ApiResponse::err("Star not found");
    assert_eq!(r.code, -1);
    assert_eq!(r.message, "Star not found");
    assert_eq!(r.data, None);
    assert_eq!(r.total, None);
    assert_eq!(r.version, "0.1.0");
}

#[test]
fn listing_reply_success_and_failure() {
    let good = reply_listing::<Vec<i64>>(Ok(vec![7]));
    assert_eq!(good.status, HttpStatus::Success);
    assert_eq!(good.body.data, Some(vec![7]));
    let bad = reply_listing::<Vec<i64>>(Err("connection refused".to_string()));
    assert_eq!(bad.status, HttpStatus::InternalServerError);
    assert_eq!(bad.body.code, -1);
    assert_eq!(bad.body.message, "connection refused");
    assert_eq!(bad.body.data, None);
}

#[test]
fn counted_reply_keeps_the_count() {
    let good = reply_counted::<Vec<i64>>(Ok((vec![1, 2], 57)));
    assert_eq!(good.status, HttpStatus::Success);
    assert_eq!(good.body.total, Some(57));
    assert_eq!(good.body.data, Some(vec![1, 2]));
    let bad = reply_counted::<Vec<i64>>(Err("timeout".to_string()));
    assert_eq!(bad.status, HttpStatus::InternalServerError);
    assert_eq!(bad.body.message, "timeout");
    assert_eq!(bad.body.total, None);
}

#[test]
fn lookup_reply_found_missing_failed() {
    let found = reply_lookup::<i64>(Ok(Some(5)), STAR_NOT_FOUND);
    assert_eq!(found.status, HttpStatus::Success);
    assert_eq!(found.body.data, Some(5));
    let missing = reply_lookup::<i64>(Ok(None), GUEST_NOT_FOUND);
    assert_eq!(missing.status, HttpStatus::NotFound);
    assert_eq!(missing.body.message, "Guest star not found");
    assert_eq!(missing.body.code, -1);
    let failed = reply_lookup::<i64>(Err("db down".to_string()), STAR_NOT_FOUND);
    assert_eq!(failed.status, HttpStatus::InternalServerError);
    assert_eq!(failed.body.message, "db down");
}

#[test]
fn mansion_order_validation_bounds() {
    assert_eq!(validate_mansion_order::<()>(1).ok(), Some(1));
    assert_eq!(validate_mansion_order::<()>(28).ok(), Some(28));
    for bad in [0, 29, -3, i32::MIN, i32::MAX] {
        match validate_mansion_order::<()>(bad) {
            Ok(_) => panic!("accepted {}", bad),
            Err(rep) => {
                assert_eq!(rep.status, HttpStatus::BadRequest);
                assert_eq!(rep.body.message, MANSION_ORDER_RANGE);
                assert_eq!(rep.body.message, "mansion_order must be 1..=28");
            }
        }
    }
}

#[test]
fn mansion_index_clamps_to_the_table() {
    assert_eq!(MANSION_COUNT, 28);
    assert_eq!(mansion_index(0), 0);
    assert_eq!(mansion_index(1), 0);
    assert_eq!(mansion_index(15), 14);
    assert_eq!(mansion_index(28), 27);
    assert_eq!(mansion_index(29), 27);
    assert_eq!(mansion_index(usize::MAX), 27);
}

#[test]
fn validated_order_selects_its_own_row() {
    for order in 1..=28 {
        let n = validate_mansion_order::<()>(order).ok().unwrap();
        assert_eq!(mansion_index(n), order as usize - 1);
    }
}

#[test]
fn trajectory_has_at_least_two_points() {
    assert_eq!(trajectory_point_count(0), 2);
    assert_eq!(trajectory_point_count(1), 2);
    assert_eq!(trajectory_point_count(2), 2);
    assert_eq!(trajectory_point_count(50), 50);
}

#[test]
fn default_breakdown_is_empty() {
    let b = ScoreBreakdown::default();
    assert_eq!(b.spatial_match, "");
    assert_eq!(b.temporal_match, "");
    assert_eq!(b.magnitude_match, "");
    assert_eq!(b.overall_confidence, "");
}

#[test]
fn plain_models_hold_their_fields() {
    let d = DynastyInfo { id: 3, name: "唐".to_string(), year: 618 };
    let c = d.clone();
    assert_eq!((c.id, c.name.as_str(), c.year), (3, "唐", 618));
    let m = MatchRequest { guest_id: Some(2), include_snr: None, top_k: Some(10) };
    assert_eq!(m.clone().top_k, Some(10));
}
