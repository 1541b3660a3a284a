use ancient_star_catalog::decimal::append_decimal;
use ancient_star_catalog::star_query::{
    build_star_query, q, StarFilterSet, StarParam, STAR_BASE_SQL,
};

fn none() -> StarFilterSet {
    StarFilterSet {
        dynasty_id: false,
        dynasty_name: false,
        mansion_id: false,
        constellation: false,
        star_name: false,
        mag_min: false,
        mag_max: false,
        ra_min: false,
        ra_max: false,
        dec_min: false,
        dec_max: false,
        quality_min: false,
        source_book: false,
        limit: false,
        offset: false,
    }
}

fn decimal(n: u32) -> String {
    let mut s = String::from("#");
    append_decimal(&mut s, n);
    s
}

#[test]
fn decimal_rendering() {
    assert_eq!(decimal(0), "#0");
    assert_eq!(decimal(7), "#7");
    assert_eq!(decimal(10), "#10");
    assert_eq!(decimal(15), "#15");
    assert_eq!(decimal(1054), "#1054");
    assert_eq!(decimal(u32::MAX), "#4294967295");
}

#[test]
fn q_copies_the_text() {
    assert_eq!(q("SELECT 1"), "SELECT 1");
}

#[test]
fn search_without_filters() {
    let r = build_star_query(&none());
    assert!(STAR_BASE_SQL.ends_with("WHERE 1=1"));
    assert_eq!(r.count_sql, format!("SELECT COUNT(*) FROM ({}) q", STAR_BASE_SQL));
    assert_eq!(r.select_sql, format!("{} ORDER BY s.magnitude_num NULLS LAST, s.id", STAR_BASE_SQL));
    assert!(r.count_params.is_empty());
    assert!(r.select_params.is_empty());
}

#[test]
fn search_with_some_filters_numbers_placeholders_in_order() {
    let mut f = none();
    f.dynasty_id = true;
    f.star_name = true;
    f.mag_max = true;
    f.limit = true;
    let r = build_star_query(&f);
    let filtered = format!(
        "{} AND s.dynasty_id = $1 AND (s.star_name_cn ILIKE $2 OR s.star_name_alt ILIKE $2) AND s.magnitude_num <= $3",
        STAR_BASE_SQL
    );
    assert_eq!(r.count_sql, format!("SELECT COUNT(*) FROM ({}) q", filtered));
    assert_eq!(
        r.select_sql,
        format!("{} ORDER BY s.magnitude_num NULLS LAST, s.id LIMIT $4", filtered)
    );
    assert_eq!(r.count_params, vec![StarParam::DynastyId, StarParam::StarName, StarParam::MagMax]);
    assert_eq!(
        r.select_params,
        vec![StarParam::DynastyId, StarParam::StarName, StarParam::MagMax, StarParam::Limit]
    );
}

#[test]
fn search_with_offset_only() {
    let mut f = none();
    f.offset = true;
    let r = build_star_query(&f);
    assert!(r.select_sql.ends_with(" ORDER BY s.magnitude_num NULLS LAST, s.id OFFSET $1"));
    assert_eq!(r.select_params, vec![StarParam::Offset]);
    assert!(r.count_params.is_empty());
}

#[test]
fn search_with_every_field_binds_each_once() {
    let f = StarFilterSet {
        dynasty_id: true,
        dynasty_name: true,
        mansion_id: true,
        constellation: true,
        star_name: true,
        mag_min: true,
        mag_max: true,
        ra_min: true,
        ra_max: true,
        dec_min: true,
        dec_max: true,
        quality_min: true,
        source_book: true,
        limit: true,
        offset: true,
    };
    let r = build_star_query(&f);
    assert_eq!(r.select_params.len(), 15);
    assert_eq!(r.count_params.len(), 13);
    assert_eq!(&r.select_params[..13], &r.count_params[..]);
    for (i, p) in r.select_params.iter().enumerate() {
        assert!(!r.select_params[i + 1..].contains(p));
    }
    assert!(r.select_sql.contains(" AND s.dynasty_id = $1 AND d.name_cn ILIKE $2 AND s.mansion_id = $3"));
    assert!(r.select_sql.contains(" AND s.constellation ILIKE $4"));
    assert!(r.select_sql.contains(" AND s.quality_flag >= $12 AND s.source_book ILIKE $13"));
    assert!(r.select_sql.ends_with(" ORDER BY s.magnitude_num NULLS LAST, s.id LIMIT $14 OFFSET $15"));
    assert!(!r.count_sql.contains("LIMIT"));
}
