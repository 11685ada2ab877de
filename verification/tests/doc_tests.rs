use mongo_repo::doc::{Doc, Mode, Rec, SaveAction, SortSpec, FindOpts, PAGE_SIZE};
use mongo_repo::error::ErrorKind;
use mongo_repo::filter::{Cond, Filter};

const IDENT: &str = "UserProfile";

#[test]
fn create_sets_payload_timestamps_and_mode() {
    let d = Doc::create("hello".to_string(), IDENT, 1_000);
    assert_eq!(d.data, "hello");
    assert_eq!(d.created_at, 1_000);
    assert_eq!(d.updated_at, 1_000);
    assert_eq!(d.mode, Mode::Create);
    assert!(!d.is_committed());
    assert_eq!(d.collection_name(), "user_profiles");
}

#[test]
fn first_save_inserts_then_commits_without_touching_timestamps() {
    let mut d = Doc::create(7u64, IDENT, 50);
    assert_eq!(d.save(60), SaveAction::InsertNew);
    d.save_committed(60);
    assert!(d.is_committed());
    assert_eq!(d.created_at, 50);
    assert_eq!(d.updated_at, 50);
}

#[test]
fn second_save_updates_only_data_and_updated_at() {
    let mut d = Doc::create("v1".to_string(), IDENT, 100);
    let id_before = d._id.bytes();
    d.save_committed(100);
    d.data = "v2".to_string();
    assert_eq!(d.save(250), SaveAction::UpdateData { updated_at: 250 });
    d.save_committed(250);
    assert_eq!(d._id.bytes(), id_before);
    assert_eq!(d.created_at, 100);
    assert_eq!(d.updated_at, 250);
    assert!(d.updated_at >= 100);
    assert_eq!(d.data, "v2");
}

#[test]
fn load_rejects_malformed_identifier_as_invalid_input_never_not_found() {
    let e = Doc::<String>::load("not-a-hex-id", IDENT).unwrap_err();
    assert_eq!(e.kind, ErrorKind::InvalidInput);
    let e = Doc::<String>::load("", IDENT).unwrap_err();
    assert_eq!(e.kind, ErrorKind::InvalidInput);
}

#[test]
fn load_builds_an_identifier_query_on_the_resolved_collection() {
    let req = Doc::<String>::load("00112233445566778899aabb", IDENT).unwrap();
    assert_eq!(req.collection, "user_profiles");
    assert_eq!(req.query.conds.len(), 1);
    assert!(matches!(
        req.query.conds[0],
        Cond::IdEq { id } if id.bytes()
            == [0x00, 0x11, 0x22, 0x33, 0x44, 0x55, 0x66, 0x77, 0x88, 0x99, 0xaa, 0xbb]
    ));
}

#[test]
fn loaded_with_no_match_fails_as_not_found() {
    let r: Result<Doc<String>, _> = Doc::loaded(None, IDENT);
    let e = r.unwrap_err();
    assert_eq!(e.kind, ErrorKind::NotFound);
}

#[test]
fn create_save_load_round_trip_returns_the_same_payload() {
    let payload = "round trip".to_string();
    let d = Doc::create(payload.clone(), IDENT, 77);
    // What save() inserts is the envelope's record; what a later load finds
    // is that record.
    let stored = Rec { _id: d._id, created_at: d.created_at, updated_at: d.updated_at, data: d.data.clone() };
    let loaded = Doc::loaded(Some(stored), IDENT).unwrap();
    assert_eq!(loaded.data, payload);
    assert_eq!(loaded.created_at, loaded.updated_at);
    assert!(loaded.is_committed());
    assert_eq!(loaded.collection_name(), d.collection_name());
    assert_eq!(loaded._id.bytes(), d._id.bytes());
}

#[test]
fn frist_asks_for_the_first_document_with_no_conditions() {
    let req = Doc::<u64>::frist(IDENT);
    assert_eq!(req.collection, "user_profiles");
    assert_eq!(req.query.conds.len(), 0);
}

#[test]
fn find_one_passes_the_filter_through() {
    let mut f = Filter::new();
    f.push(mongo_repo::filter::Eq::new("who", "alice"));
    let req = Doc::<u64>::find_one(f.to_doc(), IDENT);
    assert_eq!(req.collection, "user_profiles");
    assert_eq!(req.query.conds.len(), 1);
    assert!(matches!(req.query.conds[0], Cond::Eq { ref key, ref value } if key == "who" && value == "alice"));
}

#[test]
fn list_page_zero_is_invalid_input() {
    let e = Doc::<u64>::list(0, Filter::new().to_doc(), IDENT).unwrap_err();
    assert_eq!(e.kind, ErrorKind::InvalidInput);
}

#[test]
fn list_page_one_skips_nothing_and_takes_twenty_most_recent_first() {
    let req = Doc::<u64>::list(1, Filter::new().to_doc(), IDENT).unwrap();
    assert_eq!(req.opts.skip, Some(0));
    assert_eq!(req.opts.limit, Some(20));
    assert!(matches!(req.opts.sort, Some(SortSpec::CreatedAtDesc)));
}

#[test]
fn list_page_two_skips_exactly_one_page() {
    let req = Doc::<u64>::list(2, Filter::new().to_doc(), IDENT).unwrap();
    assert_eq!(req.opts.skip, Some(PAGE_SIZE));
    assert_eq!(req.opts.limit, Some(20));
}

#[test]
fn list_page_beyond_the_machine_word_is_invalid_input() {
    let e = Doc::<u64>::list(u64::MAX, Filter::new().to_doc(), IDENT).unwrap_err();
    assert_eq!(e.kind, ErrorKind::InvalidInput);
}

#[test]
fn find_many_defaults_to_most_recent_first() {
    let req = Doc::<u64>::find_many(Filter::new().to_doc(), None, IDENT);
    assert_eq!(req.opts.skip, None);
    assert_eq!(req.opts.limit, None);
    assert!(matches!(req.opts.sort, Some(SortSpec::CreatedAtDesc)));
}

#[test]
fn find_many_keeps_caller_supplied_options() {
    let opts = FindOpts {
        skip: Some(5),
        limit: Some(3),
        sort: Some(SortSpec::ByField { field: "who".to_string(), ascending: true }),
    };
    let req = Doc::<u64>::find_many(Filter::new().to_doc(), Some(opts), IDENT);
    assert_eq!(req.opts.skip, Some(5));
    assert_eq!(req.opts.limit, Some(3));
    assert!(matches!(
        req.opts.sort,
        Some(SortSpec::ByField { ref field, ascending }) if field == "who" && ascending
    ));
}

#[test]
fn count_addresses_the_resolved_collection() {
    let req = Doc::<u64>::count(Filter::new().to_doc(), IDENT);
    assert_eq!(req.collection, "user_profiles");
    assert_eq!(req.query.conds.len(), 0);
}

#[test]
fn insert_many_of_nothing_is_a_no_op() {
    let r = Doc::<u64>::insert_many(Vec::new(), IDENT, 10);
    assert!(r.is_none());
}

#[test]
fn insert_many_builds_one_record_per_payload_in_order() {
    let req = Doc::insert_many(vec![10u64, 20, 30], IDENT, 99).unwrap();
    assert_eq!(req.collection, "user_profiles");
    assert_eq!(req.records.len(), 3);
    for (i, expected) in [10u64, 20, 30].iter().enumerate() {
        assert_eq!(req.records[i].data, *expected);
        assert_eq!(req.records[i].created_at, 99);
        assert_eq!(req.records[i].updated_at, 99);
    }
    // Fresh identifiers are assigned client-side and differ pairwise.
    assert_ne!(req.records[0]._id.bytes(), req.records[1]._id.bytes());
    assert_ne!(req.records[1]._id.bytes(), req.records[2]._id.bytes());
}

#[test]
fn delete_targets_this_document_by_identifier() {
    let d = Doc::create(1u8, IDENT, 5);
    let req = d.delete();
    assert_eq!(req.collection, "user_profiles");
    assert_eq!(req.query.conds.len(), 1);
    assert!(matches!(req.query.conds[0], Cond::IdEq { id } if id.bytes() == d._id.bytes()));
}

#[test]
fn delete_many_passes_the_filter_through() {
    let mut f = Filter::new();
    f.push(mongo_repo::filter::Like::new("who", "ali"));
    let req = Doc::<u8>::delete_many(f.to_doc(), IDENT);
    assert_eq!(req.collection, "user_profiles");
    assert_eq!(req.query.conds.len(), 1);
}

#[test]
fn delete_all_matches_the_named_field_by_containment() {
    let req = Doc::<u8>::delete_all("who", "alice", IDENT);
    assert_eq!(req.collection, "user_profiles");
    assert_eq!(req.query.conds.len(), 1);
    assert!(matches!(req.query.conds[0], Cond::Like { ref key, ref value } if key == "who" && value == "alice"));
}

#[test]
fn aggregate_passes_the_pipeline_through_untouched() {
    let mut stage = mongodb::bson::Document::new();
    stage.insert("$match", mongodb::bson::Document::new());
    let pipeline = vec![stage.clone()];
    let req = Doc::<u8>::aggregate(pipeline, None, IDENT);
    assert_eq!(req.collection, "user_profiles");
    assert_eq!(req.pipeline.len(), 1);
    assert_eq!(req.pipeline[0], stage);
    assert!(req.options.is_none());
}
