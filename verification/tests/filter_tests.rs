use mongo_repo::filter::{Cond, Filter, FilterDoc, Like};

#[test]
fn new_filter_renders_the_match_everything_expression() {
    let f = Filter::new();
    let q = f.to_doc();
    assert_eq!(q.conds.len(), 0);
}

#[test]
fn eq_predicate_renders_an_equality_condition() {
    let p = mongo_repo::filter::Eq::new("who", "alice");
    let c = p.to_doc();
    assert!(matches!(c, Cond::Eq { ref key, ref value } if key == "who" && value == "alice"));
}

#[test]
fn like_predicate_renders_a_containment_condition() {
    let p = Like::new("title", "intro");
    let c = p.to_doc();
    assert!(matches!(c, Cond::Like { ref key, ref value } if key == "title" && value == "intro"));
}

#[test]
fn push_appends_conditions_in_order() {
    let mut f = Filter::new();
    let n1 = f.push(mongo_repo::filter::Eq::new("who", "alice"));
    let n2 = f.push(Like::new("title", "intro"));
    assert_eq!(n1, 1);
    assert_eq!(n2, 2);
    let q = f.to_doc();
    assert_eq!(q.conds.len(), 2);
    assert!(matches!(q.conds[0], Cond::Eq { ref key, ref value } if key == "who" && value == "alice"));
    assert!(matches!(q.conds[1], Cond::Like { ref key, ref value } if key == "title" && value == "intro"));
}

#[test]
fn to_doc_leaves_the_filter_reusable() {
    let mut f = Filter::new();
    f.push(mongo_repo::filter::Eq::new("who", "bob"));
    let q1 = f.to_doc();
    let q2 = f.to_doc();
    assert_eq!(q1.conds.len(), 1);
    assert_eq!(q2.conds.len(), 1);
}
