use pago_backend::scoring::client::{
    get_project_size_weight, group_by_size, group_by_text, recent_review_flags, sort_newest_first,
};
use pago_backend::scoring::review_scoring::{culture_field, score_field, scored_fields, scoring_schema, FieldRule, ScoringSchema};
use pago_backend::reviews::client::get_manager_schema_id;

fn texts(v: &[&str]) -> Vec<String> {
    v.iter().map(|s| s.to_string()).collect()
}

#[test]
fn project_size_weights() {
    assert_eq!(get_project_size_weight(1), 20);
    assert_eq!(get_project_size_weight(2), 10);
    assert_eq!(get_project_size_weight(3), 5);
    assert_eq!(get_project_size_weight(4), 1);
    assert_eq!(get_project_size_weight(0), 0);
    assert_eq!(get_project_size_weight(5), 0);
    assert_eq!(get_project_size_weight(-1), 0);
}

#[test]
fn scoring_schemas_by_id() {
    assert_eq!(scoring_schema("endproj"), Some(ScoringSchema::Endproj));
    assert_eq!(scoring_schema("endproj_manager"), Some(ScoringSchema::EndprojManager));
    assert_eq!(scoring_schema("midproj"), Some(ScoringSchema::Midproj));
    assert_eq!(scoring_schema("ongoing"), Some(ScoringSchema::Ongoing));
    assert_eq!(scoring_schema("ongoing_manager"), Some(ScoringSchema::OngoingManager));
    assert_eq!(scoring_schema("midproj_manager"), None);
    assert_eq!(scoring_schema("Unknown"), None);
}

#[test]
fn end_of_project_rules() {
    assert_eq!(score_field("endproj", "hadDeadline"), FieldRule::EndprojHadDeadline);
    assert_eq!(score_field("endproj", "matchProjectNeedScore"), FieldRule::EndprojMatchProjectNeed);
    assert_eq!(score_field("endproj", "clearExpectationsScore"), FieldRule::EndprojClearExpectations);
    assert_eq!(score_field("endproj", "errorsScore"), FieldRule::EndprojErrors);
    assert_eq!(score_field("endproj", "managerInvolvementScore"), FieldRule::EndprojManagerInvolvement);
    assert_eq!(score_field("endproj", "exceptionalJob"), FieldRule::ExceptionalJob);
    assert_eq!(score_field("endproj", "badJob"), FieldRule::BadJob);
    assert_eq!(score_field("endproj", "workFriendsScore"), FieldRule::Zero);
}

#[test]
fn manager_end_of_project_rules() {
    assert_eq!(score_field("endproj_manager", "workFriendsScore"), FieldRule::CultureScore);
    assert_eq!(score_field("endproj_manager", "impressedScore"), FieldRule::CultureScore);
    assert_eq!(score_field("endproj_manager", "hadDeadline"), FieldRule::ManagerHadDeadline);
    assert_eq!(score_field("endproj_manager", "matchProjectNeedScore"), FieldRule::ManagerMatchProjectNeed);
    assert_eq!(score_field("endproj_manager", "clearExpectationsScore"), FieldRule::ManagerClearExpectations);
    assert_eq!(score_field("endproj_manager", "errorsScore"), FieldRule::ManagerErrors);
    assert_eq!(score_field("endproj_manager", "managerInvolvementScore"), FieldRule::ManagerInvolvement);
    assert_eq!(score_field("endproj_manager", "managerInvolvementNeedScore"), FieldRule::ManagerInvolvementNeed);
    assert_eq!(score_field("endproj_manager", "managerExcessiveScore"), FieldRule::ManagerExcessive);
    assert_eq!(score_field("endproj_manager", "exceptionalJob"), FieldRule::Zero);
}

#[test]
fn mid_project_and_ongoing_rules() {
    assert_eq!(score_field("midproj", "helpfulScore"), FieldRule::MidHelpful);
    assert_eq!(score_field("midproj", "clearExpectationsScore"), FieldRule::MidClearExpectations);
    assert_eq!(score_field("midproj", "managerInvolvementScore"), FieldRule::MidManagerInvolvement);
    assert_eq!(score_field("midproj", "exceptionalJob"), FieldRule::ExceptionalJob);
    assert_eq!(score_field("midproj", "badJob"), FieldRule::BadJob);
    assert_eq!(score_field("midproj", "errorsScore"), FieldRule::Zero);
    for schema in ["ongoing", "ongoing_manager"] {
        assert_eq!(score_field(schema, "performedResponsibilitiesScore"), FieldRule::OngoingPerformedResponsibilities);
        assert_eq!(score_field(schema, "clearExpectationsScore"), FieldRule::OngoingClearExpectations);
        assert_eq!(score_field(schema, "errorsScore"), FieldRule::OngoingErrors);
        assert_eq!(score_field(schema, "managerInvolvementScore"), FieldRule::OngoingManagerInvolvement);
        assert_eq!(score_field(schema, "managerInvolvementNeedScore"), FieldRule::OngoingManagerInvolvementNeed);
        assert_eq!(score_field(schema, "hadDeadline"), FieldRule::Zero);
    }
}

#[test]
fn unknown_schemas_score_zero() {
    assert_eq!(score_field("midproj_manager", "helpfulScore"), FieldRule::Zero);
    assert_eq!(score_field("Unknown", "errorsScore"), FieldRule::Zero);
}

#[test]
fn manager_schemas_have_manager_rules() {
    assert_eq!(scoring_schema(&get_manager_schema_id("endproj")), Some(ScoringSchema::EndprojManager));
    assert_eq!(scoring_schema(&get_manager_schema_id("ongoing")), Some(ScoringSchema::OngoingManager));
    assert_eq!(scoring_schema(&get_manager_schema_id("midproj")), None);
}

#[test]
fn culture_questions() {
    assert!(culture_field("managerSucceedScore"));
    assert!(culture_field("leaveCompanyScore"));
    assert!(!culture_field("errorsScore"));
    assert!(!culture_field("managersucceedscore"));
}

#[test]
fn scored_fields_of_a_review_pair() {
    let e = texts(&["hadDeadline", "errorsScore"]);
    let m = texts(&["errorsScore", "onSchedule", "hadDeadline", "exceptionalJob"]);
    assert_eq!(scored_fields(&e, &m), texts(&["hadDeadline", "errorsScore", "onSchedule", "exceptionalJob"]));
    assert_eq!(scored_fields(&vec![], &m), m);
    assert_eq!(scored_fields(&e, &vec![]), e);
}

#[test]
fn scored_fields_once_each() {
    let e = texts(&["a", "b", "c"]);
    let m = texts(&["c", "d", "a", "e"]);
    let r = scored_fields(&e, &m);
    let mut sorted = r.clone();
    sorted.sort();
    sorted.dedup();
    assert_eq!(sorted.len(), r.len());
    assert_eq!(sorted, texts(&["a", "b", "c", "d", "e"]));
}

#[test]
fn grouping_by_text_first_appearance() {
    let keys = texts(&["bob", "amy", "bob", "cy", "amy"]);
    let g = group_by_text(&keys, &vec![true, true, true, true, true]);
    assert_eq!(g.keys, texts(&["bob", "amy", "cy"]));
    assert_eq!(g.members, vec![vec![0, 2], vec![1, 4], vec![3]]);
}

#[test]
fn grouping_skips_unselected() {
    let keys = texts(&["bob", "amy", "bob", "cy"]);
    let g = group_by_text(&keys, &vec![false, true, true, false]);
    assert_eq!(g.keys, texts(&["amy", "bob"]));
    assert_eq!(g.members, vec![vec![1], vec![2]]);
    let none = group_by_text(&keys, &vec![false, false, false, false]);
    assert!(none.keys.is_empty() && none.members.is_empty());
}

#[test]
fn grouping_by_size() {
    let g = group_by_size(&vec![3, 1, 3, 3, 2, 1]);
    assert_eq!(g.keys, vec![3, 1, 2]);
    assert_eq!(g.members, vec![vec![0, 2, 3], vec![1, 5], vec![4]]);
    let empty = group_by_size(&vec![]);
    assert!(empty.keys.is_empty());
}

#[test]
fn newest_first_is_stable() {
    assert_eq!(sort_newest_first(&vec![10, 30, 20, 30, 10]), vec![1, 3, 2, 0, 4]);
    assert_eq!(sort_newest_first(&vec![]), Vec::<usize>::new());
    assert_eq!(sort_newest_first(&vec![5, 5, 5]), vec![0, 1, 2]);
    assert_eq!(sort_newest_first(&vec![i64::MIN, i64::MAX]), vec![1, 0]);
}

#[test]
fn recent_reviews_at_most_five() {
    let days = vec![1, 2, 400, 3, 4, 5, 6, 7];
    let scored = vec![true, true, true, false, true, true, true, true];
    assert_eq!(
        recent_review_flags(&days, &scored),
        vec![true, true, false, false, true, true, true, false]
    );
    assert_eq!(recent_review_flags(&vec![364, 365], &vec![true, true]), vec![true, false]);
    assert!(recent_review_flags(&vec![], &vec![]).is_empty());
}
