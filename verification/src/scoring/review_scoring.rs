//! Which scoring rule applies to each answered field of a pair of reviews
//! (an employee's review and their manager's), by review schema.

use vstd::prelude::*;
use crate::reviews::client::manager_schema;
use crate::text::str_eq;

verus! {

/// The review schemas that have scoring rules.
#[derive(Debug, Clone, Copy, PartialEq, Eq, Structural)]
pub enum ScoringSchema {
    Endproj,
    EndprojManager,
    Midproj,
    Ongoing,
    OngoingManager,
}

/// The scoring schema a schema id names, if any.
pub open spec fn schema_named(schema_id: Seq<char>) -> Option<ScoringSchema> {
    if schema_id == "endproj"@ {
        Some(ScoringSchema::Endproj)
    } else if schema_id == "endproj_manager"@ {
        Some(ScoringSchema::EndprojManager)
    } else if schema_id == "midproj"@ {
        Some(ScoringSchema::Midproj)
    } else if schema_id == "ongoing"@ {
        Some(ScoringSchema::Ongoing)
    } else if schema_id == "ongoing_manager"@ {
        Some(ScoringSchema::OngoingManager)
    } else {
        None
    }
}

/// The scoring schema a schema id names; `None` for ids without scoring rules,
/// whose fields all score zero.
pub fn scoring_schema(schema_id: &str) -> (s: Option<ScoringSchema>)
    ensures
        s == schema_named(schema_id@),
{
    if str_eq(schema_id, "endproj") {
        Some(ScoringSchema::Endproj)
    } else if str_eq(schema_id, "endproj_manager") {
        Some(ScoringSchema::EndprojManager)
    } else if str_eq(schema_id, "midproj") {
        Some(ScoringSchema::Midproj)
    } else if str_eq(schema_id, "ongoing") {
        Some(ScoringSchema::Ongoing)
    } else if str_eq(schema_id, "ongoing_manager") {
        Some(ScoringSchema::OngoingManager)
    } else {
        None
    }
}

/// The scoring rule of a field. Each names one formula over the employee's
/// responses `er` and the manager's responses `mr` (a missing or non-numeric
/// number reads as 0, a missing or non-boolean flag as false).
#[derive(Debug, Clone, Copy, PartialEq, Eq, Structural)]
pub enum FieldRule {
    /// 0.
    Zero,
    /// 1 if `er.hadDeadline`, else 0.
    EndprojHadDeadline,
    /// `(er.matchProjectNeedScore - 5) / 3 + ((mr.matchProjectNeedScore - 5) / 1.5) / 2`.
    EndprojMatchProjectNeed,
    /// `er.clearExpectationsScore / 20`.
    EndprojClearExpectations,
    /// `(er.errorsScore - 5) / 5 + ((mr.errorsScore - 5) / 2.5) / 4`.
    EndprojErrors,
    /// `(er.managerInvolvementScore - 5) / 5 + ((mr.selfInvolvementScore - 5) / 2.5) / 4`.
    EndprojManagerInvolvement,
    /// 1 if `mr.exceptionalJob` or `mr.matchProjectNeedScore > 7`, else 0.
    ExceptionalJob,
    /// -1 if `mr.badJob` or `mr.matchProjectNeedScore < 4`, else 0.
    BadJob,
    /// `(er.<field> - 5) / 5`, for the culture questions.
    CultureScore,
    /// 0 without `er.hadDeadline`; else 0.15 + 0.5 if `mr.onSchedule`, 0.15 - 0.25 if not.
    ManagerHadDeadline,
    /// `(mr.matchProjectNeedScore - er.matchProjectNeedScore) / 20`.
    ManagerMatchProjectNeed,
    /// `(er.clearExpectationsScore - 5) / 2 + (mr.clearExpectationsScore - 5) / 12`.
    ManagerClearExpectations,
    /// `(mr.errorsScore - er.errorsScore) / 20`.
    ManagerErrors,
    /// `-((er.managerInvolvementScore - 5) / 20) + (mr.selfInvolvementScore - 5) / 50`.
    ManagerInvolvement,
    /// `(er.managerInvolvementScore - er.managerInvolvementNeedScore) / 12
    /// + (mr.selfInvolvementScore - mr.selfInvolvementNeedScore) / 12`.
    ManagerInvolvementNeed,
    /// `-(er.managerExcessiveScore - 5) / 5`.
    ManagerExcessive,
    /// `er.helpfulScore / 4 + mr.managerEmployeeWorkHelpfulScore / 2`.
    MidHelpful,
    /// `er.clearExpectationsScore / 16 + mr.managerExpectationsClearScore / 8`.
    MidClearExpectations,
    /// `er.managerInvolvementScore / 32 + ((mr.selfInvolvementScore - 5) / 2.5) / 4`.
    MidManagerInvolvement,
    /// `er.performedResponsibilitiesScore / 4 + mr.performedResponsibilitiesScore / 2`.
    OngoingPerformedResponsibilities,
    /// `er.clearExpectationsScore / 16 + mr.managerExpectationsClearScore / 16`.
    OngoingClearExpectations,
    /// `er.errorsScore / 32 + mr.errorsScore / 32`.
    OngoingErrors,
    /// `er.managerInvolvementScore / 64 + mr.managerInvolvementScore / 64`.
    OngoingManagerInvolvement,
    /// `er.managerInvolvementNeedScore / 64 + mr.managerInvolvementNeedScore / 64`.
    OngoingManagerInvolvementNeed,
}

/// Whose answers a scoring rule reads.
#[derive(Debug, Clone, Copy, PartialEq, Eq, Structural)]
pub enum Respondent {
    Employee,
    Manager,
}

/// The answers a rule reads when scoring `field`: whose answer, its key, and
/// how the score moves as the answer grows (a number) or holds (a flag):
/// 1 up or not down, -1 down or not up, 0 either way.
pub open spec fn rule_answers(rule: FieldRule, field: Seq<char>) -> Seq<(Respondent, Seq<char>, int)> {
    match rule {
        FieldRule::Zero => Seq::empty(),
        FieldRule::EndprojHadDeadline => seq![(Respondent::Employee, "hadDeadline"@, 1int)],
        FieldRule::EndprojMatchProjectNeed => seq![(Respondent::Employee, "matchProjectNeedScore"@, 1int), (Respondent::Manager, "matchProjectNeedScore"@, 1int)],
        FieldRule::EndprojClearExpectations => seq![(Respondent::Employee, "clearExpectationsScore"@, 1int)],
        FieldRule::EndprojErrors => seq![(Respondent::Employee, "errorsScore"@, 1int), (Respondent::Manager, "errorsScore"@, 1int)],
        FieldRule::EndprojManagerInvolvement => seq![(Respondent::Employee, "managerInvolvementScore"@, 1int), (Respondent::Manager, "selfInvolvementScore"@, 1int)],
        FieldRule::ExceptionalJob => seq![(Respondent::Manager, "exceptionalJob"@, 1int), (Respondent::Manager, "matchProjectNeedScore"@, 1int)],
        FieldRule::BadJob => seq![(Respondent::Manager, "badJob"@, -1int), (Respondent::Manager, "matchProjectNeedScore"@, 1int)],
        FieldRule::CultureScore => seq![(Respondent::Employee, field, 1int)],
        FieldRule::ManagerHadDeadline => seq![(Respondent::Employee, "hadDeadline"@, 0int), (Respondent::Manager, "onSchedule"@, 1int)],
        FieldRule::ManagerMatchProjectNeed => seq![(Respondent::Manager, "matchProjectNeedScore"@, 1int), (Respondent::Employee, "matchProjectNeedScore"@, -1int)],
        FieldRule::ManagerClearExpectations => seq![(Respondent::Employee, "clearExpectationsScore"@, 1int), (Respondent::Manager, "clearExpectationsScore"@, 1int)],
        FieldRule::ManagerErrors => seq![(Respondent::Manager, "errorsScore"@, 1int), (Respondent::Employee, "errorsScore"@, -1int)],
        FieldRule::ManagerInvolvement => seq![(Respondent::Employee, "managerInvolvementScore"@, -1int), (Respondent::Manager, "selfInvolvementScore"@, 1int)],
        FieldRule::ManagerInvolvementNeed => seq![(Respondent::Employee, "managerInvolvementScore"@, 1int), (Respondent::Employee, "managerInvolvementNeedScore"@, -1int), (Respondent::Manager, "selfInvolvementScore"@, 1int), (Respondent::Manager, "selfInvolvementNeedScore"@, -1int)],
        FieldRule::ManagerExcessive => seq![(Respondent::Employee, "managerExcessiveScore"@, -1int)],
        FieldRule::MidHelpful => seq![(Respondent::Employee, "helpfulScore"@, 1int), (Respondent::Manager, "managerEmployeeWorkHelpfulScore"@, 1int)],
        FieldRule::MidClearExpectations => seq![(Respondent::Employee, "clearExpectationsScore"@, 1int), (Respondent::Manager, "managerExpectationsClearScore"@, 1int)],
        FieldRule::MidManagerInvolvement => seq![(Respondent::Employee, "managerInvolvementScore"@, 1int), (Respondent::Manager, "selfInvolvementScore"@, 1int)],
        FieldRule::OngoingPerformedResponsibilities => seq![(Respondent::Employee, "performedResponsibilitiesScore"@, 1int), (Respondent::Manager, "performedResponsibilitiesScore"@, 1int)],
        FieldRule::OngoingClearExpectations => seq![(Respondent::Employee, "clearExpectationsScore"@, 1int), (Respondent::Manager, "managerExpectationsClearScore"@, 1int)],
        FieldRule::OngoingErrors => seq![(Respondent::Employee, "errorsScore"@, 1int), (Respondent::Manager, "errorsScore"@, 1int)],
        FieldRule::OngoingManagerInvolvement => seq![(Respondent::Employee, "managerInvolvementScore"@, 1int), (Respondent::Manager, "managerInvolvementScore"@, 1int)],
        FieldRule::OngoingManagerInvolvementNeed => seq![(Respondent::Employee, "managerInvolvementNeedScore"@, 1int), (Respondent::Manager, "managerInvolvementNeedScore"@, 1int)],
    }
}

/// Whether a field is one of the culture questions of the manager's end-of-project review.
pub open spec fn is_culture_field(field: Seq<char>) -> bool {
    ||| field == "managerSucceedScore"@
    ||| field == "managerSamePageScore"@
    ||| field == "managerFairScore"@
    ||| field == "managerRelationshipScore"@
    ||| field == "managerLikeMeScore"@
    ||| field == "managerILikeScore"@
    ||| field == "workFriendsScore"@
    ||| field == "companyProgressingScore"@
    ||| field == "clearCompanyVisionScore"@
    ||| field == "criticismWelcomeScore"@
    ||| field == "companyTransparentScore"@
    ||| field == "companyCaresMeScore"@
    ||| field == "companyProudScore"@
    ||| field == "recommendFriendsScore"@
    ||| field == "leadershipTrustScore"@
    ||| field == "competitivePayScore"@
    ||| field == "benefitsGoodScore"@
    ||| field == "benefitsValuableScore"@
    ||| field == "hardWorkersScore"@
    ||| field == "smartCoworkersScore"@
    ||| field == "smartLeadersScore"@
    ||| field == "companyDidMoreScore"@
    ||| field == "stillCompanyOneYearScore"@
    ||| field == "stillCompanyTwoYearScore"@
    ||| field == "stillCompanyFiveYearScore"@
    ||| field == "promotedNewSkillsScore"@
    ||| field == "promotedPerformWellScore"@
    ||| field == "leaveTeamScore"@
    ||| field == "leaveCompanyScore"@
    ||| field == "financialIncentiveScore"@
    ||| field == "succeedTogetherScore"@
    ||| field == "likeWorkingScore"@
    ||| field == "workImportanceScore"@
    ||| field == "workUsefulScore"@
    ||| field == "impressedScore"@
}

/// Whether a field is one of the culture questions of the manager's end-of-project review.
pub fn culture_field(field: &str) -> (b: bool)
    ensures
        b == is_culture_field(field@),
{
    str_eq(field, "managerSucceedScore")
    || str_eq(field, "managerSamePageScore")
    || str_eq(field, "managerFairScore")
    || str_eq(field, "managerRelationshipScore")
    || str_eq(field, "managerLikeMeScore")
    || str_eq(field, "managerILikeScore")
    || str_eq(field, "workFriendsScore")
    || str_eq(field, "companyProgressingScore")
    || str_eq(field, "clearCompanyVisionScore")
    || str_eq(field, "criticismWelcomeScore")
    || str_eq(field, "companyTransparentScore")
    || str_eq(field, "companyCaresMeScore")
    || str_eq(field, "companyProudScore")
    || str_eq(field, "recommendFriendsScore")
    || str_eq(field, "leadershipTrustScore")
    || str_eq(field, "competitivePayScore")
    || str_eq(field, "benefitsGoodScore")
    || str_eq(field, "benefitsValuableScore")
    || str_eq(field, "hardWorkersScore")
    || str_eq(field, "smartCoworkersScore")
    || str_eq(field, "smartLeadersScore")
    || str_eq(field, "companyDidMoreScore")
    || str_eq(field, "stillCompanyOneYearScore")
    || str_eq(field, "stillCompanyTwoYearScore")
    || str_eq(field, "stillCompanyFiveYearScore")
    || str_eq(field, "promotedNewSkillsScore")
    || str_eq(field, "promotedPerformWellScore")
    || str_eq(field, "leaveTeamScore")
    || str_eq(field, "leaveCompanyScore")
    || str_eq(field, "financialIncentiveScore")
    || str_eq(field, "succeedTogetherScore")
    || str_eq(field, "likeWorkingScore")
    || str_eq(field, "workImportanceScore")
    || str_eq(field, "workUsefulScore")
    || str_eq(field, "impressedScore")
}

/// The rule for a field of an end-of-project review.
pub open spec fn endproj_rule(field: Seq<char>) -> FieldRule {
    if field == "hadDeadline"@ {
        FieldRule::EndprojHadDeadline
    } else if field == "matchProjectNeedScore"@ {
        FieldRule::EndprojMatchProjectNeed
    } else if field == "clearExpectationsScore"@ {
        FieldRule::EndprojClearExpectations
    } else if field == "errorsScore"@ {
        FieldRule::EndprojErrors
    } else if field == "managerInvolvementScore"@ {
        FieldRule::EndprojManagerInvolvement
    } else if field == "exceptionalJob"@ {
        FieldRule::ExceptionalJob
    } else if field == "badJob"@ {
        FieldRule::BadJob
    } else {
        FieldRule::Zero
    }
}

/// The rule for a field of a manager's end-of-project review.
pub open spec fn endproj_manager_rule(field: Seq<char>) -> FieldRule {
    if is_culture_field(field) {
        FieldRule::CultureScore
    } else if field == "hadDeadline"@ {
        FieldRule::ManagerHadDeadline
    } else if field == "matchProjectNeedScore"@ {
        FieldRule::ManagerMatchProjectNeed
    } else if field == "clearExpectationsScore"@ {
        FieldRule::ManagerClearExpectations
    } else if field == "errorsScore"@ {
        FieldRule::ManagerErrors
    } else if field == "managerInvolvementScore"@ {
        FieldRule::ManagerInvolvement
    } else if field == "managerInvolvementNeedScore"@ {
        FieldRule::ManagerInvolvementNeed
    } else if field == "managerExcessiveScore"@ {
        FieldRule::ManagerExcessive
    } else {
        FieldRule::Zero
    }
}

/// The rule for a field of a mid-project review.
pub open spec fn midproject_rule(field: Seq<char>) -> FieldRule {
    if field == "helpfulScore"@ {
        FieldRule::MidHelpful
    } else if field == "clearExpectationsScore"@ {
        FieldRule::MidClearExpectations
    } else if field == "managerInvolvementScore"@ {
        FieldRule::MidManagerInvolvement
    } else if field == "exceptionalJob"@ {
        FieldRule::ExceptionalJob
    } else if field == "badJob"@ {
        FieldRule::BadJob
    } else {
        FieldRule::Zero
    }
}

/// The rule for a field of an ongoing review (the employee's or the manager's).
pub open spec fn ongoing_rule(field: Seq<char>) -> FieldRule {
    if field == "performedResponsibilitiesScore"@ {
        FieldRule::OngoingPerformedResponsibilities
    } else if field == "clearExpectationsScore"@ {
        FieldRule::OngoingClearExpectations
    } else if field == "errorsScore"@ {
        FieldRule::OngoingErrors
    } else if field == "managerInvolvementScore"@ {
        FieldRule::OngoingManagerInvolvement
    } else if field == "managerInvolvementNeedScore"@ {
        FieldRule::OngoingManagerInvolvementNeed
    } else {
        FieldRule::Zero
    }
}

/// The rule that scores a field for a review of the given schema id.
pub open spec fn rule_for(schema_id: Seq<char>, field: Seq<char>) -> FieldRule {
    match schema_named(schema_id) {
        Some(ScoringSchema::Endproj) => endproj_rule(field),
        Some(ScoringSchema::EndprojManager) => endproj_manager_rule(field),
        Some(ScoringSchema::Midproj) => midproject_rule(field),
        Some(ScoringSchema::Ongoing) => ongoing_rule(field),
        Some(ScoringSchema::OngoingManager) => ongoing_rule(field),
        None => FieldRule::Zero,
    }
}

fn endproj_field_rule(field: &str) -> (r: FieldRule)
    ensures
        r == endproj_rule(field@),
{
    if str_eq(field, "hadDeadline") {
        FieldRule::EndprojHadDeadline
    } else if str_eq(field, "matchProjectNeedScore") {
        FieldRule::EndprojMatchProjectNeed
    } else if str_eq(field, "clearExpectationsScore") {
        FieldRule::EndprojClearExpectations
    } else if str_eq(field, "errorsScore") {
        FieldRule::EndprojErrors
    } else if str_eq(field, "managerInvolvementScore") {
        FieldRule::EndprojManagerInvolvement
    } else if str_eq(field, "exceptionalJob") {
        FieldRule::ExceptionalJob
    } else if str_eq(field, "badJob") {
        FieldRule::BadJob
    } else {
        FieldRule::Zero
    }
}

fn endproj_manager_field_rule(field: &str) -> (r: FieldRule)
    ensures
        r == endproj_manager_rule(field@),
{
    if culture_field(field) {
        FieldRule::CultureScore
    } else if str_eq(field, "hadDeadline") {
        FieldRule::ManagerHadDeadline
    } else if str_eq(field, "matchProjectNeedScore") {
        FieldRule::ManagerMatchProjectNeed
    } else if str_eq(field, "clearExpectationsScore") {
        FieldRule::ManagerClearExpectations
    } else if str_eq(field, "errorsScore") {
        FieldRule::ManagerErrors
    } else if str_eq(field, "managerInvolvementScore") {
        FieldRule::ManagerInvolvement
    } else if str_eq(field, "managerInvolvementNeedScore") {
        FieldRule::ManagerInvolvementNeed
    } else if str_eq(field, "managerExcessiveScore") {
        FieldRule::ManagerExcessive
    } else {
        FieldRule::Zero
    }
}

fn midproject_field_rule(field: &str) -> (r: FieldRule)
    ensures
        r == midproject_rule(field@),
{
    if str_eq(field, "helpfulScore") {
        FieldRule::MidHelpful
    } else if str_eq(field, "clearExpectationsScore") {
        FieldRule::MidClearExpectations
    } else if str_eq(field, "managerInvolvementScore") {
        FieldRule::MidManagerInvolvement
    } else if str_eq(field, "exceptionalJob") {
        FieldRule::ExceptionalJob
    } else if str_eq(field, "badJob") {
        FieldRule::BadJob
    } else {
        FieldRule::Zero
    }
}

fn ongoing_field_rule(field: &str) -> (r: FieldRule)
    ensures
        r == ongoing_rule(field@),
{
    if str_eq(field, "performedResponsibilitiesScore") {
        FieldRule::OngoingPerformedResponsibilities
    } else if str_eq(field, "clearExpectationsScore") {
        FieldRule::OngoingClearExpectations
    } else if str_eq(field, "errorsScore") {
        FieldRule::OngoingErrors
    } else if str_eq(field, "managerInvolvementScore") {
        FieldRule::OngoingManagerInvolvement
    } else if str_eq(field, "managerInvolvementNeedScore") {
        FieldRule::OngoingManagerInvolvementNeed
    } else {
        FieldRule::Zero
    }
}

/// The rule that scores `field` for a review of schema `schema_id`; fields of
/// schemas without scoring rules, and fields a schema does not score, score zero.
pub fn score_field(schema_id: &str, field: &str) -> (r: FieldRule)
    ensures
        r == rule_for(schema_id@, field@),
{
    match scoring_schema(schema_id) {
        Some(ScoringSchema::Endproj) => endproj_field_rule(field),
        Some(ScoringSchema::EndprojManager) => endproj_manager_field_rule(field),
        Some(ScoringSchema::Midproj) => midproject_field_rule(field),
        Some(ScoringSchema::Ongoing) => ongoing_field_rule(field),
        Some(ScoringSchema::OngoingManager) => ongoing_field_rule(field),
        None => FieldRule::Zero,
    }
}

/// The texts of a list of strings.
pub open spec fn key_views(keys: Seq<String>) -> Seq<Seq<char>> {
    keys.map_values(|k: String| k@)
}

/// The first `n` manager fields that the employee did not answer, in order.
pub open spec fn keys_not_in(m: Seq<Seq<char>>, e: Seq<Seq<char>>, n: int) -> Seq<Seq<char>>
    decreases n,
{
    if n <= 0 {
        Seq::empty()
    } else if e.contains(m[n - 1]) {
        keys_not_in(m, e, n - 1)
    } else {
        keys_not_in(m, e, n - 1).push(m[n - 1])
    }
}

/// The fields scored for a pair of reviews: the employee's answered fields,
/// then the manager's answered fields that the employee did not answer.
pub open spec fn scored_field_names(e: Seq<Seq<char>>, m: Seq<Seq<char>>) -> Seq<Seq<char>> {
    e + keys_not_in(m, e, m.len() as int)
}

fn contains_text(v: &Vec<String>, k: &str) -> (b: bool)
    ensures
        b == key_views(v@).contains(k@),
{
    let mut i: usize = 0;
    while i < v.len()
        invariant
            i <= v@.len(),
            forall|j: int| 0 <= j < i ==> v@[j]@ != k@,
        decreases v.len() - i,
    {
        if str_eq(v[i].as_str(), k) {
            assert(key_views(v@)[i as int] == k@);
            return true;
        }
        i = i + 1;
    }
    proof {
        if key_views(v@).contains(k@) {
            let j = choose|j: int| #![auto] 0 <= j < key_views(v@).len() && key_views(v@)[j] == k@;
            assert(v@[j]@ == k@);
        }
    }
    false
}

/// The fields to score for a pair of reviews, given the fields each answered:
/// the employee's, then the manager's that the employee did not answer.
pub fn scored_fields(employee_keys: &Vec<String>, manager_keys: &Vec<String>) -> (r: Vec<String>)
    ensures
        key_views(r@) == scored_field_names(key_views(employee_keys@), key_views(manager_keys@)),
{
    let ghost e = key_views(employee_keys@);
    let ghost m = key_views(manager_keys@);
    let mut r: Vec<String> = Vec::new();
    let mut i: usize = 0;
    while i < employee_keys.len()
        invariant
            e == key_views(employee_keys@),
            i <= employee_keys@.len(),
            key_views(r@) == e.take(i as int),
        decreases employee_keys.len() - i,
    {
        let ghost old_r = r@;
        let k = employee_keys[i].clone();
        assert(k@ == e[i as int]);
        r.push(k);
        assert(r@ == old_r.push(k));
        assert(key_views(r@) =~= key_views(old_r).push(k@));
        i = i + 1;
        assert(key_views(r@) =~= e.take(i as int));
    }
    assert(e.take(employee_keys@.len() as int) =~= e);
    let mut j: usize = 0;
    while j < manager_keys.len()
        invariant
            e == key_views(employee_keys@),
            m == key_views(manager_keys@),
            j <= manager_keys@.len(),
            key_views(r@) == e + keys_not_in(m, e, j as int),
        decreases manager_keys.len() - j,
    {
        let ghost old_r = r@;
        if !contains_text(employee_keys, manager_keys[j].as_str()) {
            let k = manager_keys[j].clone();
            assert(k@ == m[j as int]);
            r.push(k);
            assert(key_views(r@) =~= key_views(old_r).push(k@));
            assert(key_views(r@) =~= e + keys_not_in(m, e, j + 1));
        }
        j = j + 1;
    }
    r
}

proof fn lemma_keys_not_in(m: Seq<Seq<char>>, e: Seq<Seq<char>>, n: int)
    requires
        0 <= n <= m.len(),
        m.no_duplicates(),
    ensures
        keys_not_in(m, e, n).no_duplicates(),
        forall|k: Seq<char>| #[trigger] keys_not_in(m, e, n).contains(k) <==> (m.take(n).contains(k) && !e.contains(k)),
    decreases n,
{
    if n > 0 {
        lemma_keys_not_in(m, e, n - 1);
        let prev = keys_not_in(m, e, n - 1);
        assert(m.take(n) =~= m.take(n - 1).push(m[n - 1]));
        assert forall|k: Seq<char>| #[trigger] keys_not_in(m, e, n).contains(k) <==> (m.take(n).contains(k) && !e.contains(k)) by {
            if m.take(n).contains(k) && !e.contains(k) {
                if k != m[n - 1] {
                    let pn = m.take(n);
                    let i = choose|i: int| #![auto] 0 <= i < pn.len() && pn[i] == k;
                    assert(m.take(n - 1)[i] == k);
                    assert(prev.contains(k));
                    let j = choose|j: int| #![auto] 0 <= j < prev.len() && prev[j] == k;
                    assert(keys_not_in(m, e, n)[j] == k);
                } else {
                    assert(keys_not_in(m, e, n)[prev.len() as int] == k);
                }
            }
            if keys_not_in(m, e, n).contains(k) {
                let cur = keys_not_in(m, e, n);
                let j = choose|j: int| #![auto] 0 <= j < cur.len() && cur[j] == k;
                if j < prev.len() {
                    assert(prev[j] == k);
                    assert(prev.contains(k));
                    let pm = m.take(n - 1);
                    let i = choose|i: int| #![auto] 0 <= i < pm.len() && pm[i] == k;
                    assert(m.take(n)[i] == k);
                } else {
                    assert(m.take(n)[n - 1] == k);
                }
            }
        }
        if !e.contains(m[n - 1]) {
            assert(!prev.contains(m[n - 1])) by {
                if prev.contains(m[n - 1]) {
                    let pm = m.take(n - 1);
                    let last = m[n - 1];
                    let i = choose|i: int| #![auto] 0 <= i < pm.len() && pm[i] == last;
                    assert(m[i] == m[n - 1]);
                }
            }
        }
    }
}

/// Every field is scored once: when neither review repeats a field, the
/// scored fields repeat none, and they are exactly the fields either review answered.
pub proof fn lemma_scored_fields_once(e: Seq<Seq<char>>, m: Seq<Seq<char>>)
    requires
        e.no_duplicates(),
        m.no_duplicates(),
    ensures
        scored_field_names(e, m).no_duplicates(),
        forall|k: Seq<char>| #[trigger] scored_field_names(e, m).contains(k) <==> (e.contains(k) || m.contains(k)),
{
    lemma_keys_not_in(m, e, m.len() as int);
    let t = keys_not_in(m, e, m.len() as int);
    let s = scored_field_names(e, m);
    assert(m.take(m.len() as int) =~= m);
    assert forall|i: int, j: int| 0 <= i < s.len() && 0 <= j < s.len() && i != j implies s[i] != s[j] by {
        if i < e.len() && j >= e.len() {
            assert(t[j - e.len()] == s[j]);
            assert(t.contains(s[j]));
            assert(e.contains(s[i]));
        } else if j < e.len() && i >= e.len() {
            assert(t[i - e.len()] == s[i]);
            assert(t.contains(s[i]));
            assert(e.contains(s[j]));
        } else if i >= e.len() && j >= e.len() {
            assert(t[i - e.len()] == s[i]);
            assert(t[j - e.len()] == s[j]);
        }
    }
    assert forall|k: Seq<char>| #[trigger] s.contains(k) <==> (e.contains(k) || m.contains(k)) by {
        if e.contains(k) {
            let i = choose|i: int| #![auto] 0 <= i < e.len() && e[i] == k;
            assert(s[i] == k);
        } else if m.contains(k) {
            assert(t.contains(k));
            let j = choose|j: int| #![auto] 0 <= j < t.len() && t[j] == k;
            assert(s[e.len() + j] == k);
        }
        if s.contains(k) {
            let i = choose|i: int| #![auto] 0 <= i < s.len() && s[i] == k;
            if i >= e.len() {
                assert(t[i - e.len()] == k);
                assert(t.contains(k));
            }
        }
    }
}

/// The manager reviews requested for end-of-project and ongoing reviews are
/// scored by the manager rules of those schemas; the one requested for a
/// mid-project review has a schema without scoring rules.
pub proof fn lemma_manager_schemas_scored()
    ensures
        schema_named(manager_schema("endproj"@)) == Some(ScoringSchema::EndprojManager),
        schema_named(manager_schema("ongoing"@)) == Some(ScoringSchema::OngoingManager),
        schema_named(manager_schema("midproj"@)) is None,
{
    reveal_strlit("endproj");
    reveal_strlit("midproj");
    reveal_strlit("ongoing");
    reveal_strlit("endproj_manager");
    reveal_strlit("midproj_manager");
    reveal_strlit("ongoing_manager");
    assert("midproj"@[0] != "endproj"@[0]);
    assert("ongoing"@[0] != "endproj"@[0]);
    assert("ongoing"@[0] != "midproj"@[0]);
    assert("midproj_manager"@.len() != "endproj"@.len());
    assert("midproj_manager"@.len() != "midproj"@.len());
    assert("midproj_manager"@.len() != "ongoing"@.len());
    assert("midproj_manager"@[0] != "endproj_manager"@[0]);
    assert("midproj_manager"@[0] != "ongoing_manager"@[0]);
    assert("endproj_manager"@.len() != "endproj"@.len());
    assert("ongoing_manager"@.len() != "endproj"@.len());
    assert("ongoing_manager"@.len() != "midproj"@.len());
    assert("ongoing_manager"@.len() != "ongoing"@.len());
    assert("ongoing_manager"@[0] != "endproj_manager"@[0]);
}

/// In a manager's end-of-project review pair, each of the 35 culture
/// questions is scored by the culture rule (its answer, less 5, over 5).
pub proof fn lemma_culture_questions_scored()
    ensures
        rule_for("endproj_manager"@, "managerSucceedScore"@) == FieldRule::CultureScore,
        rule_for("endproj_manager"@, "managerSamePageScore"@) == FieldRule::CultureScore,
        rule_for("endproj_manager"@, "managerFairScore"@) == FieldRule::CultureScore,
        rule_for("endproj_manager"@, "managerRelationshipScore"@) == FieldRule::CultureScore,
        rule_for("endproj_manager"@, "managerLikeMeScore"@) == FieldRule::CultureScore,
        rule_for("endproj_manager"@, "managerILikeScore"@) == FieldRule::CultureScore,
        rule_for("endproj_manager"@, "workFriendsScore"@) == FieldRule::CultureScore,
        rule_for("endproj_manager"@, "companyProgressingScore"@) == FieldRule::CultureScore,
        rule_for("endproj_manager"@, "clearCompanyVisionScore"@) == FieldRule::CultureScore,
        rule_for("endproj_manager"@, "criticismWelcomeScore"@) == FieldRule::CultureScore,
        rule_for("endproj_manager"@, "companyTransparentScore"@) == FieldRule::CultureScore,
        rule_for("endproj_manager"@, "companyCaresMeScore"@) == FieldRule::CultureScore,
        rule_for("endproj_manager"@, "companyProudScore"@) == FieldRule::CultureScore,
        rule_for("endproj_manager"@, "recommendFriendsScore"@) == FieldRule::CultureScore,
        rule_for("endproj_manager"@, "leadershipTrustScore"@) == FieldRule::CultureScore,
        rule_for("endproj_manager"@, "competitivePayScore"@) == FieldRule::CultureScore,
        rule_for("endproj_manager"@, "benefitsGoodScore"@) == FieldRule::CultureScore,
        rule_for("endproj_manager"@, "benefitsValuableScore"@) == FieldRule::CultureScore,
        rule_for("endproj_manager"@, "hardWorkersScore"@) == FieldRule::CultureScore,
        rule_for("endproj_manager"@, "smartCoworkersScore"@) == FieldRule::CultureScore,
        rule_for("endproj_manager"@, "smartLeadersScore"@) == FieldRule::CultureScore,
        rule_for("endproj_manager"@, "companyDidMoreScore"@) == FieldRule::CultureScore,
        rule_for("endproj_manager"@, "stillCompanyOneYearScore"@) == FieldRule::CultureScore,
        rule_for("endproj_manager"@, "stillCompanyTwoYearScore"@) == FieldRule::CultureScore,
        rule_for("endproj_manager"@, "stillCompanyFiveYearScore"@) == FieldRule::CultureScore,
        rule_for("endproj_manager"@, "promotedNewSkillsScore"@) == FieldRule::CultureScore,
        rule_for("endproj_manager"@, "promotedPerformWellScore"@) == FieldRule::CultureScore,
        rule_for("endproj_manager"@, "leaveTeamScore"@) == FieldRule::CultureScore,
        rule_for("endproj_manager"@, "leaveCompanyScore"@) == FieldRule::CultureScore,
        rule_for("endproj_manager"@, "financialIncentiveScore"@) == FieldRule::CultureScore,
        rule_for("endproj_manager"@, "succeedTogetherScore"@) == FieldRule::CultureScore,
        rule_for("endproj_manager"@, "likeWorkingScore"@) == FieldRule::CultureScore,
        rule_for("endproj_manager"@, "workImportanceScore"@) == FieldRule::CultureScore,
        rule_for("endproj_manager"@, "workUsefulScore"@) == FieldRule::CultureScore,
        rule_for("endproj_manager"@, "impressedScore"@) == FieldRule::CultureScore,
{
    reveal_strlit("endproj");
    reveal_strlit("endproj_manager");
    assert("endproj"@.len() != "endproj_manager"@.len());
}

} // verus!
