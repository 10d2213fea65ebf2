//! What holds of the library as a whole, across its operations.
use vstd::prelude::*;

use crate::checks::{
    contacts, receipts_of, rule_outcome, states, unconsented, Facts, gst_threshold_outcome, gst_invoice_outcome, einvoicing_outcome, invoice_essentials_outcome, eci_outcome, tax_return_outcome, agm_outcome, consent_outcome, dpo_outcome, records_outcome, contract_outcome, cross_border_outcome, jurisdiction_outcome,
};
use crate::compliance::{
    doc_matched, hit_describes, is_hit, is_ranking, overall_spec, pack_docs, ranks_before, retrieval, rule_score,
    ComplianceFinding, FindingStatus, RuleHit,
};
use crate::calendar::{clamp_month, date_lt, last_day_spec, last_fye_spec, valid_date, Date, MAX_YEAR, MIN_YEAR};
use crate::compliance_pack::{is_singapore_pack, sg_rule_checks, CheckKind, Rule, RulePack, SG_GST_THRESHOLD_CENTS};
use crate::compose::facts_spec;
use crate::crew::{clean_item_spec, role_name, RoleId};
use crate::demo::{stepped, CommandRequest, DemoState};
use crate::report::{assessed, id_words, pack_outcomes, states_all, summary_fault, Assessment, MAX_SUMMARY_CHARS};
use crate::amounts::{all_digits, amount_value, cents_value, digits_value, fraction_part, whole_part};
use crate::crew_draft::plain_amount;
use crate::report::first_of;
use crate::text::{
    decimal, digit_char, is_digit, is_white, lemma_trimmed_trimmed, no_control_but, starts_with, string_views, trim_back,
    trim_front, trimmed, two_digits,
};
use crate::types::{Customer, Document, DocumentKind, Venture, Workspace, WorkspaceError};
use crate::crew::{DecisionStatus, EmployeeStatus};
use crate::business::{
    receivable_pick, receivables_spec, sums_fit,
    invoice_total, issued_invoice, offer_accepted, open_tasks, paid_of, payment_recorded, project_status_set,
    receivable_of,
};
use crate::crew_apply::{customer_index, document_index, project_index};
use crate::erp::{CustomerStage, ProjectStatus};
use crate::crew_input::find_document;
use crate::crew_apply::{same_but, AuditEntry};
use crate::crew_desk::{
    RunSubjectRef,
    decided, decision_index, employee_suggestions, hired, restatused, role_index, Decision, Employee,
};

verus! {

/// A compliance run never calls a company "compliant": its overall label
/// is one of `attention`, `needs_review`, `unknown`, `clear_within_pack`,
/// or `not_covered`.
pub proof fn law_never_compliant(a: Assessment, f: Facts, zh: bool)
    requires
        assessed(a, f, zh),
    ensures
        a.overall@ == "attention"@ || a.overall@ == "needs_review"@ || a.overall@ == "unknown"@
            || a.overall@ == "clear_within_pack"@ || a.overall@ == "not_covered"@,
{
}

/// Without a recorded jurisdiction nothing passes: the run is `unknown`,
/// and its one finding is the missing jurisdiction, unknown.
pub proof fn law_unknown_jurisdiction_never_passes(a: Assessment, f: Facts, zh: bool)
    requires
        assessed(a, f, zh),
        f.venture.jurisdiction@.len() == 0,
    ensures
        a.overall@ == "unknown"@,
        a.findings@.len() == 1,
        a.findings@[0].status == FindingStatus::Unknown,
{
    let p = choose|p: RulePack|
        is_singapore_pack(p) && crate::report::states_all(
            a.findings@,
            crate::report::pack_outcomes(seq![p.rules@[0]], f, zh),
            zh,
        );
    let rules = seq![p.rules@[0]];
    assert(p.rules@[0].check == sg_rule_checks()[0]);
    assert(rules.drop_last() =~= Seq::<Rule>::empty());
    assert(crate::report::pack_outcomes(Seq::<Rule>::empty(), f, zh) =~= Seq::empty());
    assert(rules.last() == p.rules@[0]);
}

/// A rule about the company gives no finding on one document, and a rule
/// about an invoice or offer gives none on the company as a whole (offers
/// are then read from the sent ones).
pub proof fn law_subject_scopes_the_rules(rule: Rule, f: Facts, zh: bool)
    ensures
        f.document is Some && (rule.check == CheckKind::GstRegistrationThreshold || rule.check
            == CheckKind::EInvoicing || rule.check == CheckKind::EstimatedChargeableIncome || rule.check
            == CheckKind::CorporateTaxReturn || rule.check == CheckKind::AnnualGeneralMeetingAndReturn
            || rule.check == CheckKind::PersonalDataConsent || rule.check == CheckKind::DataProtectionOfficer
            || rule.check == CheckKind::RecordKeeping || rule.check == CheckKind::CrossBorderCustomers)
            ==> rule_outcome(rule, f, zh) is None,
        f.document is None && (rule.check == CheckKind::GstTaxInvoiceFields || rule.check
            == CheckKind::InvoiceEssentials) ==> rule_outcome(rule, f, zh) is None,
        rule.check == CheckKind::JurisdictionKnown ==> rule_outcome(rule, f, zh) is Some,
        (rule.check == CheckKind::GstTaxInvoiceFields || rule.check == CheckKind::InvoiceEssentials) && (
        f.document matches Some(d) && d.kind != DocumentKind::Invoice) ==> rule_outcome(rule, f, zh) is None,
        rule.check == CheckKind::ContractEssentials && (f.document matches Some(d) && d.kind
            != DocumentKind::Offer) ==> rule_outcome(rule, f, zh) is None,
{
}

/// The GST registration check on the company: a registered company
/// passes; otherwise the larger of the revenue estimate and the last
/// twelve months' receipts decides, at or above the threshold calling for
/// attention; with neither an estimate nor a receipt it needs review.
pub proof fn law_gst_threshold_status(rule: Rule, f: Facts, zh: bool)
    requires
        rule.check == CheckKind::GstRegistrationThreshold,
        f.document is None,
    ensures
        ({
            let r = receipts_of(f);
            let b = match f.venture.revenue_estimate_cents {
                Some(e) => if e >= r { e as int } else { r },
                None => r,
            };
            &&& rule_outcome(rule, f, zh) is Some
            &&& rule_outcome(rule, f, zh).unwrap().0 == (if f.venture.gst_registered {
                FindingStatus::Pass
            } else if b >= SG_GST_THRESHOLD_CENTS {
                FindingStatus::Attention
            } else if f.venture.revenue_estimate_cents is None && r == 0 {
                FindingStatus::NeedsReview
            } else {
                FindingStatus::Pass
            })
        }),
{
}

/// Every outcome a check reports lists the facts it read, at least one.
pub proof fn law_outcomes_name_their_facts(rule: Rule, f: Facts, zh: bool)
    ensures
        rule_outcome(rule, f, zh) matches Some(o) ==> o.2.len() > 0,
{
    match rule.check {
        CheckKind::JurisdictionKnown => lemma_facts_named_jurisdiction(f, zh),
        CheckKind::GstRegistrationThreshold => lemma_facts_named_gst_threshold(f, zh),
        CheckKind::GstTaxInvoiceFields => lemma_facts_named_gst_invoice(f, zh),
        CheckKind::EInvoicing => lemma_facts_named_einvoicing(f, zh),
        CheckKind::InvoiceEssentials => lemma_facts_named_invoice_essentials(f, zh),
        CheckKind::EstimatedChargeableIncome => lemma_facts_named_eci(f, zh),
        CheckKind::CorporateTaxReturn => lemma_facts_named_tax_return(f, zh),
        CheckKind::AnnualGeneralMeetingAndReturn => lemma_facts_named_agm(f, zh),
        CheckKind::PersonalDataConsent => lemma_facts_named_consent(f, zh),
        CheckKind::DataProtectionOfficer => lemma_facts_named_dpo(f, zh),
        CheckKind::RecordKeeping => lemma_facts_named_records(f, zh),
        CheckKind::ContractEssentials => lemma_facts_named_contract(f, zh),
        CheckKind::CrossBorderCustomers => lemma_facts_named_cross_border(f, zh),
    }
}

proof fn lemma_facts_named_jurisdiction(f: Facts, zh: bool)
    ensures
        jurisdiction_outcome(*f.venture, zh).2.len() > 0,
{
}

proof fn lemma_facts_named_gst_threshold(f: Facts, zh: bool)
    ensures
        gst_threshold_outcome(f, zh) matches Some(o) ==> o.2.len() > 0,
{
}

proof fn lemma_facts_named_gst_invoice(f: Facts, zh: bool)
    ensures
        gst_invoice_outcome(f, zh) matches Some(o) ==> o.2.len() > 0,
{
}

proof fn lemma_facts_named_einvoicing(f: Facts, zh: bool)
    ensures
        einvoicing_outcome(f, zh) matches Some(o) ==> o.2.len() > 0,
{
}

proof fn lemma_facts_named_invoice_essentials(f: Facts, zh: bool)
    ensures
        invoice_essentials_outcome(f, zh) matches Some(o) ==> o.2.len() > 0,
{
}

proof fn lemma_facts_named_eci(f: Facts, zh: bool)
    ensures
        eci_outcome(f, zh) matches Some(o) ==> o.2.len() > 0,
{
}

proof fn lemma_facts_named_tax_return(f: Facts, zh: bool)
    ensures
        tax_return_outcome(f, zh) matches Some(o) ==> o.2.len() > 0,
{
}

proof fn lemma_facts_named_agm(f: Facts, zh: bool)
    ensures
        agm_outcome(f, zh) matches Some(o) ==> o.2.len() > 0,
{
}

proof fn lemma_facts_named_consent(f: Facts, zh: bool)
    ensures
        consent_outcome(f, zh) matches Some(o) ==> o.2.len() > 0,
{
}

proof fn lemma_facts_named_dpo(f: Facts, zh: bool)
    ensures
        dpo_outcome(f, zh) matches Some(o) ==> o.2.len() > 0,
{
}

proof fn lemma_facts_named_records(f: Facts, zh: bool)
    ensures
        records_outcome(f, zh) matches Some(o) ==> o.2.len() > 0,
{
}

proof fn lemma_facts_named_contract(f: Facts, zh: bool)
    ensures
        contract_outcome(f, zh) matches Some(o) ==> o.2.len() > 0,
{
}

proof fn lemma_facts_named_cross_border(f: Facts, zh: bool)
    ensures
        cross_border_outcome(f, zh) matches Some(o) ==> o.2.len() > 0,
{
}

/// A finding carries its rule: the rule's id, category, basis and source,
/// its title and escalation in the language asked for, and the facts its
/// outcome read.
pub proof fn law_findings_carry_their_rule(
    r: Option<ComplianceFinding>,
    rule: Rule,
    o: Option<(FindingStatus, Seq<char>, Seq<Seq<char>>)>,
    zh: bool,
)
    requires
        states(r, rule, o, zh),
        r is Some,
    ensures
        o is Some,
        ({
            let x = r.unwrap();
            &&& x.rule_id@ == rule.id@
            &&& x.category@ == rule.category@
            &&& x.basis@ == rule.basis@
            &&& x.source_authority@ == rule.source.authority@
            &&& x.source_title@ == rule.source.title@
            &&& x.source_url@ == rule.source.url@
            &&& x.title@ == (if zh { rule.title_zh@ } else { rule.title_en@ })
            &&& x.escalation@ == (if zh { rule.escalation_zh@ } else { rule.escalation_en@ })
            &&& x.status == o.unwrap().0
            &&& x.facts_used@.len() == o.unwrap().2.len()
        }),
{
    assert(string_views(r.unwrap().facts_used@).len() == r.unwrap().facts_used@.len());
}

/// A compliance run is covered, missing its jurisdiction, or not covered;
/// a covered run's overall label is the one its findings give, and every
/// finding of a covered run is the pack's check of its rule.
pub proof fn law_assessment_shape(a: Assessment, f: Facts, zh: bool)
    requires
        assessed(a, f, zh),
    ensures
        a.coverage@ == "covered"@ || a.coverage@ == "unknown_jurisdiction"@ || a.coverage@ == "not_covered"@,
        a.coverage@ == "covered"@ ==> a.overall@ == overall_spec(a.findings@),
        a.coverage@ == "covered"@ ==> exists|p: RulePack|
            is_singapore_pack(p) && states_all(a.findings@, pack_outcomes(p.rules@, f, zh), zh),
{
    let j = f.venture.jurisdiction@;
    reveal_strlit("covered");
    reveal_strlit("unknown_jurisdiction");
    reveal_strlit("not_covered");
    assert("covered"@.len() == 7);
    assert("unknown_jurisdiction"@.len() == 20);
    assert("not_covered"@.len() == 11);
    if j.len() == 0 {
        assert(a.coverage@.len() == 20);
    } else if crate::text::eq_ignore_ascii_case(j, "SG"@) {
        let p = choose|p: RulePack|
            {
                &&& is_singapore_pack(p)
                &&& a.pack_id@ == p.id@
                &&& a.pack_version@ == p.version@
                &&& a.review_status@ == p.review_status@
                &&& states_all(a.findings@, pack_outcomes(p.rules@, f, zh), zh)
                &&& exists|hits: Seq<RuleHit>|
                    {
                        &&& retrieval(
                            p,
                            crate::compliance::tokens_spec(crate::report::subject_query(*f.venture, f.document)),
                            crate::report::SUMMARY_HITS as int,
                            zh,
                            hits,
                        )
                        &&& string_views(a.retrieved_rule_ids@) == crate::report::merged(
                            crate::report::finding_ids(a.findings@),
                            crate::report::hit_ids(hits),
                        )
                    }
            };
        assert(is_singapore_pack(p) && states_all(a.findings@, pack_outcomes(p.rules@, f, zh), zh));
    } else {
        assert(a.coverage@.len() == 11);
    }
}

proof fn lemma_unconsented_within_contacts(cs: Seq<Customer>)
    ensures
        unconsented(cs) <= contacts(cs),
    decreases cs.len(),
{
    if cs.len() > 0 {
        lemma_unconsented_within_contacts(cs.drop_last());
    }
}

/// The personal-data check on the company counts the contacts with stored
/// details: nothing to check without any, a pass when all of them have
/// recorded consent, else attention, reported as how many of how many lack
/// it.
pub proof fn law_consent_check_counts_contacts(rule: Rule, f: Facts)
    requires
        rule.check == CheckKind::PersonalDataConsent,
        f.document is None,
    ensures
        ({
            let cs = f.workspace.customers@;
            let o = rule_outcome(rule, f, false);
            &&& o is Some
            &&& o.unwrap().0 == (if contacts(cs) == 0 {
                FindingStatus::NotApplicable
            } else if unconsented(cs) == 0 {
                FindingStatus::Pass
            } else {
                FindingStatus::Attention
            })
            &&& unconsented(cs) > 0 ==> starts_with(o.unwrap().1, decimal(unconsented(cs)) + " of "@ + decimal(contacts(cs)))
        }),
{
    let cs = f.workspace.customers@;
    lemma_unconsented_within_contacts(cs);
    if unconsented(cs) > 0 {
        let p = decimal(unconsented(cs)) + " of "@ + decimal(contacts(cs));
        let o = rule_outcome(rule, f, false);
        assert(o.unwrap().1 == p + " contact(s) with stored details have no recorded consent."@);
        assert(o.unwrap().1.subrange(0, p.len() as int) =~= p);
    }
}

/// Retrieval returns at most `k` hits, each with a positive score, in
/// order of non-increasing score; an empty query returns nothing.
pub proof fn law_retrieval_is_ranked(pack: RulePack, q: Seq<Seq<char>>, k: int, zh: bool, r: Seq<RuleHit>)
    requires
        retrieval(pack, q, k, zh, r),
    ensures
        q.len() == 0 ==> r.len() == 0,
        q.len() > 0 ==> r.len() <= k,
        forall|i: int| 0 <= i < r.len() ==> (#[trigger] r[i]).score > 0,
        forall|i: int, j: int| 0 <= i < j < r.len() ==> (#[trigger] r[i]).score >= (#[trigger] r[j]).score,
{
    if q.len() > 0 {
        let order = choose|order: Seq<int>|
            {
                &&& crate::compliance::is_ranking(pack, q, zh, k, order)
                &&& r.len() == order.len()
                &&& forall|j: int|
                    0 <= j < order.len() ==> crate::compliance::hit_describes(
                        #[trigger] r[j],
                        pack.rules@[order[j]],
                        zh,
                        crate::compliance::rule_score(pack, q, zh, order[j]),
                        crate::compliance::doc_matched(crate::compliance::pack_docs(pack, zh)[order[j]], q),
                    )
            };
        assert forall|i: int| 0 <= i < r.len() implies (#[trigger] r[i]).score > 0 by {
            assert(crate::compliance::is_hit(pack, q, zh, order[i]));
        }
        assert forall|i: int, j: int| 0 <= i < j < r.len() implies (#[trigger] r[i]).score >= (
        #[trigger] r[j]).score by {
            assert(crate::compliance::ranks_before(pack, q, zh, order[i], order[j]));
        }
    }
}

/// Retrieval never answers "everything": for a non-empty query it returns
/// nothing exactly when `k` is zero or no rule scores for the query.
pub proof fn law_unmatched_query_retrieves_nothing(
    pack: RulePack,
    q: Seq<Seq<char>>,
    k: int,
    zh: bool,
    r: Seq<RuleHit>,
)
    requires
        retrieval(pack, q, k, zh, r),
        q.len() > 0,
        k >= 0,
    ensures
        r.len() == 0 <==> (k == 0 || forall|i: int| !is_hit(pack, q, zh, i)),
{
    let order = choose|order: Seq<int>|
        {
            &&& is_ranking(pack, q, zh, k, order)
            &&& r.len() == order.len()
            &&& forall|j: int|
                0 <= j < order.len() ==> hit_describes(
                    #[trigger] r[j],
                    pack.rules@[order[j]],
                    zh,
                    rule_score(pack, q, zh, order[j]),
                    doc_matched(pack_docs(pack, zh)[order[j]], q),
                )
        };
    if r.len() > 0 {
        assert(is_hit(pack, q, zh, order[0]));
    }
    if r.len() == 0 && k > 0 {
        assert forall|i: int| !is_hit(pack, q, zh, i) by {
            if is_hit(pack, q, zh, i) {
                assert(!order.contains(i));
            }
        }
    }
}

/// Retrieval reports each rule at most once, so it returns no more hits
/// than the pack has rules.
pub proof fn law_retrieval_hits_each_rule_once(pack: RulePack, q: Seq<Seq<char>>, k: int, zh: bool, r: Seq<RuleHit>)
    requires
        retrieval(pack, q, k, zh, r),
    ensures
        r.len() <= pack.rules@.len(),
{
    if q.len() > 0 {
        let order = choose|order: Seq<int>|
            {
                &&& is_ranking(pack, q, zh, k, order)
                &&& r.len() == order.len()
                &&& forall|j: int|
                    0 <= j < order.len() ==> hit_describes(
                        #[trigger] r[j],
                        pack.rules@[order[j]],
                        zh,
                        rule_score(pack, q, zh, order[j]),
                        doc_matched(pack_docs(pack, zh)[order[j]], q),
                    )
            };
        assert(order.no_duplicates()) by {
            assert forall|a: int, b: int| 0 <= a < order.len() && 0 <= b < order.len() && a != b implies order[a]
                != order[b] by {
                crate::text::lemma_seq_lt_irreflexive(pack.rules@[order[a]].id@);
                if a < b {
                    assert(ranks_before(pack, q, zh, order[a], order[b]));
                } else {
                    assert(ranks_before(pack, q, zh, order[b], order[a]));
                }
            }
        }
        order.unique_seq_to_set();
        let range = vstd::set_lib::set_int_range(0, pack.rules@.len() as int);
        vstd::set_lib::lemma_int_range(0, pack.rules@.len() as int);
        assert(order.to_set().subset_of(range)) by {
            assert forall|x: int| order.to_set().contains(x) implies range.contains(x) by {
                let j = choose|j: int| 0 <= j < order.len() && order[j] == x;
                assert(is_hit(pack, q, zh, order[j]));
            }
        }
        vstd::set_lib::lemma_len_subset(order.to_set(), range);
    }
}

/// The financial year end used is the most recent one on or before
/// today: the last day of the (clamped) year-end month, not after today,
/// with the next year's end after today.
pub proof fn law_year_end_is_the_latest_passed(today: Date, fye_month: u8)
    requires
        valid_date(today),
        MIN_YEAR < today.year < MAX_YEAR,
    ensures
        ({
            let r = last_fye_spec(today, fye_month);
            let m = clamp_month(fye_month) as int;
            &&& r.month == m
            &&& r == last_day_spec(r.year as int, m)
            &&& !date_lt(today, r)
            &&& date_lt(today, last_day_spec(r.year + 1, m))
        }),
{
}

/// A model summary that is kept is its own trimmed text, not empty, within
/// the length cap, free of control characters but line breaks, and cites
/// no rule id outside the allowed ones.
pub proof fn law_kept_summaries_cite_allowed_rules(raw: Seq<char>, allowed: Seq<Seq<char>>)
    requires
        summary_fault(raw, allowed) is None,
    ensures
        trimmed(trimmed(raw)) == trimmed(raw),
        0 < trimmed(raw).len() <= MAX_SUMMARY_CHARS,
        no_control_but(trimmed(raw), true, false),
        forall|i: int|
            0 <= i < id_words(trimmed(raw)).len() && starts_with(#[trigger] id_words(trimmed(raw))[i], "SG-"@)
                ==> allowed.contains(id_words(trimmed(raw))[i]),
{
    lemma_trimmed_trimmed(raw);
}

/// A role's stable name names that role alone.
pub proof fn law_role_names_are_distinct(a: RoleId, b: RoleId)
    ensures
        role_name(a) == role_name(b) ==> a == b,
{
    reveal_strlit("analyst");
    reveal_strlit("proposal_writer");
    reveal_strlit("delivery_planner");
    reveal_strlit("invoice_clerk");
    reveal_strlit("quality_checker");
    reveal_strlit("compliance_checker");
    if role_name(a) == role_name(b) && a != b {
        assert(role_name(a).len() != role_name(b).len() || role_name(a)[0] != role_name(b)[0]
            || role_name(a)[1] != role_name(b)[1]);
    }
}

/// Cleaning a cleaned model text changes nothing.
pub proof fn law_clean_item_is_idempotent(text: Seq<char>)
    requires
        clean_item_spec(text) is Some,
    ensures
        clean_item_spec(clean_item_spec(text)->0) == clean_item_spec(text),
{
    lemma_trimmed_trimmed(text);
}

/// A reset that is accepted starts the seeded state over in an epoch other
/// than the one it left.
pub proof fn law_reset_changes_the_epoch(before: DemoState, req: CommandRequest, draws: Seq<Seq<char>>, after: DemoState)
    requires
        req.command is Reset,
        stepped(before, req, draws, after),
    ensures
        after.epoch@ != before.epoch@,
        after.revision == 0,
{
    crate::demo::lemma_fresh_law(draws, before.epoch@);
}

/// An accepted save moves the revision on by exactly one.
pub proof fn law_save_advances_one_revision(before: DemoState, req: CommandRequest, draws: Seq<Seq<char>>, after: DemoState)
    requires
        req.command is SaveCompany,
        stepped(before, req, draws, after),
    ensures
        after.revision == before.revision + 1,
        after.case.input_revision == before.case.input_revision + 1,
{
}

/// The facts a message states come from the record, never the body: two
/// documents that differ only in their body state the same facts.
pub proof fn law_stated_facts_ignore_the_body(v: Option<&Venture>, d1: Document, d2: Document, zh: bool, due: Seq<char>)
    requires
        d1.id == d2.id,
        d1.kind == d2.kind,
        d1.amount_cents == d2.amount_cents,
        d1.due_at == d2.due_at,
    ensures
        facts_spec(v, d1, zh, due) == facts_spec(v, d2, zh, due),
{
}

/// A document with neither an amount nor a due date gets no facts block.
pub proof fn law_no_amount_no_facts(v: Option<&Venture>, d: Document, zh: bool, due: Seq<char>)
    requires
        d.amount_cents is None,
        d.due_at is None,
    ensures
        facts_spec(v, d, zh, due).len() == 0,
{
}

} // verus!

verus! {

proof fn lemma_digit_value(d: nat)
    requires
        d < 10,
    ensures
        is_digit(digit_char(d)),
        (digit_char(d) as u32) - 48 == d,
        !is_white(digit_char(d)),
        digit_char(d) != '.',
{
}

proof fn lemma_decimal_reads_back(n: nat)
    ensures
        decimal(n).len() >= 1,
        all_digits(decimal(n)),
        digits_value(decimal(n)) == n,
    decreases n,
{
    if n < 10 {
        lemma_digit_value(n);
        assert(seq![digit_char(n)].drop_last() =~= Seq::<char>::empty());
        assert(digits_value(Seq::<char>::empty()) == 0);
        assert(digits_value(seq![digit_char(n)]) == digits_value(Seq::<char>::empty()) * 10 + ((digit_char(n) as u32) - 48) as nat);
    } else {
        lemma_decimal_reads_back(n / 10);
        lemma_digit_value(n % 10);
        let s = decimal(n / 10);
        assert(s.push(digit_char(n % 10)).drop_last() =~= s);
        assert(digits_value(s.push(digit_char(n % 10))) == digits_value(s) * 10 + ((digit_char(n % 10) as u32) - 48) as nat);
        assert((n / 10) * 10 + n % 10 == n);
        assert forall|i: int| 0 <= i < s.len() + 1 implies is_digit(#[trigger] s.push(digit_char(n % 10))[i]) by {
            if i < s.len() {
                assert(s.push(digit_char(n % 10))[i] == s[i]);
            }
        }
    }
}

proof fn lemma_no_point_first(s: Seq<char>, c: char)
    requires
        forall|i: int| 0 <= i < s.len() ==> s[i] != c,
    ensures
        first_of(s, c) == -1,
    decreases s.len(),
{
    if s.len() > 0 {
        lemma_no_point_first(s.drop_last(), c);
    }
}

proof fn lemma_first_at(s: Seq<char>, c: char, k: int)
    requires
        0 <= k < s.len(),
        s[k] == c,
        forall|i: int| 0 <= i < k ==> s[i] != c,
    ensures
        first_of(s, c) == k,
    decreases s.len(),
{
    if s.len() == k + 1 {
        lemma_no_point_first(s.drop_last(), c);
    } else {
        lemma_first_at(s.drop_last(), c, k);
    }
}

/// An amount written as `units.cc` reads back as the same cents.
pub proof fn law_plain_amount_reads_back(cents: u64)
    ensures
        amount_value(plain_amount(cents)) == Some(cents as nat),
{
    let q = (cents / 100) as nat;
    let r = (cents % 100) as nat;
    let w = decimal(q);
    let t = two_digits(r);
    let s = w + seq!['.'] + t;
    assert(s == plain_amount(cents));
    lemma_decimal_reads_back(q);
    lemma_digit_value(r / 10);
    lemma_digit_value(r % 10);
    assert(is_digit(w[0]));
    assert(s[0] == w[0]);
    assert(s.last() == t[1]);
    assert(!is_white(s[0]));
    assert(!is_white(s.last()));
    assert(trim_front(s) == s);
    assert(trim_back(s) == s);
    assert(trimmed(s) == s);
    assert forall|i: int| 0 <= i < w.len() implies s[i] != '.' by {
        assert(s[i] == w[i]);
        assert(is_digit(w[i]));
    }
    lemma_first_at(s, '.', w.len() as int);
    assert(whole_part(s) =~= w);
    assert(fraction_part(s) =~= t);
    assert(all_digits(t));
    assert(cents_value(t) == r);
}

/// At most one employee holds each role.
pub open spec fn one_per_role(es: Seq<Employee>) -> bool {
    forall|i: int, j: int| 0 <= i < j < es.len() ==> es[i].role != es[j].role
}

proof fn lemma_role_absent(es: Seq<Employee>, role: RoleId)
    requires
        role_index(es, role) >= es.len(),
    ensures
        forall|j: int| 0 <= j < es.len() ==> es[j].role != role,
    decreases es.len(),
{
    if es.len() > 0 {
        lemma_role_absent(es.drop_first(), role);
        assert forall|j: int| 0 <= j < es.len() implies es[j].role != role by {
            if j > 0 {
                assert(es[j] == es.drop_first()[j - 1]);
            }
        }
    }
}

/// Hiring keeps one employee per role: a role already staffed is resumed or
/// refused, never filled twice.
pub proof fn law_one_employee_per_role(
    old: Workspace,
    role: RoleId,
    name: Seq<char>,
    at: i64,
    id: u128,
    new: Workspace,
    r: Result<Vec<AuditEntry>, WorkspaceError>,
)
    requires
        one_per_role(old.employees@),
        hired(old, role, name, at, id, new, r),
    ensures
        one_per_role(new.employees@),
{
    let k = role_index(old.employees@, role);
    if k >= old.employees@.len() {
        lemma_role_absent(old.employees@, role);
        if new.employees@.len() == old.employees@.len() + 1 {
            assert forall|i: int, j: int| 0 <= i < j < new.employees@.len() implies new.employees@[i].role
                != new.employees@[j].role by {
                assert(new.employees@.drop_last()[i] == new.employees@[i]);
                if j < old.employees@.len() {
                    assert(new.employees@.drop_last()[j] == new.employees@[j]);
                }
            }
        }
    }
}

/// A paused employee suggests nothing.
pub proof fn law_paused_employees_suggest_nothing(ws: Workspace, e: Employee, recent: bool)
    requires
        e.status == EmployeeStatus::Paused,
    ensures
        employee_suggestions(ws, e, recent).len() == 0,
{
}

/// Setting an employee's status twice records one change at most: the
/// second time changes nothing and records nothing.
pub proof fn law_status_settles(
    ws: Workspace,
    id: u128,
    status: EmployeeStatus,
    mid: Workspace,
    r1: Result<Vec<AuditEntry>, WorkspaceError>,
    new: Workspace,
    r2: Result<Vec<AuditEntry>, WorkspaceError>,
)
    requires
        restatused(ws, id, status, mid, r1),
        r1 is Ok,
        restatused(mid, id, status, new, r2),
    ensures
        new == mid,
        r2 matches Ok(events) && events@.len() == 0,
{
    let k = crate::crew_desk::employee_index(ws.employees@, id);
    lemma_same_ids_same_employee_index(ws.employees@, mid.employees@, id, k);
}

proof fn lemma_same_ids_same_employee_index(a: Seq<Employee>, b: Seq<Employee>, id: u128, k: int)
    requires
        a.len() == b.len(),
        forall|i: int| 0 <= i < a.len() && i != k ==> b[i] == a[i],
        0 <= k < a.len() ==> b[k].id == a[k].id,
    ensures
        crate::crew_desk::employee_index(a, id) == crate::crew_desk::employee_index(b, id),
    decreases a.len(),
{
    if a.len() > 0 {
        if a[0].id != id {
            assert forall|i: int| 0 <= i < a.drop_first().len() && i != k - 1 implies b.drop_first()[i]
                == a.drop_first()[i] by {
                assert(b.drop_first()[i] == b[i + 1]);
            }
            lemma_same_ids_same_employee_index(a.drop_first(), b.drop_first(), id, k - 1);
        }
    }
}

proof fn lemma_same_ids_same_decision_index(a: Seq<Decision>, b: Seq<Decision>, id: u128, k: int)
    requires
        a.len() == b.len(),
        forall|i: int| 0 <= i < a.len() && i != k ==> b[i] == a[i],
        0 <= k < a.len() ==> b[k].id == a[k].id,
    ensures
        decision_index(a, id) == decision_index(b, id),
    decreases a.len(),
{
    if a.len() > 0 {
        if a[0].id != id {
            assert forall|i: int| 0 <= i < a.drop_first().len() && i != k - 1 implies b.drop_first()[i]
                == a.drop_first()[i] by {
                assert(b.drop_first()[i] == b[i + 1]);
            }
            lemma_same_ids_same_decision_index(a.drop_first(), b.drop_first(), id, k - 1);
        }
    }
}

/// A proposal is decided once: after an approval or a rejection, deciding
/// it again is refused and changes nothing.
pub proof fn law_decided_once(
    ws: Workspace,
    id: u128,
    approve: bool,
    at: i64,
    mid: Workspace,
    r1: Result<Vec<AuditEntry>, WorkspaceError>,
    again: bool,
    later: i64,
    new: Workspace,
    r2: Result<Vec<AuditEntry>, WorkspaceError>,
)
    requires
        decided(ws, id, approve, at, mid, r1),
        r1 is Ok,
        decided(mid, id, again, later, new, r2),
    ensures
        new == mid,
        r2 matches Err(WorkspaceError::Invalid(m)) && m@ == "decision already made"@,
{
    let k = decision_index(ws.decisions@, id);
    assert(k < ws.decisions@.len());
    assert(same_but(ws.decisions@, mid.decisions@, k));
    lemma_same_ids_same_decision_index(ws.decisions@, mid.decisions@, id, k);
    assert(mid.decisions@[k].status != DecisionStatus::Pending);
}

/// The issued invoice with this id, if any, has received at most its
/// amount.
pub open spec fn invoice_within(ws: Workspace, id: u128) -> bool {
    find_document(ws.documents@, id) matches Some(d) ==> (issued_invoice(d) ==> paid_of(ws.payments@, id)
        <= invoice_total(d))
}

/// Every issued invoice has received at most its amount.
pub open spec fn within_invoices(ws: Workspace) -> bool {
    forall|id: u128| #[trigger] invoice_within(ws, id)
}

/// Payments never exceed the invoice: recording one keeps every issued
/// invoice's receipts within its amount.
pub proof fn law_payments_never_exceed_invoices(
    old: Workspace,
    invoice_id: u128,
    amount: u64,
    received_at: i64,
    note: Seq<char>,
    id: u128,
    at: i64,
    new: Workspace,
    r: Result<Vec<AuditEntry>, WorkspaceError>,
)
    requires
        within_invoices(old),
        payment_recorded(old, invoice_id, amount, received_at, note, id, at, new, r),
    ensures
        within_invoices(new),
{
    if r is Ok {
        assert forall|x: u128| #[trigger] invoice_within(new, x) by {
            assert(invoice_within(old, x));
            assert(find_document(old.documents@, x) == find_document(new.documents@, x));
            assert(paid_of(new.payments@, x) == paid_of(new.payments@.drop_last(), x) + if new.payments@.last().invoice_id
                == x {
                new.payments@.last().amount_cents as int
            } else {
                0
            });
        }
    }
}

/// Receivables add up: for an issued invoice within its amount, what was
/// paid and what is outstanding make up the amount.
pub proof fn law_receivables_add_up(ws: Workspace, id: u128, now: i64)
    requires
        within_invoices(ws),
        find_document(ws.documents@, id) matches Some(d) && issued_invoice(d),
    ensures
        ({
            let row = receivable_of(ws, find_document(ws.documents@, id)->0, now);
            row.5 + row.6 == row.4
        }),
{
    let d = find_document(ws.documents@, id)->0;
    assert(invoice_within(ws, id));
    lemma_find_document_id(ws.documents@, id);
    crate::business::lemma_paid_nonneg(ws.payments@, id);
    assert(paid_of(ws.payments@, d.id) <= invoice_total(d));
}

proof fn lemma_find_document_id(ds: Seq<Document>, id: u128)
    ensures
        find_document(ds, id) matches Some(d) ==> d.id == id,
    decreases ds.len(),
{
    if ds.len() > 0 && ds[0].id != id {
        lemma_find_document_id(ds.drop_first(), id);
    }
}

/// A project is closed only with every one of its tasks done, and a closed
/// project stays closed.
pub proof fn law_closing_needs_finished_tasks(
    old: Workspace,
    id: u128,
    status: ProjectStatus,
    at: i64,
    new: Workspace,
    r: Result<Vec<AuditEntry>, WorkspaceError>,
)
    requires
        project_status_set(old, id, status, at, new, r),
        project_index(old.projects@, id) < old.projects@.len(),
    ensures
        ({
            let k = project_index(old.projects@, id);
            &&& old.projects@[k].status != ProjectStatus::Done && new.projects@[k].status == ProjectStatus::Done
                ==> open_tasks(old.tasks@, id) == 0
            &&& old.projects@[k].status == ProjectStatus::Done ==> new.projects@[k].status == ProjectStatus::Done
        }),
{
}

/// An accepted offer makes its customer a customer: after the acceptance
/// is recorded the offer carries its date and the contact is no longer a
/// lead.
pub proof fn law_acceptance_promotes_the_customer(
    old: Workspace,
    id: u128,
    at: i64,
    new: Workspace,
    r: Result<Vec<AuditEntry>, WorkspaceError>,
)
    requires
        offer_accepted(old, id, at, new, r),
        r is Ok,
    ensures
        ({
            let k = document_index(old.documents@, id);
            let cid = old.documents@[k].customer_id;
            let ck = customer_index(old.customers@, cid);
            &&& new.documents@[k].accepted_at == Some(at)
            &&& new.customers@[ck].stage == CustomerStage::Customer
        }),
{
}

/// Every rule of the Singapore pack cites a source with an address, and a
/// rule is a demo rule exactly when the product itself is its authority.
pub proof fn law_every_rule_cites_its_source(p: RulePack)
    requires
        is_singapore_pack(p),
    ensures
        forall|i: int|
            0 <= i < p.rules@.len() ==> (#[trigger] p.rules@[i]).source.url@.len() > 0 && (p.rules@[i].basis@
                == "demo_rule"@ <==> p.rules@[i].source.authority@ == "Sovereign Founder OS"@),
{
    assert forall|i: int| 0 <= i < p.rules@.len() implies (#[trigger] p.rules@[i]).source.url@.len() > 0 && (
    p.rules@[i].basis@ == "demo_rule"@ <==> p.rules@[i].source.authority@ == "Sovereign Founder OS"@) by {
        reveal_strlit("ACRA");
        reveal_strlit("IRAS");
        reveal_strlit("PDPC");
        reveal_strlit("Sovereign Founder OS");
        reveal_strlit("demo_rule");
        reveal_strlit("https://github.com/IcantFind-a-username/Sovereign-Founder-OS/blob/main/docs/product/founder-os-execution-blueprint.zh-CN.md");
        reveal_strlit("https://www.acra.gov.sg/how-to-guides/holding-agms-and-filing-annual-returns");
        reveal_strlit("https://www.iras.gov.sg/digital-services/gst-invoicenow-requirement");
        reveal_strlit("https://www.iras.gov.sg/taxes/corporate-income-tax/basics-of-corporate-income-tax/record-keeping-requirements");
        reveal_strlit("https://www.iras.gov.sg/taxes/corporate-income-tax/filing-estimated-chargeable-income-(eci)");
        reveal_strlit("https://www.iras.gov.sg/taxes/corporate-income-tax/filing-form-c-s-c");
        reveal_strlit("https://www.iras.gov.sg/taxes/goods-services-tax-(gst)/basics-of-gst/invoicing-price-display-and-record-keeping");
        reveal_strlit("https://www.iras.gov.sg/taxes/goods-services-tax-(gst)/gst-registration-deregistration/do-i-need-to-register-for-gst");
        reveal_strlit("https://www.pdpc.gov.sg/overview-of-pdpa/data-protection/business-owner/data-protection-officers");
        reveal_strlit("https://www.pdpc.gov.sg/overview-of-pdpa/the-legislation/personal-data-protection-act");
        reveal_strlit("law_or_guidance");
        assert("demo_rule"@.len() == 9);
        assert("law_or_guidance"@.len() == 15);
        assert("Sovereign Founder OS"@.len() == 20);
        assert("IRAS"@.len() == 4);
        assert("ACRA"@.len() == 4);
        assert("PDPC"@.len() == 4);
        assert(p.rules@[i].source.url@ == crate::compliance_pack::sg_source_urls()[i]);
        assert(p.rules@[i].basis@ == crate::compliance_pack::sg_rule_bases()[i]);
        assert(p.rules@[i].source.authority@ == crate::compliance_pack::sg_source_authorities()[i]);
        if i == 0 {
            assert(crate::compliance_pack::sg_source_urls()[0] == "https://github.com/IcantFind-a-username/Sovereign-Founder-OS/blob/main/docs/product/founder-os-execution-blueprint.zh-CN.md"@);
            assert("https://github.com/IcantFind-a-username/Sovereign-Founder-OS/blob/main/docs/product/founder-os-execution-blueprint.zh-CN.md"@.len() > 0);
            assert(crate::compliance_pack::sg_rule_bases()[0] == "demo_rule"@);
            assert(crate::compliance_pack::sg_source_authorities()[0] == "Sovereign Founder OS"@);
        } else if i == 1 {
            assert(crate::compliance_pack::sg_source_urls()[1] == "https://www.iras.gov.sg/taxes/goods-services-tax-(gst)/gst-registration-deregistration/do-i-need-to-register-for-gst"@);
            assert("https://www.iras.gov.sg/taxes/goods-services-tax-(gst)/gst-registration-deregistration/do-i-need-to-register-for-gst"@.len() > 0);
            assert(crate::compliance_pack::sg_rule_bases()[1] == "law_or_guidance"@);
            assert(crate::compliance_pack::sg_source_authorities()[1] == "IRAS"@);
        } else if i == 2 {
            assert(crate::compliance_pack::sg_source_urls()[2] == "https://www.iras.gov.sg/taxes/goods-services-tax-(gst)/basics-of-gst/invoicing-price-display-and-record-keeping"@);
            assert("https://www.iras.gov.sg/taxes/goods-services-tax-(gst)/basics-of-gst/invoicing-price-display-and-record-keeping"@.len() > 0);
            assert(crate::compliance_pack::sg_rule_bases()[2] == "law_or_guidance"@);
            assert(crate::compliance_pack::sg_source_authorities()[2] == "IRAS"@);
        } else if i == 3 {
            assert(crate::compliance_pack::sg_source_urls()[3] == "https://www.iras.gov.sg/digital-services/gst-invoicenow-requirement"@);
            assert("https://www.iras.gov.sg/digital-services/gst-invoicenow-requirement"@.len() > 0);
            assert(crate::compliance_pack::sg_rule_bases()[3] == "law_or_guidance"@);
            assert(crate::compliance_pack::sg_source_authorities()[3] == "IRAS"@);
        } else if i == 4 {
            assert(crate::compliance_pack::sg_source_urls()[4] == "https://www.iras.gov.sg/taxes/corporate-income-tax/basics-of-corporate-income-tax/record-keeping-requirements"@);
            assert("https://www.iras.gov.sg/taxes/corporate-income-tax/basics-of-corporate-income-tax/record-keeping-requirements"@.len() > 0);
            assert(crate::compliance_pack::sg_rule_bases()[4] == "demo_rule"@);
            assert(crate::compliance_pack::sg_source_authorities()[4] == "Sovereign Founder OS"@);
        } else if i == 5 {
            assert(crate::compliance_pack::sg_source_urls()[5] == "https://www.iras.gov.sg/taxes/corporate-income-tax/filing-estimated-chargeable-income-(eci)"@);
            assert("https://www.iras.gov.sg/taxes/corporate-income-tax/filing-estimated-chargeable-income-(eci)"@.len() > 0);
            assert(crate::compliance_pack::sg_rule_bases()[5] == "law_or_guidance"@);
            assert(crate::compliance_pack::sg_source_authorities()[5] == "IRAS"@);
        } else if i == 6 {
            assert(crate::compliance_pack::sg_source_urls()[6] == "https://www.iras.gov.sg/taxes/corporate-income-tax/filing-form-c-s-c"@);
            assert("https://www.iras.gov.sg/taxes/corporate-income-tax/filing-form-c-s-c"@.len() > 0);
            assert(crate::compliance_pack::sg_rule_bases()[6] == "law_or_guidance"@);
            assert(crate::compliance_pack::sg_source_authorities()[6] == "IRAS"@);
        } else if i == 7 {
            assert(crate::compliance_pack::sg_source_urls()[7] == "https://www.acra.gov.sg/how-to-guides/holding-agms-and-filing-annual-returns"@);
            assert("https://www.acra.gov.sg/how-to-guides/holding-agms-and-filing-annual-returns"@.len() > 0);
            assert(crate::compliance_pack::sg_rule_bases()[7] == "law_or_guidance"@);
            assert(crate::compliance_pack::sg_source_authorities()[7] == "ACRA"@);
        } else if i == 8 {
            assert(crate::compliance_pack::sg_source_urls()[8] == "https://www.pdpc.gov.sg/overview-of-pdpa/the-legislation/personal-data-protection-act"@);
            assert("https://www.pdpc.gov.sg/overview-of-pdpa/the-legislation/personal-data-protection-act"@.len() > 0);
            assert(crate::compliance_pack::sg_rule_bases()[8] == "law_or_guidance"@);
            assert(crate::compliance_pack::sg_source_authorities()[8] == "PDPC"@);
        } else if i == 9 {
            assert(crate::compliance_pack::sg_source_urls()[9] == "https://www.pdpc.gov.sg/overview-of-pdpa/data-protection/business-owner/data-protection-officers"@);
            assert("https://www.pdpc.gov.sg/overview-of-pdpa/data-protection/business-owner/data-protection-officers"@.len() > 0);
            assert(crate::compliance_pack::sg_rule_bases()[9] == "law_or_guidance"@);
            assert(crate::compliance_pack::sg_source_authorities()[9] == "PDPC"@);
        } else if i == 10 {
            assert(crate::compliance_pack::sg_source_urls()[10] == "https://www.iras.gov.sg/taxes/corporate-income-tax/basics-of-corporate-income-tax/record-keeping-requirements"@);
            assert("https://www.iras.gov.sg/taxes/corporate-income-tax/basics-of-corporate-income-tax/record-keeping-requirements"@.len() > 0);
            assert(crate::compliance_pack::sg_rule_bases()[10] == "law_or_guidance"@);
            assert(crate::compliance_pack::sg_source_authorities()[10] == "IRAS"@);
        } else if i == 11 {
            assert(crate::compliance_pack::sg_source_urls()[11] == "https://github.com/IcantFind-a-username/Sovereign-Founder-OS/blob/main/docs/product/founder-os-execution-blueprint.zh-CN.md"@);
            assert("https://github.com/IcantFind-a-username/Sovereign-Founder-OS/blob/main/docs/product/founder-os-execution-blueprint.zh-CN.md"@.len() > 0);
            assert(crate::compliance_pack::sg_rule_bases()[11] == "demo_rule"@);
            assert(crate::compliance_pack::sg_source_authorities()[11] == "Sovereign Founder OS"@);
        } else if i == 12 {
            assert(crate::compliance_pack::sg_source_urls()[12] == "https://github.com/IcantFind-a-username/Sovereign-Founder-OS/blob/main/docs/product/founder-os-execution-blueprint.zh-CN.md"@);
            assert("https://github.com/IcantFind-a-username/Sovereign-Founder-OS/blob/main/docs/product/founder-os-execution-blueprint.zh-CN.md"@.len() > 0);
            assert(crate::compliance_pack::sg_rule_bases()[12] == "demo_rule"@);
            assert(crate::compliance_pack::sg_source_authorities()[12] == "Sovereign Founder OS"@);
        }
    }
}


/// An element that `f` keeps is in what `filter_map` gives.
proof fn lemma_filter_map_keeps<A, B>(s: Seq<A>, f: spec_fn(A) -> Option<B>, x: A)
    requires
        s.contains(x),
        f(x) is Some,
    ensures
        s.filter_map(f).contains(f(x)->0),
    decreases s.len(),
{
    let i = choose|i: int| 0 <= i < s.len() && s[i] == x;
    let rest = s.drop_last();
    if i == s.len() - 1 {
        assert(s.filter_map(f) == rest.filter_map(f) + seq![f(x)->0]);
        assert(s.filter_map(f)[s.filter_map(f).len() - 1] == f(x)->0);
    } else {
        assert(rest[i] == x);
        lemma_filter_map_keeps(rest, f, x);
        let k = choose|k: int| 0 <= k < rest.filter_map(f).len() && rest.filter_map(f)[k] == f(x)->0;
        match f(s.last()) {
            Some(y) => {
                assert(s.filter_map(f) == rest.filter_map(f) + seq![y]);
                assert(s.filter_map(f)[k] == f(x)->0);
            },
            None => {
                assert(s.filter_map(f) == rest.filter_map(f));
            },
        }
    }
}

/// The status of every receivable listed: "paid" once nothing is
/// outstanding; with money outstanding, "overdue" when its due date is
/// before now, whether or not part of it was paid; otherwise "partial"
/// once something was paid, and "open" when nothing was. What is
/// outstanding is the amount less what was paid, never below zero.
pub proof fn law_receivable_status(ws: Workspace, now: i64, k: int)
    requires
        sums_fit(ws),
        0 <= k < receivables_spec(ws, now).len(),
    ensures
        ({
            let row = receivables_spec(ws, now)[k];
            let (amount, paid, outstanding, status, due) = (row.4, row.5, row.6, row.7, row.8);
            let past_due = due matches Some(t) && t < now;
            &&& outstanding == (if amount >= paid { amount - paid } else { 0 })
            &&& (status == "paid"@) == (outstanding == 0)
            &&& (status == "overdue"@) == (outstanding > 0 && past_due)
            &&& (status == "partial"@) == (outstanding > 0 && !past_due && paid > 0)
            &&& (status == "open"@) == (outstanding > 0 && !past_due && paid == 0)
        }),
{
    let rows = receivables_spec(ws, now);
    let f = receivable_pick(ws, now);
    assert(rows.contains(rows[k]));
    ws.documents@.lemma_filter_map_contains(f, rows[k]);
    let d = choose|d: Document| #[trigger] ws.documents@.contains(d) && f(d) == Some(rows[k]);
    let j = choose|j: int| 0 <= j < ws.documents@.len() && ws.documents@[j] == d;
    assert(issued_invoice(ws.documents@[j]));
    assert(paid_of(ws.payments@, ws.documents@[j].id) <= u64::MAX);
    crate::business::lemma_paid_nonneg(ws.payments@, d.id);
    assert(rows[k] == receivable_of(ws, d, now));
    reveal_strlit("paid");
    reveal_strlit("overdue");
    reveal_strlit("partial");
    reveal_strlit("open");
    assert("paid"@[0] != "open"@[0]);
    assert("overdue"@[0] != "partial"@[0]);
    assert("paid"@.len() != "overdue"@.len());
    assert("paid"@.len() != "partial"@.len());
    assert("open"@.len() != "overdue"@.len());
    assert("open"@.len() != "partial"@.len());
}

/// Each receivable row is an issued invoice (approved or delivered): its
/// id, customer, due date and amount as recorded, and what was paid
/// against it.
pub proof fn law_receivable_rows_are_issued_invoices(ws: Workspace, now: i64, k: int)
    requires
        sums_fit(ws),
        0 <= k < receivables_spec(ws, now).len(),
    ensures
        exists|d: Document|
            #![trigger ws.documents@.contains(d)]
            ws.documents@.contains(d) && d.kind == DocumentKind::Invoice && (d.status
                == crate::types::DocumentStatus::ApprovedPendingDelivery || d.status
                == crate::types::DocumentStatus::Delivered) && receivables_spec(ws, now)[k].0 == d.id
                && receivables_spec(ws, now)[k].1 == d.customer_id && receivables_spec(ws, now)[k].8 == d.due_at
                && receivables_spec(ws, now)[k].4 == (match d.amount_cents {
                Some(a) => a,
                None => 0u64,
            }) && receivables_spec(ws, now)[k].5 == paid_of(ws.payments@, d.id),
{
    let rows = receivables_spec(ws, now);
    let f = receivable_pick(ws, now);
    assert(rows.contains(rows[k]));
    ws.documents@.lemma_filter_map_contains(f, rows[k]);
    let d = choose|d: Document| #[trigger] ws.documents@.contains(d) && f(d) == Some(rows[k]);
    let j = choose|j: int| 0 <= j < ws.documents@.len() && ws.documents@[j] == d;
    assert(issued_invoice(ws.documents@[j]));
    assert(paid_of(ws.payments@, ws.documents@[j].id) <= u64::MAX);
    crate::business::lemma_paid_nonneg(ws.payments@, d.id);
    assert(ws.documents@.contains(d));
}

/// Every issued invoice (approved or delivered) has its receivable row.
pub proof fn law_issued_invoices_are_receivables(ws: Workspace, now: i64, d: Document)
    requires
        ws.documents@.contains(d),
        d.kind == DocumentKind::Invoice,
        d.status == crate::types::DocumentStatus::ApprovedPendingDelivery || d.status
            == crate::types::DocumentStatus::Delivered,
    ensures
        receivables_spec(ws, now).contains(receivable_of(ws, d, now)),
{
    lemma_filter_map_keeps(ws.documents@, receivable_pick(ws, now), d);
}

/// The corporate income tax return finding of an incorporated company
/// calls for attention in September, October and November, the filing
/// window before the 30 November deadline, and passes in every other
/// month.
pub proof fn law_tax_return_window(rule: Rule, f: Facts, zh: bool)
    requires
        rule.check == CheckKind::CorporateTaxReturn,
        f.document is None,
    ensures
        rule_outcome(rule, f, zh) is Some,
        f.venture.incorporated_at is None ==> rule_outcome(rule, f, zh).unwrap().0 == FindingStatus::Unknown,
        f.venture.incorporated_at is Some ==> rule_outcome(rule, f, zh).unwrap().0 == (if f.today.month == 9
            || f.today.month == 10 || f.today.month == 11 {
            FindingStatus::Attention
        } else {
            FindingStatus::Pass
        }),
        f.venture.incorporated_at is Some && !zh && (f.today.month == 9 || f.today.month == 10
            || f.today.month == 11) ==> rule_outcome(rule, f, zh).unwrap().1
            == "The corporate income tax return is due by 30 November "@ + crate::checks::signed_decimal(
            f.today.year as int,
        ) + "."@,
{
}


/// The analyst offers to analyse a customer's discovery notes while the
/// notes say something and no live (pending or approved) analyst proposal
/// summarizes that customer: a rejected proposal leaves the suggestion in
/// place, and a live one removes it.
pub proof fn law_rejected_analyses_keep_the_suggestion(ws: Workspace, e: Employee, recent: bool, c: Customer)
    requires
        e.status == EmployeeStatus::Hired,
        e.role == RoleId::Analyst,
        ws.customers@.contains(c),
        trimmed(c.discovery_notes@).len() > 0,
        forall|i: int|
            0 <= i < ws.decisions@.len() && ws.decisions@[i].role == RoleId::Analyst && (
            #[trigger] ws.decisions@[i].change matches crate::crew_draft::ProposedChange::DiscoverySummary {
                customer_id,
                ..
            } && customer_id == c.id) ==> ws.decisions@[i].status == DecisionStatus::Rejected,
    ensures
        employee_suggestions(ws, e, recent).contains(
            (e.id, RoleId::Analyst, crate::crew_desk::RunSubjectRef { customer_id: Some(c.id), document_id: None, project_id: None }, c.name@, "analyse_discovery"@),
        ),
{
    let f = crate::crew_desk::analyst_pick(ws, e);
    assert(!crate::crew_desk::summarized(ws.decisions@, c.id));
    lemma_filter_map_keeps(ws.customers@, f, c);
}

/// A live analyst proposal about a customer, pending or approved, means
/// the analyst suggests nothing more about that customer.
pub proof fn law_live_analyses_silence_the_suggestion(ws: Workspace, e: Employee, recent: bool, i: int)
    requires
        e.role == RoleId::Analyst,
        0 <= i < ws.decisions@.len(),
        ws.decisions@[i].role == RoleId::Analyst,
        ws.decisions@[i].status != DecisionStatus::Rejected,
        ws.decisions@[i].change is DiscoverySummary,
    ensures
        forall|s| #[trigger] employee_suggestions(ws, e, recent).contains(s) ==> s.2.customer_id != Some(
            ws.decisions@[i].change->DiscoverySummary_customer_id,
        ),
{
    let cid = ws.decisions@[i].change->DiscoverySummary_customer_id;
    let f = crate::crew_desk::analyst_pick(ws, e);
    assert forall|s| #[trigger] employee_suggestions(ws, e, recent).contains(s) implies s.2.customer_id
        != Some(cid) by {
        if e.status == EmployeeStatus::Hired {
            ws.customers@.lemma_filter_map_contains(f, s);
            let c = choose|c: Customer| #[trigger] ws.customers@.contains(c) && f(c) == Some(s);
            if c.id == cid {
                assert(crate::crew_desk::summarized(ws.decisions@, c.id));
            }
        }
    }
}

/// The invoice clerk bills the accepted offer's amount whenever the
/// project has a positive one; the budget is billed only when there is no
/// offer amount at all; and with neither a positive offer amount nor (in
/// its absence) a positive budget it drafts nothing.
pub proof fn law_invoice_bills_the_offer_first(input: crate::crew_draft::RoleInput, r: Result<(crate::crew_draft::ProposedChange, String), WorkspaceError>)
    requires
        crate::crew_draft::drafted(input, r),
        input.role == RoleId::InvoiceClerk,
        input.customer is Some,
        input.project is Some,
    ensures
        ({
            let p = input.project.unwrap();
            &&& p.offer_amount_cents matches Some(a) ==> (a > 0 ==> (r matches Ok((
                crate::crew_draft::ProposedChange::InvoiceDraft { amount_cents, .. },
                _,
            )) && amount_cents == a))
            &&& (r matches Ok((
                crate::crew_draft::ProposedChange::InvoiceDraft { customer_id, project_id, due_in_days, .. },
                _,
            )) ==> customer_id == input.customer.unwrap().id && project_id == Some(p.id) && due_in_days == 30)
            &&& r is Ok ==> (r matches Ok((crate::crew_draft::ProposedChange::InvoiceDraft { .. }, _)))
            &&& p.offer_amount_cents == Some(0u64) ==> r is Err
            &&& p.offer_amount_cents is None ==> (p.budget_cents matches Some(b) ==> (b > 0 ==> (r matches Ok((
                crate::crew_draft::ProposedChange::InvoiceDraft { amount_cents, .. },
                _,
            )) && amount_cents == b)))
            &&& (p.offer_amount_cents is None && !(p.budget_cents matches Some(b) && b > 0)) ==> r is Err
        }),
{
}

/// Without an incorporation date the AGM and annual-return deadlines are
/// unknown; when no financial year has ended since incorporation there is
/// nothing to file yet.
pub proof fn law_annual_return_needs_a_finished_year(rule: Rule, f: Facts, zh: bool)
    requires
        rule.check == CheckKind::AnnualGeneralMeetingAndReturn,
        f.document is None,
    ensures
        rule_outcome(rule, f, zh) is Some,
        f.venture.incorporated_at is None ==> rule_outcome(rule, f, zh).unwrap().0 == FindingStatus::Unknown,
        f.venture.incorporated_at matches Some(at) ==> (date_lt(
            last_fye_spec(f.today, f.venture.fiscal_year_end_month),
            crate::checks::incorporated_day(at, f.today),
        ) ==> rule_outcome(rule, f, zh).unwrap().0 == FindingStatus::NotApplicable),
{
}

/// The AGM and annual-return finding for a year that has ended since
/// incorporation: the AGM is due six months and the annual return seven
/// months after the last financial year end, and the finding calls for
/// attention until the annual-return day has passed, after which it asks
/// to confirm the filing.
pub proof fn law_annual_return_deadline(rule: Rule, f: Facts, zh: bool)
    requires
        rule.check == CheckKind::AnnualGeneralMeetingAndReturn,
        f.document is None,
        crate::checks::today_ok(f.today),
        f.venture.incorporated_at matches Some(at) && !date_lt(
            last_fye_spec(f.today, f.venture.fiscal_year_end_month),
            crate::checks::incorporated_day(at, f.today),
        ),
    ensures
        ({
            let fye = last_fye_spec(f.today, f.venture.fiscal_year_end_month);
            let agm = crate::calendar::add_months_spec(fye, 6);
            let ar = crate::calendar::add_months_spec(fye, 7);
            &&& ar.year * 12 + ar.month == fye.year * 12 + fye.month + 7
            &&& agm.year * 12 + agm.month == fye.year * 12 + fye.month + 6
            &&& rule_outcome(rule, f, zh) is Some
            &&& rule_outcome(rule, f, zh).unwrap().0 == (if date_lt(ar, f.today) {
                FindingStatus::NeedsReview
            } else {
                FindingStatus::Attention
            })
            &&& !zh && !date_lt(ar, f.today) ==> rule_outcome(rule, f, zh).unwrap().1 == "For the year ended "@
                + crate::checks::dt(fye) + ": AGM by "@ + crate::checks::dt(agm) + " (unless exempt), annual return by "@
                + crate::checks::dt(ar) + "."@
            &&& !zh && date_lt(ar, f.today) ==> rule_outcome(rule, f, zh).unwrap().1
                == "The annual-return deadline for the year ended "@ + crate::checks::dt(fye) + " was "@
                + crate::checks::dt(ar) + "; confirm it was filed."@
        }),
{
    let fye = last_fye_spec(f.today, f.venture.fiscal_year_end_month);
    assert(1 <= fye.month <= 12);
    assert(f.today.year - 1 <= fye.year <= f.today.year);
    let agm = crate::calendar::add_months_spec(fye, 6);
    let ar = crate::calendar::add_months_spec(fye, 7);
    let t6 = (fye.month - 1) + 6;
    let t7 = (fye.month - 1) + 7;
    assert((fye.year + t7 / 12) * 12 + t7 % 12 + 1 == fye.year * 12 + fye.month + 7) by (nonlinear_arith)
        requires
            t7 == fye.month - 1 + 7,
            1 <= fye.month <= 12,
    ;
    assert((fye.year + t6 / 12) * 12 + t6 % 12 + 1 == fye.year * 12 + fye.month + 6) by (nonlinear_arith)
        requires
            t6 == fye.month - 1 + 6,
            1 <= fye.month <= 12,
    ;
    assert(ar.year == fye.year + t7 / 12);
    assert(agm.year == fye.year + t6 / 12);
}


/// The quality checker offers to check a draft while no live (pending or
/// approved) review of it stands: a rejected review leaves the suggestion.
pub proof fn law_rejected_reviews_keep_the_suggestion(ws: Workspace, e: Employee, recent: bool, d: Document)
    requires
        e.status == EmployeeStatus::Hired,
        e.role == RoleId::QualityChecker,
        ws.documents@.contains(d),
        d.status == crate::types::DocumentStatus::Draft,
        forall|i: int|
            0 <= i < ws.decisions@.len() && ws.decisions@[i].role == RoleId::QualityChecker && (
            #[trigger] ws.decisions@[i].change matches crate::crew_draft::ProposedChange::ReviewFindings {
                document_id,
                ..
            } && document_id == d.id) ==> ws.decisions@[i].status == DecisionStatus::Rejected,
    ensures
        employee_suggestions(ws, e, recent).contains(
            (e.id, RoleId::QualityChecker, crate::crew_desk::RunSubjectRef { customer_id: Some(d.customer_id), document_id: Some(d.id), project_id: None }, d.title@, "check_draft"@),
        ),
{
    assert(!crate::crew_desk::reviewed(ws.decisions@, d.id));
    lemma_filter_map_keeps(ws.documents@, crate::crew_desk::checker_pick(ws, e), d);
}

/// A live review of a document, pending or approved, means the quality
/// checker suggests nothing more about that document.
pub proof fn law_live_reviews_silence_the_suggestion(ws: Workspace, e: Employee, recent: bool, i: int)
    requires
        e.role == RoleId::QualityChecker,
        0 <= i < ws.decisions@.len(),
        ws.decisions@[i].role == RoleId::QualityChecker,
        ws.decisions@[i].status != DecisionStatus::Rejected,
        ws.decisions@[i].change is ReviewFindings,
    ensures
        forall|s| #[trigger] employee_suggestions(ws, e, recent).contains(s) ==> s.2.document_id != Some(
            ws.decisions@[i].change->ReviewFindings_document_id,
        ),
{
    let did = ws.decisions@[i].change->ReviewFindings_document_id;
    let f = crate::crew_desk::checker_pick(ws, e);
    assert forall|s| #[trigger] employee_suggestions(ws, e, recent).contains(s) implies s.2.document_id
        != Some(did) by {
        if e.status == EmployeeStatus::Hired {
            ws.documents@.lemma_filter_map_contains(f, s);
            let d = choose|d: Document| #[trigger] ws.documents@.contains(d) && f(d) == Some(s);
            if d.id == did {
                assert(crate::crew_desk::reviewed(ws.decisions@, d.id));
            }
        }
    }
}

/// The proposal writer offers a proposal for a customer with notes and no
/// offer yet, and never for a customer who has an offer.
pub proof fn law_writer_suggests_for_customers_without_offers(ws: Workspace, e: Employee, recent: bool, c: Customer)
    requires
        e.status == EmployeeStatus::Hired,
        e.role == RoleId::ProposalWriter,
        ws.customers@.contains(c),
    ensures
        (trimmed(c.discovery_notes@).len() > 0 || trimmed(c.notes@).len() > 0) && (forall|j: int|
            0 <= j < ws.documents@.len() && #[trigger] ws.documents@[j].customer_id == c.id
                ==> ws.documents@[j].kind != DocumentKind::Offer) ==> employee_suggestions(ws, e, recent).contains(
            (e.id, RoleId::ProposalWriter, crate::crew_desk::RunSubjectRef { customer_id: Some(c.id), document_id: None, project_id: None }, c.name@, "draft_proposal"@),
        ),
        (exists|j: int|
            0 <= j < ws.documents@.len() && #[trigger] ws.documents@[j].customer_id == c.id
                && ws.documents@[j].kind == DocumentKind::Offer) ==> forall|s| #[trigger] employee_suggestions(
            ws,
            e,
            recent,
        ).contains(s) ==> s.2.customer_id != Some(c.id),
{
    let f = crate::crew_desk::writer_pick(ws, e);
    if (trimmed(c.discovery_notes@).len() > 0 || trimmed(c.notes@).len() > 0) && (forall|j: int|
        0 <= j < ws.documents@.len() && #[trigger] ws.documents@[j].customer_id == c.id
            ==> ws.documents@[j].kind != DocumentKind::Offer) {
        assert(!crate::crew_desk::has_offer(ws.documents@, c.id));
        lemma_filter_map_keeps(ws.customers@, f, c);
    }
    assert forall|s| #[trigger] employee_suggestions(ws, e, recent).contains(s) && (exists|j: int|
        0 <= j < ws.documents@.len() && #[trigger] ws.documents@[j].customer_id == c.id
            && ws.documents@[j].kind == DocumentKind::Offer) implies s.2.customer_id != Some(c.id) by {
        ws.customers@.lemma_filter_map_contains(f, s);
        let c2 = choose|c2: Customer| #[trigger] ws.customers@.contains(c2) && f(c2) == Some(s);
        if c2.id == c.id {
            assert(crate::crew_desk::has_offer(ws.documents@, c.id));
        }
    }
}

/// The delivery planner offers to plan an accepted offer no project
/// delivers yet, and never one a project already delivers.
pub proof fn law_planner_suggests_undelivered_accepted_offers(ws: Workspace, e: Employee, recent: bool, d: Document)
    requires
        e.status == EmployeeStatus::Hired,
        e.role == RoleId::DeliveryPlanner,
        ws.documents@.contains(d),
    ensures
        d.kind == DocumentKind::Offer && d.accepted_at is Some && (forall|j: int|
            0 <= j < ws.projects@.len() ==> #[trigger] ws.projects@[j].offer_id != Some(d.id))
            ==> employee_suggestions(ws, e, recent).contains(
            (e.id, RoleId::DeliveryPlanner, crate::crew_desk::RunSubjectRef { customer_id: Some(d.customer_id), document_id: Some(d.id), project_id: None }, d.title@, "plan_delivery"@),
        ),
        (exists|j: int| 0 <= j < ws.projects@.len() && #[trigger] ws.projects@[j].offer_id == Some(d.id))
            ==> forall|s| #[trigger] employee_suggestions(ws, e, recent).contains(s) ==> s.2.document_id != Some(
            d.id,
        ),
{
    let f = crate::crew_desk::planner_pick(ws, e);
    if d.kind == DocumentKind::Offer && d.accepted_at is Some && (forall|j: int|
        0 <= j < ws.projects@.len() ==> #[trigger] ws.projects@[j].offer_id != Some(d.id)) {
        assert(!crate::crew_desk::delivered(ws.projects@, d.id));
        lemma_filter_map_keeps(ws.documents@, f, d);
    }
    assert forall|s| #[trigger] employee_suggestions(ws, e, recent).contains(s) && (exists|j: int|
        0 <= j < ws.projects@.len() && #[trigger] ws.projects@[j].offer_id == Some(d.id)) implies s.2.document_id
        != Some(d.id) by {
        ws.documents@.lemma_filter_map_contains(f, s);
        let d2 = choose|d2: Document| #[trigger] ws.documents@.contains(d2) && f(d2) == Some(s);
        if d2.id == d.id {
            assert(crate::crew_desk::delivered(ws.projects@, d.id));
        }
    }
}

/// The invoice clerk offers to invoice a finished project no invoice bills
/// yet, and never one an invoice already bills.
pub proof fn law_clerk_suggests_uninvoiced_finished_projects(ws: Workspace, e: Employee, recent: bool, p: crate::erp::Project)
    requires
        e.status == EmployeeStatus::Hired,
        e.role == RoleId::InvoiceClerk,
        ws.projects@.contains(p),
    ensures
        p.status == ProjectStatus::Done && (forall|j: int|
            0 <= j < ws.documents@.len() && ws.documents@[j].kind == DocumentKind::Invoice
                ==> #[trigger] ws.documents@[j].project_id != Some(p.id)) ==> employee_suggestions(ws, e, recent).contains(
            (e.id, RoleId::InvoiceClerk, crate::crew_desk::RunSubjectRef { customer_id: Some(p.customer_id), document_id: None, project_id: Some(p.id) }, p.name@, "raise_invoice"@),
        ),
        (exists|j: int|
            0 <= j < ws.documents@.len() && ws.documents@[j].kind == DocumentKind::Invoice
                && #[trigger] ws.documents@[j].project_id == Some(p.id)) ==> forall|s| #[trigger] employee_suggestions(
            ws,
            e,
            recent,
        ).contains(s) ==> s.2.project_id != Some(p.id),
{
    let f = crate::crew_desk::clerk_pick(ws, e);
    if p.status == ProjectStatus::Done && (forall|j: int|
        0 <= j < ws.documents@.len() && ws.documents@[j].kind == DocumentKind::Invoice
            ==> #[trigger] ws.documents@[j].project_id != Some(p.id)) {
        assert(!crate::crew_desk::invoiced(ws.documents@, p.id));
        lemma_filter_map_keeps(ws.projects@, f, p);
    }
    assert forall|s| #[trigger] employee_suggestions(ws, e, recent).contains(s) && (exists|j: int|
        0 <= j < ws.documents@.len() && ws.documents@[j].kind == DocumentKind::Invoice
            && #[trigger] ws.documents@[j].project_id == Some(p.id)) implies s.2.project_id != Some(p.id) by {
        ws.projects@.lemma_filter_map_contains(f, s);
        let p2 = choose|p2: crate::erp::Project| #[trigger] ws.projects@.contains(p2) && f(p2) == Some(s);
        if p2.id == p.id {
            assert(crate::crew_desk::invoiced(ws.documents@, p.id));
        }
    }
}


/// Every employee's suggestions are among everyone's, and the Today view
/// lists all of them whenever there are at most twenty.
pub proof fn law_every_suggestion_is_listed(
    ws: Workspace,
    es: Seq<Employee>,
    recent: bool,
    e: Employee,
    x: (u128, RoleId, RunSubjectRef, Seq<char>, Seq<char>),
)
    requires
        es.contains(e),
        employee_suggestions(ws, e, recent).contains(x),
    ensures
        crate::crew_desk::all_suggestions(ws, es, recent).contains(x),
        crate::crew_desk::all_suggestions(ws, es, recent).len() <= 20 ==> crate::crew_desk::capped(
            crate::crew_desk::all_suggestions(ws, es, recent),
        ).contains(x),
    decreases es.len(),
{
    let all = crate::crew_desk::all_suggestions(ws, es, recent);
    let rest = crate::crew_desk::all_suggestions(ws, es.drop_last(), recent);
    let mine = employee_suggestions(ws, es.last(), recent);
    assert(all == rest + mine);
    if es.last() == e {
        let j = choose|j: int| 0 <= j < mine.len() && mine[j] == x;
        assert(all[rest.len() + j] == x);
    } else {
        let i = choose|i: int| 0 <= i < es.len() && es[i] == e;
        assert(es.drop_last()[i] == e);
        law_every_suggestion_is_listed(ws, es.drop_last(), recent, e, x);
        let j = choose|j: int| 0 <= j < rest.len() && rest[j] == x;
        assert(all[j] == x);
    }
}


/// Each role drafts about the subject it was given, and only when it has
/// one: the analyst, the proposal writer and the delivery planner need a
/// customer and draft for that customer (the planner for the given offer
/// and project); the invoice clerk needs a customer and a project; the
/// quality checker needs a draft and reviews that draft; the compliance
/// checker drafts nothing here.
pub proof fn law_drafts_follow_their_subject(
    input: crate::crew_draft::RoleInput,
    r: Result<(crate::crew_draft::ProposedChange, String), WorkspaceError>,
)
    requires
        crate::crew_draft::drafted(input, r),
    ensures
        input.role == RoleId::Analyst ==> (r is Ok <==> input.customer is Some),
        input.role == RoleId::Analyst && r is Ok ==> (r matches Ok((crate::crew_draft::ProposedChange::DiscoverySummary { customer_id, .. }, _))
            && customer_id == input.customer.unwrap().id),
        input.role == RoleId::ProposalWriter ==> (r is Ok <==> input.customer is Some),
        input.role == RoleId::ProposalWriter && r is Ok ==> (r matches Ok((crate::crew_draft::ProposedChange::OfferDraft { customer_id, .. }, _))
            && customer_id == input.customer.unwrap().id),
        input.role == RoleId::DeliveryPlanner ==> (r is Ok <==> input.customer is Some),
        input.role == RoleId::DeliveryPlanner && r is Ok ==> (r matches Ok((
            crate::crew_draft::ProposedChange::DeliveryPlan { customer_id, offer_id, project_id, .. },
            _,
        )) && customer_id == input.customer.unwrap().id && offer_id == (match input.document {
            Some(d) => Some(d.id),
            None => None,
        }) && project_id == (match input.project {
            Some(p) => Some(p.id),
            None => None,
        })),
        input.role == RoleId::InvoiceClerk && r is Ok ==> input.customer is Some && input.project is Some,
        input.role == RoleId::QualityChecker ==> (r is Ok <==> input.document is Some),
        input.role == RoleId::QualityChecker && r is Ok ==> (r matches Ok((
            crate::crew_draft::ProposedChange::ReviewFindings { document_id, .. },
            _,
        )) && document_id == input.document.unwrap().id),
        input.role == RoleId::ComplianceChecker ==> r is Err,
{
}


/// The ECI finding: unknown without an incorporation date; nothing to file
/// before a financial year has ended since incorporation; otherwise ECI is
/// due three months after the last financial year end, and the finding
/// calls for attention until that day has passed, then asks to confirm.
pub proof fn law_eci_deadline(rule: Rule, f: Facts, zh: bool)
    requires
        rule.check == CheckKind::EstimatedChargeableIncome,
        f.document is None,
        crate::checks::today_ok(f.today),
    ensures
        rule_outcome(rule, f, zh) is Some,
        f.venture.incorporated_at is None ==> rule_outcome(rule, f, zh).unwrap().0 == FindingStatus::Unknown,
        ({
            let fye = last_fye_spec(f.today, f.venture.fiscal_year_end_month);
            let due = crate::calendar::add_months_spec(fye, 3);
            &&& due.year * 12 + due.month == fye.year * 12 + fye.month + 3
            &&& f.venture.incorporated_at matches Some(at) ==> (date_lt(fye, crate::checks::incorporated_day(at, f.today))
                ==> rule_outcome(rule, f, zh).unwrap().0 == FindingStatus::NotApplicable)
            &&& f.venture.incorporated_at matches Some(at) ==> (!date_lt(fye, crate::checks::incorporated_day(at, f.today))
                ==> rule_outcome(rule, f, zh).unwrap().0 == (if date_lt(due, f.today) {
                FindingStatus::NeedsReview
            } else {
                FindingStatus::Attention
            }))
        }),
{
    let fye = last_fye_spec(f.today, f.venture.fiscal_year_end_month);
    assert(1 <= fye.month <= 12);
    assert(f.today.year - 1 <= fye.year <= f.today.year);
    let t3 = (fye.month - 1) + 3;
    assert((fye.year + t3 / 12) * 12 + t3 % 12 + 1 == fye.year * 12 + fye.month + 3) by (nonlinear_arith)
        requires
            t3 == fye.month - 1 + 3,
            1 <= fye.month <= 12,
    ;
}

} // verus!
