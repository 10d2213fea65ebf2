//! AI employees: the roles a founder can hire, what each may read and must
//! deliver, and the bounded text a model's answer must fit before it can
//! become a proposal. An employee never changes business state itself.
use vstd::prelude::*;

use crate::text::{no_control_but, has_no_control_but, decimal, two_digits, push_decimal, push_two_digits, is_digit, has_sub, contains_str, lowercase_of, lower_chars, split_by, split_pieces, strings_of, views, chars_of, control, owned, push_all, push_str, string_of, string_views, trim, trimmed};

verus! {

/// The first roster. One model can serve every role; roles differ in what
/// they may read, what they must produce, and what they cannot decide.
#[derive(Debug, Clone, Copy, PartialEq, Eq, Hash, Structural)]
pub enum RoleId {
    /// Turns discovery notes into problems, constraints, budget, questions.
    Analyst,
    /// Drafts a versioned proposal with scope, amount, and assumptions.
    ProposalWriter,
    /// Turns an accepted offer into a project with tasks and acceptance criteria.
    DeliveryPlanner,
    /// Raises an invoice draft for finished work.
    InvoiceClerk,
    /// Finds gaps, contradictions, and placeholders in a draft.
    QualityChecker,
    /// Runs the jurisdiction rule pack and cites its sources.
    ComplianceChecker,
}

/// Every role, in roster order.
pub open spec fn all_roles() -> Seq<RoleId> {
    seq![RoleId::Analyst, RoleId::ProposalWriter, RoleId::DeliveryPlanner, RoleId::InvoiceClerk, RoleId::QualityChecker, RoleId::ComplianceChecker]
}

/// The stable name of a role.
pub open spec fn role_name(role: RoleId) -> Seq<char> {
    match role {
        RoleId::Analyst => "analyst"@,
        RoleId::ProposalWriter => "proposal_writer"@,
        RoleId::DeliveryPlanner => "delivery_planner"@,
        RoleId::InvoiceClerk => "invoice_clerk"@,
        RoleId::QualityChecker => "quality_checker"@,
        RoleId::ComplianceChecker => "compliance_checker"@,
    }
}

impl RoleId {
    /// Every role, in roster order.
    pub fn all() -> (r: [RoleId; 6])
        ensures
            r@ == all_roles(),
    {
        let r = [RoleId::Analyst, RoleId::ProposalWriter, RoleId::DeliveryPlanner, RoleId::InvoiceClerk, RoleId::QualityChecker, RoleId::ComplianceChecker];
        assert(r@ =~= all_roles());
        r
    }

    pub fn as_str(self) -> (r: &'static str)
        ensures
            r@ == role_name(self),
    {
        match self {
            RoleId::Analyst => "analyst",
            RoleId::ProposalWriter => "proposal_writer",
            RoleId::DeliveryPlanner => "delivery_planner",
            RoleId::InvoiceClerk => "invoice_clerk",
            RoleId::QualityChecker => "quality_checker",
            RoleId::ComplianceChecker => "compliance_checker",
        }
    }

    /// The role whose stable name is `text`.
    pub fn parse(text: &str) -> (r: Option<RoleId>)
        ensures
            r matches Some(role) ==> role_name(role) == text@,
            r is None ==> forall|role: RoleId| role_name(role) != text@,
    {
        let all = RoleId::all();
        let wanted = chars_of(text);
        let mut i: usize = 0;
        while i < 6
            invariant
                all@ == all_roles(),
                wanted@ == text@,
                i <= 6,
                forall|k: int| 0 <= k < i ==> role_name(all_roles()[k]) != text@,
            decreases 6 - i,
        {
            let role = all[i];
            let name = chars_of(role.as_str());
            if crate::compliance::vec_eq(&name, &wanted) {
                return Some(role);
            }
            i += 1;
        }
        proof {
            assert forall|role: RoleId| role_name(role) != text@ by {
                match role {
                    RoleId::Analyst => { assert(all_roles()[0] == role); },
                    RoleId::ProposalWriter => { assert(all_roles()[1] == role); },
                    RoleId::DeliveryPlanner => { assert(all_roles()[2] == role); },
                    RoleId::InvoiceClerk => { assert(all_roles()[3] == role); },
                    RoleId::QualityChecker => { assert(all_roles()[4] == role); },
                    RoleId::ComplianceChecker => { assert(all_roles()[5] == role); },
                }
            }
        }
        None
    }
}

/// The role card shown when hiring: what the employee reads, delivers, and
/// can never decide on its own. Static product copy, bilingual.
#[derive(Debug, Clone, Copy)]
pub struct RoleCard {
    pub id: RoleId,
    pub title_en: &'static str,
    pub title_zh: &'static str,
    pub description_en: &'static str,
    pub description_zh: &'static str,
    pub reads: &'static str,
    pub delivers: &'static str,
    pub cannot: &'static str,
}

/// The card copy of each role, field by field.
pub open spec fn card_copy(role: RoleId) -> Seq<Seq<char>> {
    match role {
        RoleId::Analyst => seq![
            "Requirements Analyst"@,
            "需求分析员"@,
            "Turns your discovery notes about a lead into problems, constraints, budget, open questions, and stated assumptions."@,
            "把你记录的客户需求整理成问题、约束、预算、待澄清点和明确标注的假设。"@,
            "the customer's notes and discovery notes; your company profile"@,
            "a discovery summary appended to the customer's discovery notes after you approve it"@,
            "turn a guess into a customer-confirmed fact"@,
        ],
        RoleId::ProposalWriter => seq![
            "Proposal Writer"@,
            "报价助理"@,
            "Drafts a proposal with scope, deliverables, timeline, an amount, and assumptions from the discovery summary."@,
            "根据需求整理结果起草方案：范围、交付物、周期、金额和假设。"@,
            "the customer's discovery summary and notes; your service description"@,
            "a draft offer you can edit, then send through the usual approval"@,
            "promise a price or date to the customer, or send anything"@,
        ],
        RoleId::DeliveryPlanner => seq![
            "Delivery Planner"@,
            "交付规划员"@,
            "Turns an accepted offer into a project with dated tasks and acceptance criteria."@,
            "把已接受的报价变成项目、带日期的任务和验收标准。"@,
            "the accepted offer and the customer's discovery summary"@,
            "a project plan you approve before any task exists"@,
            "change the agreed scope or mark work as done"@,
        ],
        RoleId::InvoiceClerk => seq![
            "Invoice Clerk"@,
            "账务助理"@,
            "Raises an invoice draft for a finished project, with a due date and the amount from the offer or budget."@,
            "为已完成的项目起草发票，含到期日和来自报价或预算的金额。"@,
            "the finished project, its offer amount, and your registration facts"@,
            "a draft invoice you review and send through the usual approval"@,
            "issue, send, or collect anything"@,
        ],
        RoleId::QualityChecker => seq![
            "Quality Checker"@,
            "质量检查员"@,
            "Reads a draft and lists gaps, contradictions, placeholders, and risks before you send it."@,
            "检查草稿，列出缺项、矛盾、占位符和风险。"@,
            "one draft document and the customer it is for"@,
            "findings you acknowledge; the draft itself is never edited"@,
            "approve on your behalf or grant any other employee authority"@,
        ],
        RoleId::ComplianceChecker => seq![
            "Compliance Checker"@,
            "合规检查员"@,
            "Runs the jurisdiction rule pack against your company and invoices, citing every rule's source and flagging what needs a professional."@,
            "用地区规则包检查公司资料和发票，逐条引用来源，标出需要专业人士复核的地方。"@,
            "your registration facts, customers' locations, and issued invoices"@,
            "a report with pass / attention / needs-review findings and citations"@,
            "declare anything fully compliant, or replace a licensed professional"@,
        ],
    }
}

/// `card` is the card of `role`.
pub open spec fn is_card_of(card: RoleCard, role: RoleId) -> bool {
    &&& card.id == role
    &&& card.title_en@ == card_copy(role)[0]
    &&& card.title_zh@ == card_copy(role)[1]
    &&& card.description_en@ == card_copy(role)[2]
    &&& card.description_zh@ == card_copy(role)[3]
    &&& card.reads@ == card_copy(role)[4]
    &&& card.delivers@ == card_copy(role)[5]
    &&& card.cannot@ == card_copy(role)[6]
}

/// The hiring card of one role.
pub fn role_card(id: RoleId) -> (c: RoleCard)
    ensures
        is_card_of(c, id),
{
    match id {
        RoleId::Analyst => RoleCard {
            id,
            title_en: "Requirements Analyst",
            title_zh: "需求分析员",
            description_en: "Turns your discovery notes about a lead into problems, constraints, budget, open questions, and stated assumptions.",
            description_zh: "把你记录的客户需求整理成问题、约束、预算、待澄清点和明确标注的假设。",
            reads: "the customer's notes and discovery notes; your company profile",
            delivers: "a discovery summary appended to the customer's discovery notes after you approve it",
            cannot: "turn a guess into a customer-confirmed fact",
        },
        RoleId::ProposalWriter => RoleCard {
            id,
            title_en: "Proposal Writer",
            title_zh: "报价助理",
            description_en: "Drafts a proposal with scope, deliverables, timeline, an amount, and assumptions from the discovery summary.",
            description_zh: "根据需求整理结果起草方案：范围、交付物、周期、金额和假设。",
            reads: "the customer's discovery summary and notes; your service description",
            delivers: "a draft offer you can edit, then send through the usual approval",
            cannot: "promise a price or date to the customer, or send anything",
        },
        RoleId::DeliveryPlanner => RoleCard {
            id,
            title_en: "Delivery Planner",
            title_zh: "交付规划员",
            description_en: "Turns an accepted offer into a project with dated tasks and acceptance criteria.",
            description_zh: "把已接受的报价变成项目、带日期的任务和验收标准。",
            reads: "the accepted offer and the customer's discovery summary",
            delivers: "a project plan you approve before any task exists",
            cannot: "change the agreed scope or mark work as done",
        },
        RoleId::InvoiceClerk => RoleCard {
            id,
            title_en: "Invoice Clerk",
            title_zh: "账务助理",
            description_en: "Raises an invoice draft for a finished project, with a due date and the amount from the offer or budget.",
            description_zh: "为已完成的项目起草发票，含到期日和来自报价或预算的金额。",
            reads: "the finished project, its offer amount, and your registration facts",
            delivers: "a draft invoice you review and send through the usual approval",
            cannot: "issue, send, or collect anything",
        },
        RoleId::QualityChecker => RoleCard {
            id,
            title_en: "Quality Checker",
            title_zh: "质量检查员",
            description_en: "Reads a draft and lists gaps, contradictions, placeholders, and risks before you send it.",
            description_zh: "检查草稿，列出缺项、矛盾、占位符和风险。",
            reads: "one draft document and the customer it is for",
            delivers: "findings you acknowledge; the draft itself is never edited",
            cannot: "approve on your behalf or grant any other employee authority",
        },
        RoleId::ComplianceChecker => RoleCard {
            id,
            title_en: "Compliance Checker",
            title_zh: "合规检查员",
            description_en: "Runs the jurisdiction rule pack against your company and invoices, citing every rule's source and flagging what needs a professional.",
            description_zh: "用地区规则包检查公司资料和发票，逐条引用来源，标出需要专业人士复核的地方。",
            reads: "your registration facts, customers' locations, and issued invoices",
            delivers: "a report with pass / attention / needs-review findings and citations",
            cannot: "declare anything fully compliant, or replace a licensed professional",
        },
    }
}

/// Every role's card, in roster order.
pub fn role_cards() -> (r: Vec<RoleCard>)
    ensures
        r@.len() == 6,
        forall|i: int| 0 <= i < 6 ==> is_card_of(#[trigger] r@[i], all_roles()[i]),
{
    let all = RoleId::all();
    let mut r: Vec<RoleCard> = Vec::new();
    let mut i: usize = 0;
    while i < 6
        invariant
            all@ == all_roles(),
            i <= 6,
            r@.len() == i,
            forall|k: int| 0 <= k < i ==> is_card_of(#[trigger] r@[k], all_roles()[k]),
        decreases 6 - i,
    {
        r.push(role_card(all[i]));
        i += 1;
    }
    r
}

#[derive(Debug, Clone, Copy, PartialEq, Eq, Structural)]
pub enum EmployeeStatus {
    Hired,
    Paused,
}

#[derive(Debug, Clone, Copy, PartialEq, Eq, Structural)]
pub enum DecisionStatus {
    Pending,
    Approved,
    Rejected,
}

#[derive(Debug, Clone)]
pub struct PlannedTask {
    pub title: String,
    pub due_in_days: u32,
}

#[derive(Debug, Clone)]
pub struct ReviewFinding {
    /// `gap`, `contradiction`, `placeholder`, or `risk`.
    pub kind: String,
    pub detail: String,
}

} // verus!

verus! {

/// The same cap bounds a model's list and a template's.
pub const MAX_LIST_ITEMS: usize = 12;

pub const MAX_ITEM_CHARS: usize = 2_000;

pub const MAX_MODEL_BODY_CHARS: usize = 16_000;

/// Why a model's answer was not used: a category, never the text.
#[derive(Debug, Clone, Copy, PartialEq, Eq)]
pub enum Rejection {
    /// Nothing that could be a JSON object.
    NotJson,
    /// The answer stopped part-way.
    Truncated,
    /// Valid JSON, but not the shape the schema asked for.
    WrongShape,
    /// The shape was right and this field was not usable.
    Field(&'static str),
    /// A list was empty where one entry is required, or past its cap.
    ListSize(&'static str),
    /// The facts needed to place the answer were not loaded.
    MissingSubject(&'static str),
    /// This role composes its answer elsewhere and has no parser here.
    NoModelPath,
}

/// The stable code of a rejection, as stored in the owner's records.
pub open spec fn rejection_code(r: Rejection) -> Seq<char> {
    match r {
        Rejection::NotJson => "not_json"@,
        Rejection::Truncated => "truncated"@,
        Rejection::WrongShape => "wrong_shape"@,
        Rejection::Field(name) => "field:"@ + name@,
        Rejection::ListSize(name) => "list_size:"@ + name@,
        Rejection::MissingSubject(name) => "missing_subject:"@ + name@,
        Rejection::NoModelPath => "no_model_path"@,
    }
}

impl Rejection {
    /// A stable code for storage and for the interface to translate.
    pub fn code(self) -> (r: String)
        ensures
            r@ == rejection_code(self),
    {
        match self {
            Rejection::NotJson => owned("not_json"),
            Rejection::Truncated => owned("truncated"),
            Rejection::WrongShape => owned("wrong_shape"),
            Rejection::Field(name) => {
                let mut s = owned("field:");
                push_str(&mut s, name);
                s
            },
            Rejection::ListSize(name) => {
                let mut s = owned("list_size:");
                push_str(&mut s, name);
                s
            },
            Rejection::MissingSubject(name) => {
                let mut s = owned("missing_subject:");
                push_str(&mut s, name);
                s
            },
            Rejection::NoModelPath => owned("no_model_path"),
        }
    }
}

/// A model-written list item or title: trimmed, non-empty, at most
/// `MAX_ITEM_CHARS` characters, no control character but a newline.
pub open spec fn clean_item_spec(text: Seq<char>) -> Option<Seq<char>> {
    let t = trimmed(text);
    if t.len() == 0 || t.len() > MAX_ITEM_CHARS || !no_control_but(t, true, false) {
        None
    } else {
        Some(t)
    }
}

/// A model-written body: trimmed, non-empty, at most
/// `MAX_MODEL_BODY_CHARS` characters, no control character but a newline or
/// a tab.
pub open spec fn clean_long_spec(text: Seq<char>) -> Option<Seq<char>> {
    let t = trimmed(text);
    if t.len() == 0 || t.len() > MAX_MODEL_BODY_CHARS || !no_control_but(t, true, true) {
        None
    } else {
        Some(t)
    }
}

pub fn clean_item(text: &str) -> (r: Option<String>)
    ensures
        r is Some == clean_item_spec(text@) is Some,
        r matches Some(s) ==> clean_item_spec(text@) == Some(s@),
{
    let t = trim(&chars_of(text));
    if t.len() == 0 || t.len() > MAX_ITEM_CHARS || !has_no_control_but(&t, true, false) {
        return None;
    }
    Some(string_of(&t))
}

pub fn clean_long(text: &str) -> (r: Option<String>)
    ensures
        r is Some == clean_long_spec(text@) is Some,
        r matches Some(s) ==> clean_long_spec(text@) == Some(s@),
{
    let t = trim(&chars_of(text));
    if t.len() == 0 || t.len() > MAX_MODEL_BODY_CHARS || !has_no_control_but(&t, true, true) {
        return None;
    }
    Some(string_of(&t))
}

/// A model-written list: at most `MAX_LIST_ITEMS` items, each clean.
pub fn clean_list(items: Vec<String>) -> (r: Option<Vec<String>>)
    ensures
        r is Some <==> (items@.len() <= MAX_LIST_ITEMS && forall|i: int|
            0 <= i < items@.len() ==> clean_item_spec((#[trigger] items@[i])@) is Some),
        r matches Some(v) ==> v@.len() == items@.len() && forall|i: int|
            0 <= i < items@.len() ==> clean_item_spec((#[trigger] items@[i])@) == Some(v@[i]@),
{
    if items.len() > MAX_LIST_ITEMS {
        return None;
    }
    let mut out: Vec<String> = Vec::new();
    let mut i: usize = 0;
    while i < items.len()
        invariant
            i <= items@.len(),
            out@.len() == i,
            forall|k: int| 0 <= k < i ==> clean_item_spec((#[trigger] items@[k])@) == Some(out@[k]@),
        decreases items@.len() - i,
    {
        match clean_item(items[i].as_str()) {
            Some(s) => {
                out.push(s);
            },
            None => {
                return None;
            },
        }
        i += 1;
    }
    Some(out)
}

/// The due time a model's invoice gets when it names none.
pub fn default_due() -> (r: u32)
    ensures
        r == 30,
{
    30
}

} // verus!

verus! {

/// A sentence boundary: `.`, newline, `;`, `!`, `?` and their full-width
/// forms, and the ideographic full stop.
pub open spec fn sentence_end(c: char) -> bool {
    c == '.' || c == '\n' || c == ';' || c == '。' || c == '；' || c == '!' || c == '！' || c == '?'
        || c == '？'
}

/// The trimmed pieces between sentence boundaries that hold at least four
/// characters, in order.
pub open spec fn sentences_of(pieces: Seq<Seq<char>>) -> Seq<Seq<char>>
    decreases pieces.len(),
{
    if pieces.len() == 0 {
        Seq::empty()
    } else if trimmed(pieces.last()).len() >= 4 {
        sentences_of(pieces.drop_last()).push(trimmed(pieces.last()))
    } else {
        sentences_of(pieces.drop_last())
    }
}

pub open spec fn split_sentences_spec(text: Seq<char>) -> Seq<Seq<char>> {
    sentences_of(split_by(text, |c: char| sentence_end(c)))
}

fn sentence_end_exec(c: char) -> (r: bool)
    ensures
        r == sentence_end(c),
{
    c == '.' || c == '\n' || c == ';' || c == '。' || c == '；' || c == '!' || c == '！' || c == '?'
        || c == '？'
}

fn split_sentence_chars(v: &Vec<char>) -> (r: Vec<Vec<char>>)
    ensures
        views(r@) == split_sentences_spec(v@),
{
    let pieces = split_pieces(v, sentence_end_exec, Ghost(|c: char| sentence_end(c)));
    let mut out: Vec<Vec<char>> = Vec::new();
    let mut i: usize = 0;
    while i < pieces.len()
        invariant
            i <= pieces.len(),
            views(pieces@) == split_by(v@, |c: char| sentence_end(c)),
            views(out@) == sentences_of(views(pieces@).take(i as int)),
        decreases pieces.len() - i,
    {
        assert(views(pieces@).take(i + 1).drop_last() =~= views(pieces@).take(i as int));
        assert(views(pieces@)[i as int] == pieces@[i as int]@);
        let t = trim(&pieces[i]);
        if t.len() >= 4 {
            let ghost before = views(out@);
            out.push(t);
            assert(views(out@) =~= before.push(trimmed(pieces@[i as int]@)));
        }
        i += 1;
    }
    assert(views(pieces@).take(i as int) =~= views(pieces@));
    out
}

/// The sentences of a text: split on sentence boundaries, trimmed, and
/// only those of at least four characters.
pub fn split_sentences(text: &str) -> (r: Vec<String>)
    ensures
        string_views(r@) == split_sentences_spec(text@),
{
    let v = chars_of(text);
    let s = split_sentence_chars(&v);
    strings_of(&s)
}

} // verus!

verus! {

/// Scanner state for amounts: numbers kept so far, digits in the number
/// being read, and its value.
pub type NumScan = (Seq<int>, nat, nat);

/// A number counts as an amount when it is 100 to 100,000,000 whole units
/// and does not look like a year (1900 to 2100).
pub open spec fn amount_like(v: nat) -> bool {
    100 <= v <= 100_000_000 && !(1900 <= v <= 2100)
}

/// One step over character `c`: digits accumulate, a comma inside a number
/// is skipped, anything else ends the number.
pub open spec fn num_step(st: NumScan, c: char) -> NumScan {
    if is_digit(c) {
        (st.0, st.1 + 1, st.2 * 10 + ((c as u32) - 48) as nat)
    } else if c == ',' && st.1 > 0 {
        st
    } else if st.1 > 0 {
        (
            if amount_like(st.2) {
                st.0.push(st.2 as int)
            } else {
                st.0
            },
            0,
            0,
        )
    } else {
        st
    }
}

pub open spec fn num_scan(s: Seq<char>) -> NumScan
    decreases s.len(),
{
    if s.len() == 0 {
        (Seq::empty(), 0, 0)
    } else {
        num_step(num_scan(s.drop_last()), s.last())
    }
}

/// The amounts written in one sentence, in order.
pub open spec fn amounts_in(sentence: Seq<char>) -> Seq<int> {
    num_scan(sentence.push(' ')).0
}

/// The money markers: a sentence mentioning none of them is not read.
pub open spec fn money_markers() -> Seq<Seq<char>> {
    seq!["$"@, "sgd"@, "usd"@, "eur"@, "budget"@, "price"@, "fee"@, "预算"@, "报价"@]
}

pub open spec fn mentions_money(lower: Seq<char>) -> bool {
    exists|i: int| 0 <= i < money_markers().len() && has_sub(lower, #[trigger] money_markers()[i])
}

/// The amounts of every sentence that mentions money, in order.
pub open spec fn budget_amounts(sentences: Seq<Seq<char>>) -> Seq<int>
    decreases sentences.len(),
{
    if sentences.len() == 0 {
        Seq::empty()
    } else if mentions_money(lowercase_of(sentences.last())) {
        budget_amounts(sentences.drop_last()) + amounts_in(sentences.last())
    } else {
        budget_amounts(sentences.drop_last())
    }
}

/// The budget of a text, in cents: no amount, none; one, that amount; two or
/// more, the midpoint of the first two, in whole units.
pub open spec fn budget_midpoint_spec(text: Seq<char>) -> Option<u64> {
    let a = budget_amounts(split_sentences_spec(text));
    if a.len() == 0 {
        None
    } else if a.len() == 1 {
        Some((a[0] * 100) as u64)
    } else {
        Some((((a[0] + a[1]) / 2) * 100) as u64)
    }
}

fn mentions_money_exec(lower: &Vec<char>) -> (r: bool)
    ensures
        r == mentions_money(lower@),
{
    let markers: [&str; 9] = ["$", "sgd", "usd", "eur", "budget", "price", "fee", "预算", "报价"];
    let mut i: usize = 0;
    while i < 9
        invariant
            i <= 9,
            forall|k: int| 0 <= k < 9 ==> (#[trigger] markers@[k])@ == money_markers()[k],
            forall|k: int| 0 <= k < i ==> !has_sub(lower@, #[trigger] money_markers()[k]),
        decreases 9 - i,
    {
        if contains_str(lower, markers[i]) {
            return true;
        }
        i += 1;
    }
    false
}

/// The amounts written in one sentence.
fn amounts_of(sentence: &Vec<char>) -> (r: Vec<u64>)
    ensures
        r@.len() == amounts_in(sentence@).len(),
        forall|i: int| 0 <= i < r@.len() ==> r@[i] as int == amounts_in(sentence@)[i],
        forall|i: int| 0 <= i < r@.len() ==> r@[i] <= 100_000_000,
{
    let mut s = sentence.clone();
    s.push(' ');
    let ghost sv = sentence@.push(' ');
    assert(s@ =~= sv);
    let mut nums: Vec<u64> = Vec::new();
    let mut len: usize = 0;
    let mut val: u64 = 0;
    let mut big = false;
    let mut i: usize = 0;
    while i < s.len()
        invariant
            s@ == sv,
            i <= s.len(),
            nums@.len() == num_scan(sv.take(i as int)).0.len(),
            forall|k: int| 0 <= k < nums@.len() ==> nums@[k] as int == num_scan(sv.take(i as int)).0[k],
            forall|k: int| 0 <= k < nums@.len() ==> nums@[k] <= 100_000_000,
            len as nat == num_scan(sv.take(i as int)).1,
            len <= i,
            big ==> num_scan(sv.take(i as int)).2 > 100_000_000,
            !big ==> val as nat == num_scan(sv.take(i as int)).2 && val <= 100_000_000,
        decreases s.len() - i,
    {
        let c = s[i];
        let ghost st = num_scan(sv.take(i as int));
        assert(sv.take(i + 1).drop_last() =~= sv.take(i as int));
        assert(sv.take(i + 1).last() == c);
        if '0' <= c && c <= '9' {
            len += 1;
            if !big {
                let d = (c as u32 - 48) as u64;
                let next = val * 10 + d;
                if next > 100_000_000 {
                    big = true;
                } else {
                    val = next;
                }
            } else {
                assert(st.2 * 10 + ((c as u32) - 48) as nat > 100_000_000) by (nonlinear_arith)
                    requires
                        st.2 > 100_000_000,
                ;
            }
        } else if c == ',' && len > 0 {
        } else if len > 0 {
            if !big && 100 <= val && !(1900 <= val && val <= 2100) {
                nums.push(val);
            }
            len = 0;
            val = 0;
            big = false;
        }
        i += 1;
    }
    assert(sv.take(i as int) =~= sv);
    nums
}

/// The budget in notes like "budget SGD 3,000–5,000" (the midpoint) or
/// "around $4,000" (the value), in cents; `None` when no sentence with a
/// money marker carries an amount. Whole currency units only, and year-like
/// numbers are ignored.
pub fn budget_midpoint_cents(text: &str) -> (r: Option<u64>)
    ensures
        r == budget_midpoint_spec(text@),
{
    let v = chars_of(text);
    let sentences = split_sentence_chars(&v);
    let ghost ss = views(sentences@);
    let mut numbers: Vec<u64> = Vec::new();
    let mut i: usize = 0;
    while i < sentences.len()
        invariant
            ss == views(sentences@),
            ss == split_sentences_spec(text@),
            i <= sentences.len(),
            numbers@.len() == budget_amounts(ss.take(i as int)).len(),
            forall|k: int| 0 <= k < numbers@.len() ==> numbers@[k] as int == budget_amounts(ss.take(i as int))[k],
            forall|k: int| 0 <= k < numbers@.len() ==> numbers@[k] <= 100_000_000,
        decreases sentences.len() - i,
    {
        let ghost before = numbers@;
        assert(ss.take(i + 1).drop_last() =~= ss.take(i as int));
        assert(ss[i as int] == sentences@[i as int]@);
        let text_i = string_of(&sentences[i]);
        let lower = lower_chars(text_i.as_str());
        if mentions_money_exec(&lower) {
            let found = amounts_of(&sentences[i]);
            let mut j: usize = 0;
            while j < found.len()
                invariant
                    j <= found@.len(),
                    numbers@.len() == before.len() + j,
                    forall|k: int| 0 <= k < before.len() ==> numbers@[k] == before[k],
                    forall|k: int| 0 <= k < j ==> numbers@[before.len() + k] == found@[k],
                    forall|k: int| 0 <= k < numbers@.len() ==> numbers@[k] <= 100_000_000,
                    forall|k: int| 0 <= k < before.len() ==> before[k] <= 100_000_000,
                    forall|k: int| 0 <= k < found@.len() ==> found@[k] <= 100_000_000,
                decreases found@.len() - j,
            {
                numbers.push(found[j]);
                j += 1;
            }
            let ghost t1 = ss.take(i + 1);
            assert(t1.last() == ss[i as int]);
            assert(budget_amounts(t1) == budget_amounts(ss.take(i as int)) + amounts_in(ss[i as int]));
            assert forall|k: int| 0 <= k < numbers@.len() implies numbers@[k] as int == budget_amounts(
                ss.take(i + 1),
            )[k] by {
                let a = budget_amounts(ss.take(i as int));
                assert(a.len() == before.len());
                if k >= before.len() {
                    assert(numbers@[k] == found@[k - before.len()]);
                    assert(found@[k - before.len()] as int == amounts_in(sentences@[i as int]@)[k - before.len()]);
                    assert((a + amounts_in(ss[i as int]))[k] == amounts_in(ss[i as int])[k - a.len()]);
                } else {
                    assert(numbers@[k] == before[k]);
                    assert(before[k] as int == a[k]);
                    assert((a + amounts_in(ss[i as int]))[k] == a[k]);
                }
            }
        }
        i += 1;
    }
    assert(ss.take(i as int) =~= ss);
    if numbers.len() == 0 {
        None
    } else if numbers.len() == 1 {
        Some(numbers[0] * 100)
    } else {
        Some((numbers[0] + numbers[1]) / 2 * 100)
    }
}

/// `CUR 1234.56`, or the "to be confirmed" line when no amount is known.
pub open spec fn amount_line_spec(amount_cents: Option<u64>, currency: Seq<char>, zh: bool) -> Seq<char> {
    match amount_cents {
        Some(cents) => currency + seq![' '] + decimal((cents / 100) as nat) + seq!['.'] + two_digits(
            (cents % 100) as nat,
        ),
        None => if zh {
            "金额待确认"@
        } else {
            "Amount to be confirmed"@
        },
    }
}

pub fn amount_line(amount_cents: Option<u64>, currency: &str, zh: bool) -> (r: String)
    ensures
        r@ == amount_line_spec(amount_cents, currency@, zh),
{
    match amount_cents {
        Some(cents) => {
            let mut v: Vec<char> = Vec::new();
            push_all(&mut v, currency);
            v.push(' ');
            push_decimal(&mut v, cents / 100);
            v.push('.');
            push_two_digits(&mut v, cents % 100);
            string_of(&v)
        },
        None => {
            if zh {
                owned("金额待确认")
            } else {
                owned("Amount to be confirmed")
            }
        },
    }
}

} // verus!
