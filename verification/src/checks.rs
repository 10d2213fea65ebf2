//! The deterministic compliance checks: each rule of a pack, read against the
//! company's recorded facts, gives one finding (or none where the rule does
//! not apply to the subject). The model never changes a status: these
//! checks decide it.
use vstd::prelude::*;

use crate::calendar::{
    add_months, add_months_spec, before, date_lt, date_text, date_text_of, last_financial_year_end,
    last_fye_spec, utc_date, utc_date_of, valid_date, Date, MAX_YEAR, MIN_YEAR,
};
use crate::compliance::{
    finding, finding_of, money, str_views, money_spec, receipts_since, trailing_receipts_cents,
    ComplianceFinding, FindingStatus, DAY_SECONDS,
};
use crate::compliance_pack::{CheckKind, Rule, SG_GST_THRESHOLD_CENTS};
use crate::text::{
    chars_of, contains, contains_str, decimal, has_sub, lower_chars, lowercase_of, owned, push_decimal,
    push_str, string_of, string_views, trim, trimmed,
};
use crate::types::{Customer, Document, DocumentKind, DocumentStatus, Venture, Workspace};

verus! {

/// What one check run reads: the workspace, its company profile, the
/// instant of the run and the calendar day it falls on, and the document
/// under review when the subject is one document rather than the company.
pub struct Facts<'a> {
    pub workspace: &'a Workspace,
    pub venture: &'a Venture,
    pub now_unix: i64,
    pub today: Date,
    pub document: Option<&'a Document>,
}

/// What a check decides: a status, the explanation shown to the founder,
/// and the field paths it read.
pub open spec fn made(
    f: ComplianceFinding,
    rule: Rule,
    o: (FindingStatus, Seq<char>, Seq<Seq<char>>),
    zh: bool,
) -> bool {
    finding_of(f, rule, o.0, o.1, o.2, zh)
}

/// The text in the requested language.
pub open spec fn pick(zh: bool, en: Seq<char>, zh_text: Seq<char>) -> Seq<char> {
    if zh {
        zh_text
    } else {
        en
    }
}

pub(crate) fn pick_str(zh: bool, en: &str, zh_text: &str) -> (r: String)
    ensures
        r@ == pick(zh, en@, zh_text@),
{
    if zh {
        owned(zh_text)
    } else {
        owned(en)
    }
}

/// `a`, then `b`, then `c`.
pub(crate) fn concat3(a: &str, b: &str, c: &str) -> (r: String)
    ensures
        r@ == a@ + b@ + c@,
{
    let mut s = owned(a);
    push_str(&mut s, b);
    push_str(&mut s, c);
    s
}

// ---------------------------------------------------------------------------
// Jurisdiction
// ---------------------------------------------------------------------------

pub open spec fn jurisdiction_outcome(v: Venture, zh: bool) -> (
    FindingStatus,
    Seq<char>,
    Seq<Seq<char>>,
) {
    let used = seq!["venture.jurisdiction"@];
    if v.jurisdiction@.len() == 0 {
        (
            FindingStatus::Unknown,
            pick(zh, "No jurisdiction is recorded for the company."@, "公司资料没有填写辖区。"@),
            used,
        )
    } else {
        (
            FindingStatus::Pass,
            pick(
                zh,
                "Jurisdiction recorded as "@ + v.jurisdiction@ + "."@,
                "辖区记录为 "@ + v.jurisdiction@ + "。"@,
            ),
            used,
        )
    }
}

fn check_jurisdiction(rule: &Rule, v: &Venture, zh: bool) -> (f: ComplianceFinding)
    ensures
        made(f, *rule, jurisdiction_outcome(*v, zh), zh),
{
    let used: [&str; 1] = ["venture.jurisdiction"];
    assert(str_views(used@) =~= seq!["venture.jurisdiction"@]);
    if v.jurisdiction.as_str().is_empty() {
        let detail = pick_str(
            zh,
            "No jurisdiction is recorded for the company.",
            "公司资料没有填写辖区。",
        );
        finding(rule, FindingStatus::Unknown, detail, &used, zh)
    } else {
        let detail = if zh {
            concat3("辖区记录为 ", v.jurisdiction.as_str(), "。")
        } else {
            concat3("Jurisdiction recorded as ", v.jurisdiction.as_str(), ".")
        };
        finding(rule, FindingStatus::Pass, detail, &used, zh)
    }
}


/// The parts, with `sep` between each two.
pub open spec fn joined(parts: Seq<Seq<char>>, sep: Seq<char>) -> Seq<char>
    decreases parts.len(),
{
    if parts.len() == 0 {
        Seq::empty()
    } else if parts.len() == 1 {
        parts[0]
    } else {
        joined(parts.drop_last(), sep) + sep + parts.last()
    }
}

/// `x` as a one-item list when `c` holds, else nothing.
pub open spec fn opt(c: bool, x: Seq<char>) -> Seq<Seq<char>> {
    if c {
        seq![x]
    } else {
        Seq::empty()
    }
}

pub fn join(parts: &Vec<String>, sep: &str) -> (r: String)
    ensures
        r@ == joined(string_views(parts@), sep@),
{
    let mut out = String::new();
    let mut i: usize = 0;
    while i < parts.len()
        invariant
            i <= parts@.len(),
            out@ == joined(string_views(parts@).take(i as int), sep@),
        decreases parts@.len() - i,
    {
        let ghost ps = string_views(parts@);
        assert(ps.take(i + 1).drop_last() =~= ps.take(i as int));
        if i > 0 {
            push_str(&mut out, sep);
        }
        push_str(&mut out, parts[i].as_str());
        i += 1;
    }
    assert(string_views(parts@).take(i as int) =~= string_views(parts@));
    out
}

/// `s` with `item` appended when `c` holds.
fn push_if(list: &mut Vec<String>, c: bool, item: String)
    ensures
        string_views(final(list)@) == string_views(old(list)@) + opt(c, item@),
{
    let ghost before = string_views(list@);
    if c {
        list.push(item);
        assert(string_views(list@) =~= before + seq![item@]);
    } else {
        assert(before + opt(c, item@) =~= before);
    }
}

// ---------------------------------------------------------------------------
// GST registration threshold
// ---------------------------------------------------------------------------

pub open spec fn receipts_of(f: Facts) -> int {
    receipts_since(f.workspace.payments@, f.now_unix - 365 * DAY_SECONDS)
}

/// The revenue figure the threshold is checked against: the larger of the
/// founder's estimate and the receipts of the last twelve months.
pub open spec fn revenue_basis(f: Facts) -> int {
    match f.venture.revenue_estimate_cents {
        Some(e) => if e >= receipts_of(f) {
            e as int
        } else {
            receipts_of(f)
        },
        None => receipts_of(f),
    }
}

pub open spec fn gst_threshold_outcome(f: Facts, zh: bool) -> Option<
    (FindingStatus, Seq<char>, Seq<Seq<char>>),
> {
    let v = *f.venture;
    let used = seq![
        "venture.gst_registered"@,
        "venture.revenue_estimate_cents"@,
        "payments.trailing_12_months"@,
    ];
    let m = money_spec(revenue_basis(f) as u64, v.currency@);
    if f.document is Some {
        None
    } else if v.gst_registered {
        Some(
            (
                FindingStatus::Pass,
                pick(zh, "The company is recorded as GST-registered."@, "公司资料记录为已注册 GST。"@),
                used,
            ),
        )
    } else if revenue_basis(f) >= SG_GST_THRESHOLD_CENTS {
        Some(
            (
                FindingStatus::Attention,
                pick(
                    zh,
                    "Recorded revenue ("@ + m
                        + ") is at or above the pack's S$1,000,000 threshold and the company is not recorded as GST-registered."@,
                    "记录的营收("@ + m + ")已达到或超过规则包中的 100 万新元门槛,而公司未记录为 GST 注册。"@,
                ),
                used,
            ),
        )
    } else if v.revenue_estimate_cents is None && receipts_of(f) == 0 {
        Some(
            (
                FindingStatus::NeedsReview,
                pick(
                    zh,
                    "No revenue estimate and no recorded receipts: the threshold cannot be checked."@,
                    "没有营收估计也没有收款记录,无法检查门槛。"@,
                ),
                used,
            ),
        )
    } else {
        Some(
            (
                FindingStatus::Pass,
                pick(
                    zh,
                    "Recorded revenue ("@ + m + ") is below the pack's S$1,000,000 threshold."@,
                    "记录的营收("@ + m + ")低于规则包中的 100 万新元门槛。"@,
                ),
                used,
            ),
        )
    }
}

fn check_gst_threshold(rule: &Rule, f: &Facts, zh: bool) -> (r: Option<ComplianceFinding>)
    requires
        f.document is None ==> f.now_unix >= i64::MIN + 365 * DAY_SECONDS,
        f.document is None ==> receipts_of(*f) <= u64::MAX,
    ensures
        match gst_threshold_outcome(*f, zh) {
            Some(o) => r matches Some(x) && made(x, *rule, o, zh),
            None => r is None,
        },
{
    if f.document.is_some() {
        return None;
    }
    let v = f.venture;
    let receipts = trailing_receipts_cents(&f.workspace.payments, f.now_unix);
    let basis = match v.revenue_estimate_cents {
        Some(e) => if e >= receipts {
            e
        } else {
            receipts
        },
        None => receipts,
    };
    let used: [&str; 3] = [
        "venture.gst_registered",
        "venture.revenue_estimate_cents",
        "payments.trailing_12_months",
    ];
    assert(str_views(used@) =~= seq![
        "venture.gst_registered"@,
        "venture.revenue_estimate_cents"@,
        "payments.trailing_12_months"@,
    ]);
    if v.gst_registered {
        let d = pick_str(zh, "The company is recorded as GST-registered.", "公司资料记录为已注册 GST。");
        Some(finding(rule, FindingStatus::Pass, d, &used, zh))
    } else if basis >= SG_GST_THRESHOLD_CENTS {
        let m = money(basis, v.currency.as_str());
        let d = if zh {
            concat3("记录的营收(", m.as_str(), ")已达到或超过规则包中的 100 万新元门槛,而公司未记录为 GST 注册。")
        } else {
            concat3(
                "Recorded revenue (",
                m.as_str(),
                ") is at or above the pack's S$1,000,000 threshold and the company is not recorded as GST-registered.",
            )
        };
        Some(finding(rule, FindingStatus::Attention, d, &used, zh))
    } else if v.revenue_estimate_cents.is_none() && receipts == 0 {
        let d = pick_str(
            zh,
            "No revenue estimate and no recorded receipts: the threshold cannot be checked.",
            "没有营收估计也没有收款记录,无法检查门槛。",
        );
        Some(finding(rule, FindingStatus::NeedsReview, d, &used, zh))
    } else {
        let m = money(basis, v.currency.as_str());
        let d = if zh {
            concat3("记录的营收(", m.as_str(), ")低于规则包中的 100 万新元门槛。")
        } else {
            concat3("Recorded revenue (", m.as_str(), ") is below the pack's S$1,000,000 threshold.")
        };
        Some(finding(rule, FindingStatus::Pass, d, &used, zh))
    }
}

// ---------------------------------------------------------------------------
// GST tax-invoice particulars
// ---------------------------------------------------------------------------

/// The lower-cased invoice text mentions GST.
pub open spec fn mentions_gst(body: Seq<char>) -> bool {
    has_sub(lowercase_of(body), "gst"@) || has_sub(lowercase_of(body), "消费税"@)
}

pub open spec fn gst_invoice_outcome(f: Facts, zh: bool) -> Option<
    (FindingStatus, Seq<char>, Seq<Seq<char>>),
> {
    let v = *f.venture;
    match f.document {
        None => None,
        Some(d) => if d.kind != DocumentKind::Invoice {
            None
        } else if !v.gst_registered {
            Some(
                (
                    FindingStatus::NotApplicable,
                    pick(zh, "The company is not recorded as GST-registered."@, "公司未记录为 GST 注册。"@),
                    seq!["venture.gst_registered"@],
                ),
            )
        } else {
            let mentions = mentions_gst(d.body@);
            let has_uen = trimmed(v.uen@).len() > 0;
            let used = seq!["venture.gst_registered"@, "venture.uen"@, "document.body"@];
            if mentions && has_uen {
                Some(
                    (
                        FindingStatus::NeedsReview,
                        pick(
                            zh,
                            "The invoice mentions GST and a registration number is on file; check the remaining tax-invoice particulars against the IRAS list."@,
                            "发票提到了 GST,且资料中有注册号;请对照 IRAS 清单核对其余项目。"@,
                        ),
                        used,
                    ),
                )
            } else {
                let missing = opt(!mentions, pick(zh, "a GST amount or statement"@, "GST 金额/说明"@))
                    + opt(
                    !has_uen,
                    pick(zh, "the company's UEN / GST registration number"@, "公司 UEN/GST 注册号"@),
                );
                Some(
                    (
                        FindingStatus::Attention,
                        pick(
                            zh,
                            "A GST-registered company's invoice is missing: "@ + joined(missing, ", "@)
                                + "."@,
                            "GST 注册公司的发票缺少:"@ + joined(missing, "、"@) + "。"@,
                        ),
                        used,
                    ),
                )
            }
        },
    }
}

fn check_gst_invoice(rule: &Rule, f: &Facts, zh: bool) -> (r: Option<ComplianceFinding>)
    ensures
        match gst_invoice_outcome(*f, zh) {
            Some(o) => r matches Some(x) && made(x, *rule, o, zh),
            None => r is None,
        },
{
    let d = match f.document {
        None => {
            return None;
        },
        Some(d) => d,
    };
    if d.kind != DocumentKind::Invoice {
        return None;
    }
    let v = f.venture;
    if !v.gst_registered {
        let used: [&str; 1] = ["venture.gst_registered"];
        assert(str_views(used@) =~= seq!["venture.gst_registered"@]);
        let t = pick_str(zh, "The company is not recorded as GST-registered.", "公司未记录为 GST 注册。");
        return Some(finding(rule, FindingStatus::NotApplicable, t, &used, zh));
    }
    let body = lower_chars(d.body.as_str());
    let mentions = contains_str(&body, "gst") || contains_str(&body, "消费税");
    let uen = chars_of(v.uen.as_str());
    let has_uen = trim(&uen).len() > 0;
    let used: [&str; 3] = ["venture.gst_registered", "venture.uen", "document.body"];
    assert(str_views(used@) =~= seq!["venture.gst_registered"@, "venture.uen"@, "document.body"@]);
    if mentions && has_uen {
        let t = pick_str(
            zh,
            "The invoice mentions GST and a registration number is on file; check the remaining tax-invoice particulars against the IRAS list.",
            "发票提到了 GST,且资料中有注册号;请对照 IRAS 清单核对其余项目。",
        );
        Some(finding(rule, FindingStatus::NeedsReview, t, &used, zh))
    } else {
        let mut missing: Vec<String> = Vec::new();
        push_if(&mut missing, !mentions, pick_str(zh, "a GST amount or statement", "GST 金额/说明"));
        push_if(
            &mut missing,
            !has_uen,
            pick_str(zh, "the company's UEN / GST registration number", "公司 UEN/GST 注册号"),
        );
        assert(string_views(missing@) =~= opt(!mentions, pick(zh, "a GST amount or statement"@, "GST 金额/说明"@))
            + opt(
            !has_uen,
            pick(zh, "the company's UEN / GST registration number"@, "公司 UEN/GST 注册号"@),
        ));
        let t = if zh {
            let j = join(&missing, "、");
            concat3("GST 注册公司的发票缺少:", j.as_str(), "。")
        } else {
            let j = join(&missing, ", ");
            concat3("A GST-registered company's invoice is missing: ", j.as_str(), ".")
        };
        Some(finding(rule, FindingStatus::Attention, t, &used, zh))
    }
}

// ---------------------------------------------------------------------------
// InvoiceNow e-invoicing
// ---------------------------------------------------------------------------

/// 2025-05-01, from when newly incorporated GST registrants join InvoiceNow.
pub const INVOICENOW_RECENT_FROM: i64 = 1_746_057_600;

pub open spec fn einvoicing_outcome(f: Facts, zh: bool) -> Option<
    (FindingStatus, Seq<char>, Seq<Seq<char>>),
> {
    let v = *f.venture;
    let used = seq!["venture.incorporated_at"@, "venture.gst_registered"@];
    if f.document is Some || !v.gst_registered {
        None
    } else {
        match v.incorporated_at {
            None => Some(
                (
                    FindingStatus::Unknown,
                    pick(
                        zh,
                        "Incorporation date not recorded; the InvoiceNow phase cannot be determined."@,
                        "未记录成立日期,无法判断 InvoiceNow 阶段。"@,
                    ),
                    used,
                ),
            ),
            Some(at) => if at >= INVOICENOW_RECENT_FROM {
                Some(
                    (
                        FindingStatus::NeedsReview,
                        pick(
                            zh,
                            "A recently incorporated, GST-registered company may fall in an InvoiceNow phase; check the IRAS timeline."@,
                            "新近成立且已注册 GST 的公司可能属于 InvoiceNow 的某个阶段;请核对 IRAS 时间表。"@,
                        ),
                        used,
                    ),
                )
            } else {
                Some(
                    (
                        FindingStatus::NeedsReview,
                        pick(
                            zh,
                            "InvoiceNow is being phased in; confirm whether a later phase reaches existing GST-registered companies."@,
                            "InvoiceNow 正分阶段推行;确认后续阶段是否覆盖既有 GST 注册公司。"@,
                        ),
                        used,
                    ),
                )
            },
        }
    }
}

fn check_einvoicing(rule: &Rule, f: &Facts, zh: bool) -> (r: Option<ComplianceFinding>)
    ensures
        match einvoicing_outcome(*f, zh) {
            Some(o) => r matches Some(x) && made(x, *rule, o, zh),
            None => r is None,
        },
{
    let v = f.venture;
    if f.document.is_some() || !v.gst_registered {
        return None;
    }
    let used: [&str; 2] = ["venture.incorporated_at", "venture.gst_registered"];
    assert(str_views(used@) =~= seq!["venture.incorporated_at"@, "venture.gst_registered"@]);
    match v.incorporated_at {
        None => {
            let t = pick_str(
                zh,
                "Incorporation date not recorded; the InvoiceNow phase cannot be determined.",
                "未记录成立日期,无法判断 InvoiceNow 阶段。",
            );
            Some(finding(rule, FindingStatus::Unknown, t, &used, zh))
        },
        Some(at) => if at >= INVOICENOW_RECENT_FROM {
            let t = pick_str(
                zh,
                "A recently incorporated, GST-registered company may fall in an InvoiceNow phase; check the IRAS timeline.",
                "新近成立且已注册 GST 的公司可能属于 InvoiceNow 的某个阶段;请核对 IRAS 时间表。",
            );
            Some(finding(rule, FindingStatus::NeedsReview, t, &used, zh))
        } else {
            let t = pick_str(
                zh,
                "InvoiceNow is being phased in; confirm whether a later phase reaches existing GST-registered companies.",
                "InvoiceNow 正分阶段推行;确认后续阶段是否覆盖既有 GST 注册公司。",
            );
            Some(finding(rule, FindingStatus::NeedsReview, t, &used, zh))
        },
    }
}


// ---------------------------------------------------------------------------
// Invoice essentials
// ---------------------------------------------------------------------------

/// The name of the first customer with this id, or nothing.
pub open spec fn customer_name(cs: Seq<Customer>, id: u128) -> Seq<char>
    decreases cs.len(),
{
    if cs.len() == 0 {
        Seq::empty()
    } else if cs[0].id == id {
        cs[0].name@
    } else {
        customer_name(cs.drop_first(), id)
    }
}

fn find_customer_name(cs: &Vec<Customer>, id: u128) -> (r: String)
    ensures
        r@ == customer_name(cs@, id),
{
    let mut i: usize = 0;
    assert(cs@.skip(0) =~= cs@);
    while i < cs.len()
        invariant
            i <= cs@.len(),
            customer_name(cs@.skip(i as int), id) == customer_name(cs@, id),
        decreases cs@.len() - i,
    {
        assert(cs@.skip(i as int).drop_first() =~= cs@.skip(i + 1));
        if cs[i].id == id {
            return cs[i].name.clone();
        }
        i += 1;
    }
    assert(cs@.skip(i as int).len() == 0);
    String::new()
}

/// The number of line breaks in `s`.
pub open spec fn newlines(s: Seq<char>) -> nat
    decreases s.len(),
{
    if s.len() == 0 {
        0
    } else {
        newlines(s.drop_last()) + if s.last() == '\n' {
            1nat
        } else {
            0nat
        }
    }
}

/// How many lines a text with no surrounding whitespace has.
pub open spec fn line_count(s: Seq<char>) -> nat {
    if s.len() == 0 {
        0
    } else {
        newlines(s) + 1
    }
}

/// Whether the text has fewer than four lines.
fn fewer_than_four_lines(v: &Vec<char>) -> (r: bool)
    ensures
        r == (line_count(v@) < 4),
{
    if v.len() == 0 {
        return true;
    }
    let mut n: usize = 0;
    let mut i: usize = 0;
    while i < v.len()
        invariant
            i <= v@.len(),
            n == newlines(v@.take(i as int)),
            n <= 2,
        decreases v@.len() - i,
    {
        assert(v@.take(i + 1).drop_last() =~= v@.take(i as int));
        if v[i] == '\n' {
            if n == 2 {
                proof {
                    lemma_newlines_prefix(v@, i + 1);
                }
                return false;
            }
            n += 1;
        }
        i += 1;
    }
    assert(v@.take(i as int) =~= v@);
    true
}

proof fn lemma_newlines_prefix(s: Seq<char>, k: int)
    requires
        0 <= k <= s.len(),
    ensures
        newlines(s.take(k)) <= newlines(s),
    decreases s.len() - k,
{
    if k < s.len() {
        lemma_newlines_prefix(s, k + 1);
        assert(s.take(k + 1).drop_last() =~= s.take(k));
    } else {
        assert(s.take(k) =~= s);
    }
}

pub open spec fn invoice_missing(f: Facts, d: Document, zh: bool) -> Seq<Seq<char>> {
    let v = *f.venture;
    let body = d.body@;
    let cname = customer_name(f.workspace.customers@, d.customer_id);
    opt(!has_sub(body, v.name@), pick(zh, "the company name"@, "公司名称"@)) + opt(
        cname.len() == 0 || !has_sub(body, cname),
        pick(zh, "the customer name"@, "客户名称"@),
    ) + opt(
        match d.amount_cents {
            Some(a) => a == 0,
            None => true,
        },
        pick(zh, "an amount"@, "金额"@),
    ) + opt(
        line_count(trimmed(body)) < 4,
        pick(zh, "a description of what was delivered"@, "交付内容说明"@),
    )
}

pub open spec fn invoice_essentials_outcome(f: Facts, zh: bool) -> Option<
    (FindingStatus, Seq<char>, Seq<Seq<char>>),
> {
    let used = seq![
        "document.body"@,
        "document.amount_cents"@,
        "venture.name"@,
        "customer.name"@,
    ];
    match f.document {
        None => None,
        Some(d) => if d.kind != DocumentKind::Invoice {
            None
        } else {
            let missing = invoice_missing(f, *d, zh);
            if missing.len() == 0 {
                Some(
                    (
                        FindingStatus::Pass,
                        pick(
                            zh,
                            "The invoice names both parties, states an amount, and describes the delivery."@,
                            "发票写明了双方、金额和交付内容。"@,
                        ),
                        used,
                    ),
                )
            } else {
                Some(
                    (
                        FindingStatus::Attention,
                        pick(
                            zh,
                            "The invoice is missing: "@ + joined(missing, ", "@) + "."@,
                            "发票缺少:"@ + joined(missing, "、"@) + "。"@,
                        ),
                        used,
                    ),
                )
            }
        },
    }
}

fn check_invoice_essentials(rule: &Rule, f: &Facts, zh: bool) -> (r: Option<ComplianceFinding>)
    ensures
        match invoice_essentials_outcome(*f, zh) {
            Some(o) => r matches Some(x) && made(x, *rule, o, zh),
            None => r is None,
        },
{
    let d = match f.document {
        None => {
            return None;
        },
        Some(d) => d,
    };
    if d.kind != DocumentKind::Invoice {
        return None;
    }
    let v = f.venture;
    let cname = find_customer_name(&f.workspace.customers, d.customer_id);
    let body = chars_of(d.body.as_str());
    let vname = chars_of(v.name.as_str());
    let cn = chars_of(cname.as_str());
    let mut missing: Vec<String> = Vec::new();
    let no_company = !contains(&body, &vname);
    push_if(&mut missing, no_company, pick_str(zh, "the company name", "公司名称"));
    let no_customer = cn.len() == 0 || !contains(&body, &cn);
    push_if(&mut missing, no_customer, pick_str(zh, "the customer name", "客户名称"));
    let no_amount = match d.amount_cents {
        Some(a) => a == 0,
        None => true,
    };
    push_if(&mut missing, no_amount, pick_str(zh, "an amount", "金额"));
    let trimmed_body = trim(&body);
    let short = fewer_than_four_lines(&trimmed_body);
    push_if(
        &mut missing,
        short,
        pick_str(zh, "a description of what was delivered", "交付内容说明"),
    );
    assert(string_views(missing@) =~= invoice_missing(*f, *d, zh));
    let used: [&str; 4] = ["document.body", "document.amount_cents", "venture.name", "customer.name"];
    assert(str_views(used@) =~= seq![
        "document.body"@,
        "document.amount_cents"@,
        "venture.name"@,
        "customer.name"@,
    ]);
    if missing.len() == 0 {
        let t = pick_str(
            zh,
            "The invoice names both parties, states an amount, and describes the delivery.",
            "发票写明了双方、金额和交付内容。",
        );
        Some(finding(rule, FindingStatus::Pass, t, &used, zh))
    } else {
        let t = if zh {
            let j = join(&missing, "、");
            concat3("发票缺少:", j.as_str(), "。")
        } else {
            let j = join(&missing, ", ");
            concat3("The invoice is missing: ", j.as_str(), ".")
        };
        Some(finding(rule, FindingStatus::Attention, t, &used, zh))
    }
}

// ---------------------------------------------------------------------------
// Dated obligations: estimated chargeable income, the corporate tax return,
// the AGM and annual return
// ---------------------------------------------------------------------------

/// The calendar day is one the deadline arithmetic can work with.
pub open spec fn today_ok(today: Date) -> bool {
    &&& valid_date(today)
    &&& MIN_YEAR < today.year
    &&& today.year + 2 < MAX_YEAR
}

pub open spec fn dt(d: Date) -> Seq<char> {
    date_text_of(d.year as int, d.month as int, d.day as int)
}

/// The day of incorporation, or `today` when the instant has no UTC date.
pub open spec fn incorporated_day(at: i64, today: Date) -> Date {
    match utc_date_of(at as int) {
        Some(d) => d,
        None => today,
    }
}

/// A year as `i32`'s `Display` writes it.
pub open spec fn signed_decimal(y: int) -> Seq<char> {
    if y < 0 {
        seq!['-'] + decimal((-y) as nat)
    } else {
        decimal(y as nat)
    }
}

fn signed_text(y: i32) -> (r: String)
    ensures
        r@ == signed_decimal(y as int),
{
    let mut v: Vec<char> = Vec::new();
    if y < 0 {
        v.push('-');
        let m: i64 = -(y as i64);
        push_decimal(&mut v, m as u64);
    } else {
        push_decimal(&mut v, y as u64);
    }
    string_of(&v)
}

pub open spec fn no_year_ended(zh: bool) -> Seq<char> {
    pick(zh, "No financial year has ended since incorporation."@, "成立以来尚未结束一个财政年度。"@)
}

pub open spec fn eci_outcome(f: Facts, zh: bool) -> Option<(FindingStatus, Seq<char>, Seq<Seq<char>>)> {
    let v = *f.venture;
    let used = seq!["venture.incorporated_at"@, "venture.fiscal_year_end_month"@];
    if f.document is Some {
        None
    } else {
        match v.incorporated_at {
            None => Some(
                (
                    FindingStatus::Unknown,
                    pick(
                        zh,
                        "Incorporation date not recorded; the ECI window cannot be computed."@,
                        "未记录成立日期,无法计算 ECI 期限。"@,
                    ),
                    used,
                ),
            ),
            Some(at) => {
                let fye = last_fye_spec(f.today, v.fiscal_year_end_month);
                if date_lt(fye, incorporated_day(at, f.today)) {
                    Some((FindingStatus::NotApplicable, no_year_ended(zh), used))
                } else {
                    let due = add_months_spec(fye, 3);
                    if !date_lt(due, f.today) {
                        Some(
                            (
                                FindingStatus::Attention,
                                pick(
                                    zh,
                                    "The financial year ended "@ + dt(fye) + "; ECI is due by "@ + dt(due)
                                        + " unless the waiver applies."@,
                                    "财政年度于 "@ + dt(fye) + " 结束;除非符合豁免,ECI 须在 "@ + dt(due)
                                        + " 前申报。"@,
                                ),
                                used,
                            ),
                        )
                    } else {
                        Some(
                            (
                                FindingStatus::NeedsReview,
                                pick(
                                    zh,
                                    "The ECI deadline for the year ended "@ + dt(fye) + " was "@ + dt(due)
                                        + "; confirm it was filed or that the waiver applied."@,
                                    "截至 "@ + dt(fye) + " 的财政年度的 ECI 期限是 "@ + dt(due)
                                        + ";请确认已申报或符合豁免。"@,
                                ),
                                used,
                            ),
                        )
                    }
                }
            },
        }
    }
}

/// The day of incorporation, or `today` when the instant has no UTC date.
fn incorporation_day(at: i64, today: Date) -> (r: Date)
    ensures
        r == incorporated_day(at, today),
{
    match utc_date(at) {
        Some(d) => d,
        None => today,
    }
}

fn check_eci(rule: &Rule, f: &Facts, zh: bool) -> (r: Option<ComplianceFinding>)
    requires
        f.document is None && f.venture.incorporated_at is Some ==> today_ok(f.today),
    ensures
        match eci_outcome(*f, zh) {
            Some(o) => r matches Some(x) && made(x, *rule, o, zh),
            None => r is None,
        },
{
    if f.document.is_some() {
        return None;
    }
    let v = f.venture;
    let used: [&str; 2] = ["venture.incorporated_at", "venture.fiscal_year_end_month"];
    assert(str_views(used@) =~= seq!["venture.incorporated_at"@, "venture.fiscal_year_end_month"@]);
    let at = match v.incorporated_at {
        None => {
            let t = pick_str(
                zh,
                "Incorporation date not recorded; the ECI window cannot be computed.",
                "未记录成立日期,无法计算 ECI 期限。",
            );
            return Some(finding(rule, FindingStatus::Unknown, t, &used, zh));
        },
        Some(at) => at,
    };
    let fye = last_financial_year_end(f.today, v.fiscal_year_end_month);
    let incorporated = incorporation_day(at, f.today);
    if before(fye, incorporated) {
        let t = pick_str(
            zh,
            "No financial year has ended since incorporation.",
            "成立以来尚未结束一个财政年度。",
        );
        return Some(finding(rule, FindingStatus::NotApplicable, t, &used, zh));
    }
    let due = add_months(fye, 3);
    let fye_text = date_text(fye);
    let due_text = date_text(due);
    if !before(due, f.today) {
        let mut t = if zh {
            owned("财政年度于 ")
        } else {
            owned("The financial year ended ")
        };
        push_str(&mut t, fye_text.as_str());
        push_str(&mut t, if zh { " 结束;除非符合豁免,ECI 须在 " } else { "; ECI is due by " });
        push_str(&mut t, due_text.as_str());
        push_str(&mut t, if zh { " 前申报。" } else { " unless the waiver applies." });
        Some(finding(rule, FindingStatus::Attention, t, &used, zh))
    } else {
        let mut t = if zh {
            owned("截至 ")
        } else {
            owned("The ECI deadline for the year ended ")
        };
        push_str(&mut t, fye_text.as_str());
        push_str(&mut t, if zh { " 的财政年度的 ECI 期限是 " } else { " was " });
        push_str(&mut t, due_text.as_str());
        push_str(
            &mut t,
            if zh { ";请确认已申报或符合豁免。" } else { "; confirm it was filed or that the waiver applied." },
        );
        Some(finding(rule, FindingStatus::NeedsReview, t, &used, zh))
    }
}

pub open spec fn tax_return_outcome(f: Facts, zh: bool) -> Option<
    (FindingStatus, Seq<char>, Seq<Seq<char>>),
> {
    let v = *f.venture;
    let used = seq!["venture.incorporated_at"@, "today"@];
    if f.document is Some {
        None
    } else if v.incorporated_at is None {
        Some((FindingStatus::Unknown, pick(zh, "Incorporation date not recorded."@, "未记录成立日期。"@), used))
    } else if 9 <= f.today.month <= 11 {
        Some(
            (
                FindingStatus::Attention,
                pick(
                    zh,
                    "The corporate income tax return is due by 30 November "@ + signed_decimal(
                        f.today.year as int,
                    ) + "."@,
                    "企业所得税申报表须在 "@ + signed_decimal(f.today.year as int) + " 年 11 月 30 日前提交。"@,
                ),
                used,
            ),
        )
    } else {
        Some(
            (
                FindingStatus::Pass,
                pick(
                    zh,
                    "Outside the filing window; the next return is due by 30 November."@,
                    "目前不在申报期内;下一次申报截止 11 月 30 日。"@,
                ),
                used,
            ),
        )
    }
}

fn check_tax_return(rule: &Rule, f: &Facts, zh: bool) -> (r: Option<ComplianceFinding>)
    ensures
        match tax_return_outcome(*f, zh) {
            Some(o) => r matches Some(x) && made(x, *rule, o, zh),
            None => r is None,
        },
{
    if f.document.is_some() {
        return None;
    }
    let used: [&str; 2] = ["venture.incorporated_at", "today"];
    assert(str_views(used@) =~= seq!["venture.incorporated_at"@, "today"@]);
    if f.venture.incorporated_at.is_none() {
        let t = pick_str(zh, "Incorporation date not recorded.", "未记录成立日期。");
        Some(finding(rule, FindingStatus::Unknown, t, &used, zh))
    } else if 9 <= f.today.month && f.today.month <= 11 {
        let y = signed_text(f.today.year);
        let t = if zh {
            concat3("企业所得税申报表须在 ", y.as_str(), " 年 11 月 30 日前提交。")
        } else {
            concat3("The corporate income tax return is due by 30 November ", y.as_str(), ".")
        };
        Some(finding(rule, FindingStatus::Attention, t, &used, zh))
    } else {
        let t = pick_str(
            zh,
            "Outside the filing window; the next return is due by 30 November.",
            "目前不在申报期内;下一次申报截止 11 月 30 日。",
        );
        Some(finding(rule, FindingStatus::Pass, t, &used, zh))
    }
}

pub open spec fn agm_outcome(f: Facts, zh: bool) -> Option<(FindingStatus, Seq<char>, Seq<Seq<char>>)> {
    let v = *f.venture;
    let used = seq!["venture.incorporated_at"@, "venture.fiscal_year_end_month"@];
    if f.document is Some {
        None
    } else {
        match v.incorporated_at {
            None => Some(
                (
                    FindingStatus::Unknown,
                    pick(
                        zh,
                        "Incorporation date not recorded; the AGM and annual-return windows cannot be computed."@,
                        "未记录成立日期,无法计算股东大会和年度申报期限。"@,
                    ),
                    used,
                ),
            ),
            Some(at) => {
                let fye = last_fye_spec(f.today, v.fiscal_year_end_month);
                if date_lt(fye, incorporated_day(at, f.today)) {
                    Some((FindingStatus::NotApplicable, no_year_ended(zh), used))
                } else {
                    let agm = add_months_spec(fye, 6);
                    let ar = add_months_spec(fye, 7);
                    if !date_lt(ar, f.today) {
                        Some(
                            (
                                FindingStatus::Attention,
                                pick(
                                    zh,
                                    "For the year ended "@ + dt(fye) + ": AGM by "@ + dt(agm)
                                        + " (unless exempt), annual return by "@ + dt(ar) + "."@,
                                    "截至 "@ + dt(fye) + " 的年度:股东大会 "@ + dt(agm) + " 前(可豁免),年度申报 "@
                                        + dt(ar) + " 前。"@,
                                ),
                                used,
                            ),
                        )
                    } else {
                        Some(
                            (
                                FindingStatus::NeedsReview,
                                pick(
                                    zh,
                                    "The annual-return deadline for the year ended "@ + dt(fye) + " was "@
                                        + dt(ar) + "; confirm it was filed."@,
                                    "截至 "@ + dt(fye) + " 年度的年度申报期限是 "@ + dt(ar) + ";请确认已提交。"@,
                                ),
                                used,
                            ),
                        )
                    }
                }
            },
        }
    }
}

fn check_agm(rule: &Rule, f: &Facts, zh: bool) -> (r: Option<ComplianceFinding>)
    requires
        f.document is None && f.venture.incorporated_at is Some ==> today_ok(f.today),
    ensures
        match agm_outcome(*f, zh) {
            Some(o) => r matches Some(x) && made(x, *rule, o, zh),
            None => r is None,
        },
{
    if f.document.is_some() {
        return None;
    }
    let v = f.venture;
    let used: [&str; 2] = ["venture.incorporated_at", "venture.fiscal_year_end_month"];
    assert(str_views(used@) =~= seq!["venture.incorporated_at"@, "venture.fiscal_year_end_month"@]);
    let at = match v.incorporated_at {
        None => {
            let t = pick_str(
                zh,
                "Incorporation date not recorded; the AGM and annual-return windows cannot be computed.",
                "未记录成立日期,无法计算股东大会和年度申报期限。",
            );
            return Some(finding(rule, FindingStatus::Unknown, t, &used, zh));
        },
        Some(at) => at,
    };
    let fye = last_financial_year_end(f.today, v.fiscal_year_end_month);
    let incorporated = incorporation_day(at, f.today);
    if before(fye, incorporated) {
        let t = pick_str(
            zh,
            "No financial year has ended since incorporation.",
            "成立以来尚未结束一个财政年度。",
        );
        return Some(finding(rule, FindingStatus::NotApplicable, t, &used, zh));
    }
    let agm = add_months(fye, 6);
    let ar = add_months(fye, 7);
    let fye_text = date_text(fye);
    let ar_text = date_text(ar);
    if !before(ar, f.today) {
        let agm_text = date_text(agm);
        let mut t = if zh {
            owned("截至 ")
        } else {
            owned("For the year ended ")
        };
        push_str(&mut t, fye_text.as_str());
        push_str(&mut t, if zh { " 的年度:股东大会 " } else { ": AGM by " });
        push_str(&mut t, agm_text.as_str());
        push_str(&mut t, if zh { " 前(可豁免),年度申报 " } else { " (unless exempt), annual return by " });
        push_str(&mut t, ar_text.as_str());
        push_str(&mut t, if zh { " 前。" } else { "." });
        Some(finding(rule, FindingStatus::Attention, t, &used, zh))
    } else {
        let mut t = if zh {
            owned("截至 ")
        } else {
            owned("The annual-return deadline for the year ended ")
        };
        push_str(&mut t, fye_text.as_str());
        push_str(&mut t, if zh { " 年度的年度申报期限是 " } else { " was " });
        push_str(&mut t, ar_text.as_str());
        push_str(&mut t, if zh { ";请确认已提交。" } else { "; confirm it was filed." });
        Some(finding(rule, FindingStatus::NeedsReview, t, &used, zh))
    }
}


// ---------------------------------------------------------------------------
// Personal data: consent, protection officer; record keeping
// ---------------------------------------------------------------------------

/// The customer has contact details stored.
pub open spec fn has_contact(c: Customer) -> bool {
    trimmed(c.email@).len() > 0
}

pub open spec fn contacts(cs: Seq<Customer>) -> nat
    decreases cs.len(),
{
    if cs.len() == 0 {
        0
    } else {
        contacts(cs.drop_last()) + if has_contact(cs.last()) {
            1nat
        } else {
            0nat
        }
    }
}

pub open spec fn unconsented(cs: Seq<Customer>) -> nat
    decreases cs.len(),
{
    if cs.len() == 0 {
        0
    } else {
        unconsented(cs.drop_last()) + if has_contact(cs.last()) && !cs.last().personal_data_consent {
            1nat
        } else {
            0nat
        }
    }
}

pub open spec fn consent_outcome(f: Facts, zh: bool) -> Option<(FindingStatus, Seq<char>, Seq<Seq<char>>)> {
    let cs = f.workspace.customers@;
    let n = decimal(contacts(cs));
    let w = decimal(unconsented(cs));
    let used = seq!["customers.email"@, "customers.personal_data_consent"@];
    if f.document is Some {
        None
    } else if contacts(cs) == 0 {
        Some(
            (
                FindingStatus::NotApplicable,
                pick(zh, "No contact details are stored yet."@, "尚未存储联系方式。"@),
                used,
            ),
        )
    } else if unconsented(cs) == 0 {
        Some(
            (
                FindingStatus::Pass,
                pick(
                    zh,
                    "Consent is recorded for all "@ + n + " contact(s) with stored details."@,
                    "已存储联系方式的 "@ + n + " 位联系人都记录了同意。"@,
                ),
                used,
            ),
        )
    } else {
        Some(
            (
                FindingStatus::Attention,
                pick(
                    zh,
                    w + " of "@ + n + " contact(s) with stored details have no recorded consent."@,
                    n + " 位已存储联系方式的联系人中,有 "@ + w + " 位没有记录同意。"@,
                ),
                used,
            ),
        )
    }
}

pub(crate) fn decimal_text(n: usize) -> (r: String)
    ensures
        r@ == decimal(n as nat),
{
    let mut v: Vec<char> = Vec::new();
    push_decimal(&mut v, n as u64);
    string_of(&v)
}

fn check_consent(rule: &Rule, f: &Facts, zh: bool) -> (r: Option<ComplianceFinding>)
    ensures
        match consent_outcome(*f, zh) {
            Some(o) => r matches Some(x) && made(x, *rule, o, zh),
            None => r is None,
        },
{
    if f.document.is_some() {
        return None;
    }
    let cs = &f.workspace.customers;
    let mut with_data: usize = 0;
    let mut without: usize = 0;
    let mut i: usize = 0;
    while i < cs.len()
        invariant
            i <= cs@.len(),
            with_data == contacts(cs@.take(i as int)),
            without == unconsented(cs@.take(i as int)),
            with_data <= i,
            without <= i,
        decreases cs@.len() - i,
    {
        assert(cs@.take(i + 1).drop_last() =~= cs@.take(i as int));
        let email = chars_of(cs[i].email.as_str());
        let has = trim(&email).len() > 0;
        if has {
            with_data += 1;
            if !cs[i].personal_data_consent {
                without += 1;
            }
        }
        i += 1;
    }
    assert(cs@.take(i as int) =~= cs@);
    let used: [&str; 2] = ["customers.email", "customers.personal_data_consent"];
    assert(str_views(used@) =~= seq!["customers.email"@, "customers.personal_data_consent"@]);
    if with_data == 0 {
        let t = pick_str(zh, "No contact details are stored yet.", "尚未存储联系方式。");
        return Some(finding(rule, FindingStatus::NotApplicable, t, &used, zh));
    }
    let n = decimal_text(with_data);
    if without == 0 {
        let t = if zh {
            concat3("已存储联系方式的 ", n.as_str(), " 位联系人都记录了同意。")
        } else {
            concat3("Consent is recorded for all ", n.as_str(), " contact(s) with stored details.")
        };
        Some(finding(rule, FindingStatus::Pass, t, &used, zh))
    } else {
        let w = decimal_text(without);
        let mut t = if zh {
            concat3(n.as_str(), " 位已存储联系方式的联系人中,有 ", w.as_str())
        } else {
            concat3(w.as_str(), " of ", n.as_str())
        };
        push_str(
            &mut t,
            if zh { " 位没有记录同意。" } else { " contact(s) with stored details have no recorded consent." },
        );
        Some(finding(rule, FindingStatus::Attention, t, &used, zh))
    }
}

pub open spec fn dpo_outcome(f: Facts, zh: bool) -> Option<(FindingStatus, Seq<char>, Seq<Seq<char>>)> {
    if f.document is Some {
        None
    } else {
        Some(
            (
                FindingStatus::NeedsReview,
                pick(
                    zh,
                    "This product does not record a DPO designation; confirm one is designated and its contact published."@,
                    "本产品未记录数据保护官的指定;请确认已指定并公布联系方式。"@,
                ),
                seq!["(not recorded)"@],
            ),
        )
    }
}

fn check_dpo(rule: &Rule, f: &Facts, zh: bool) -> (r: Option<ComplianceFinding>)
    ensures
        match dpo_outcome(*f, zh) {
            Some(o) => r matches Some(x) && made(x, *rule, o, zh),
            None => r is None,
        },
{
    if f.document.is_some() {
        return None;
    }
    let used: [&str; 1] = ["(not recorded)"];
    assert(str_views(used@) =~= seq!["(not recorded)"@]);
    let t = pick_str(
        zh,
        "This product does not record a DPO designation; confirm one is designated and its contact published.",
        "本产品未记录数据保护官的指定;请确认已指定并公布联系方式。",
    );
    Some(finding(rule, FindingStatus::NeedsReview, t, &used, zh))
}

pub open spec fn records_outcome(f: Facts, zh: bool) -> Option<(FindingStatus, Seq<char>, Seq<Seq<char>>)> {
    if f.document is Some {
        None
    } else {
        Some(
            (
                FindingStatus::NeedsReview,
                pick(
                    zh,
                    "Record keeping cannot be verified here; the signed audit chain and regular exports support it but do not prove it."@,
                    "此处无法核实记录保存;签名审计链和定期导出有助于此,但不能证明。"@,
                ),
                seq!["ledger"@, "exports"@],
            ),
        )
    }
}

fn check_records(rule: &Rule, f: &Facts, zh: bool) -> (r: Option<ComplianceFinding>)
    ensures
        match records_outcome(*f, zh) {
            Some(o) => r matches Some(x) && made(x, *rule, o, zh),
            None => r is None,
        },
{
    if f.document.is_some() {
        return None;
    }
    let used: [&str; 2] = ["ledger", "exports"];
    assert(str_views(used@) =~= seq!["ledger"@, "exports"@]);
    let t = pick_str(
        zh,
        "Record keeping cannot be verified here; the signed audit chain and regular exports support it but do not prove it.",
        "此处无法核实记录保存;签名审计链和定期导出有助于此,但不能证明。",
    );
    Some(finding(rule, FindingStatus::NeedsReview, t, &used, zh))
}

// ---------------------------------------------------------------------------
// Cross-border customers
// ---------------------------------------------------------------------------

pub open spec fn is_foreign(c: Customer, home: Seq<char>) -> bool {
    c.jurisdiction@.len() > 0 && c.jurisdiction@ != home
}

/// `name (jurisdiction)` of each customer recorded outside `home`.
pub open spec fn foreign_names(cs: Seq<Customer>, home: Seq<char>) -> Seq<Seq<char>>
    decreases cs.len(),
{
    if cs.len() == 0 {
        Seq::empty()
    } else {
        foreign_names(cs.drop_last(), home) + opt(
            is_foreign(cs.last(), home),
            cs.last().name@ + " ("@ + cs.last().jurisdiction@ + ")"@,
        )
    }
}

pub open spec fn cross_border_outcome(f: Facts, zh: bool) -> Option<
    (FindingStatus, Seq<char>, Seq<Seq<char>>),
> {
    let names = foreign_names(f.workspace.customers@, f.venture.jurisdiction@);
    let used = seq!["customers.jurisdiction"@, "venture.jurisdiction"@];
    if f.document is Some {
        None
    } else if names.len() == 0 {
        Some(
            (
                FindingStatus::Pass,
                pick(
                    zh,
                    "No customer is recorded outside the company's jurisdiction."@,
                    "没有客户记录在公司辖区之外。"@,
                ),
                used,
            ),
        )
    } else {
        Some(
            (
                FindingStatus::NeedsReview,
                pick(
                    zh,
                    "Customers outside the pack's coverage: "@ + joined(names, ", "@) + "."@,
                    "不在规则包覆盖范围内的客户:"@ + joined(names, "、"@) + "。"@,
                ),
                used,
            ),
        )
    }
}

fn check_cross_border(rule: &Rule, f: &Facts, zh: bool) -> (r: Option<ComplianceFinding>)
    ensures
        match cross_border_outcome(*f, zh) {
            Some(o) => r matches Some(x) && made(x, *rule, o, zh),
            None => r is None,
        },
{
    if f.document.is_some() {
        return None;
    }
    let cs = &f.workspace.customers;
    let home = &f.venture.jurisdiction;
    let mut names: Vec<String> = Vec::new();
    let mut i: usize = 0;
    while i < cs.len()
        invariant
            i <= cs@.len(),
            string_views(names@) == foreign_names(cs@.take(i as int), home@),
        decreases cs@.len() - i,
    {
        assert(cs@.take(i + 1).drop_last() =~= cs@.take(i as int));
        let c = &cs[i];
        let foreign = !c.jurisdiction.as_str().is_empty() && !(c.jurisdiction == *home);
        let label = concat3(c.name.as_str(), " (", c.jurisdiction.as_str());
        let mut label = label;
        push_str(&mut label, ")");
        push_if(&mut names, foreign, label);
        i += 1;
    }
    assert(cs@.take(i as int) =~= cs@);
    let used: [&str; 2] = ["customers.jurisdiction", "venture.jurisdiction"];
    assert(str_views(used@) =~= seq!["customers.jurisdiction"@, "venture.jurisdiction"@]);
    if names.len() == 0 {
        let t = pick_str(
            zh,
            "No customer is recorded outside the company's jurisdiction.",
            "没有客户记录在公司辖区之外。",
        );
        Some(finding(rule, FindingStatus::Pass, t, &used, zh))
    } else {
        let t = if zh {
            let j = join(&names, "、");
            concat3("不在规则包覆盖范围内的客户:", j.as_str(), "。")
        } else {
            let j = join(&names, ", ");
            concat3("Customers outside the pack's coverage: ", j.as_str(), ".")
        };
        Some(finding(rule, FindingStatus::NeedsReview, t, &used, zh))
    }
}


// ---------------------------------------------------------------------------
// Contract essentials of sent offers
// ---------------------------------------------------------------------------

/// The sections an offer is expected to state, in order.
pub open spec fn section_name(i: int) -> Seq<char> {
    if i == 0 {
        "scope"@
    } else if i == 1 {
        "deliverables"@
    } else if i == 2 {
        "timeline"@
    } else if i == 3 {
        "fees"@
    } else if i == 4 {
        "confidentiality"@
    } else if i == 5 {
        "intellectual property"@
    } else {
        "liability"@
    }
}

/// The words (lower case) whose presence shows a section is there.
pub open spec fn section_markers(i: int) -> Seq<Seq<char>> {
    if i == 0 {
        seq!["scope"@, "范围"@]
    } else if i == 1 {
        seq!["deliverable"@, "交付物"@, "交付"@]
    } else if i == 2 {
        seq!["timeline"@, "week"@, "period"@, "周期"@, "周"@]
    } else if i == 3 {
        seq!["fee"@, "investment"@, "price"@, "amount"@, "费用"@, "金额"@, "报价"@]
    } else if i == 4 {
        seq!["confidential"@, "保密"@]
    } else if i == 5 {
        seq!["intellectual property"@, "ip "@, "ownership"@, "知识产权"@, "归属"@]
    } else {
        seq!["liabilit"@, "责任"@]
    }
}

pub const SECTION_COUNT: usize = 7;

pub open spec fn mentions_any(lower: Seq<char>, markers: Seq<Seq<char>>) -> bool {
    exists|j: int| 0 <= j < markers.len() && has_sub(lower, #[trigger] markers[j])
}

/// The names of the first `n` sections that the text does not mention.
pub open spec fn missing_sections(lower: Seq<char>, n: int) -> Seq<Seq<char>>
    decreases n,
{
    if n <= 0 {
        Seq::empty()
    } else {
        missing_sections(lower, n - 1) + opt(
            !mentions_any(lower, section_markers(n - 1)),
            section_name(n - 1),
        )
    }
}

/// The complaint about one offer, if it misses sections.
pub open spec fn offer_problem(d: Document) -> Seq<Seq<char>> {
    let miss = missing_sections(lowercase_of(d.body@), SECTION_COUNT as int);
    opt(miss.len() > 0, "\""@ + d.title@ + "\": "@ + joined(miss, ", "@))
}

/// An offer that has been approved for sending or sent.
pub open spec fn is_sent_offer(d: Document) -> bool {
    d.kind == DocumentKind::Offer && (d.status == DocumentStatus::ApprovedPendingDelivery || d.status
        == DocumentStatus::Delivered)
}

pub open spec fn sent_offers(ds: Seq<Document>) -> nat
    decreases ds.len(),
{
    if ds.len() == 0 {
        0
    } else {
        sent_offers(ds.drop_last()) + if is_sent_offer(ds.last()) {
            1nat
        } else {
            0nat
        }
    }
}

pub open spec fn offer_problems(ds: Seq<Document>) -> Seq<Seq<char>>
    decreases ds.len(),
{
    if ds.len() == 0 {
        Seq::empty()
    } else {
        offer_problems(ds.drop_last()) + if is_sent_offer(ds.last()) {
            offer_problem(ds.last())
        } else {
            Seq::empty()
        }
    }
}

pub open spec fn contract_outcome(f: Facts, zh: bool) -> Option<(FindingStatus, Seq<char>, Seq<Seq<char>>)> {
    let used = seq!["document.body"@];
    let checked: Option<(nat, Seq<Seq<char>>)> = match f.document {
        Some(d) => if d.kind == DocumentKind::Offer {
            Some((1nat, offer_problem(*d)))
        } else {
            None
        },
        None => Some(
            (sent_offers(f.workspace.documents@), offer_problems(f.workspace.documents@)),
        ),
    };
    match checked {
        None => None,
        Some((count, problems)) => if count == 0 {
            Some(
                (
                    FindingStatus::NotApplicable,
                    pick(zh, "No sent offers to check."@, "没有已发送的方案可检查。"@),
                    used,
                ),
            )
        } else if problems.len() == 0 {
            Some(
                (
                    FindingStatus::Pass,
                    pick(
                        zh,
                        "Every checked offer states scope, deliverables, timeline, fees, confidentiality, IP, and liability."@,
                        "检查的方案都写明了范围、交付物、周期、费用、保密、知识产权和责任。"@,
                    ),
                    used,
                ),
            )
        } else {
            Some(
                (
                    FindingStatus::Attention,
                    pick(
                        zh,
                        "Offers missing sections — "@ + joined(problems, "; "@) + "."@,
                        "方案缺少章节 — "@ + joined(problems, ";"@) + "。"@,
                    ),
                    used,
                ),
            )
        },
    }
}

pub(crate) fn mentions_marker(lower: &Vec<char>, markers: &[&str]) -> (r: bool)
    ensures
        r == mentions_any(lower@, str_views(markers@)),
{
    let mut j: usize = 0;
    while j < markers.len()
        invariant
            j <= markers@.len(),
            forall|x: int| 0 <= x < j ==> !has_sub(lower@, #[trigger] str_views(markers@)[x]),
        decreases markers@.len() - j,
    {
        if contains_str(lower, markers[j]) {
            assert(has_sub(lower@, str_views(markers@)[j as int]));
            return true;
        }
        j += 1;
    }
    false
}

fn mentions_section(lower: &Vec<char>, i: usize) -> (r: bool)
    requires
        i < SECTION_COUNT,
    ensures
        r == mentions_any(lower@, section_markers(i as int)),
{
    if i == 0 {
        let m: [&str; 2] = ["scope", "范围"];
        assert(str_views(m@) =~= section_markers(0));
        mentions_marker(lower, &m)
    } else if i == 1 {
        let m: [&str; 3] = ["deliverable", "交付物", "交付"];
        assert(str_views(m@) =~= section_markers(1));
        mentions_marker(lower, &m)
    } else if i == 2 {
        let m: [&str; 5] = ["timeline", "week", "period", "周期", "周"];
        assert(str_views(m@) =~= section_markers(2));
        mentions_marker(lower, &m)
    } else if i == 3 {
        let m: [&str; 7] = ["fee", "investment", "price", "amount", "费用", "金额", "报价"];
        assert(str_views(m@) =~= section_markers(3));
        mentions_marker(lower, &m)
    } else if i == 4 {
        let m: [&str; 2] = ["confidential", "保密"];
        assert(str_views(m@) =~= section_markers(4));
        mentions_marker(lower, &m)
    } else if i == 5 {
        let m: [&str; 5] = ["intellectual property", "ip ", "ownership", "知识产权", "归属"];
        assert(str_views(m@) =~= section_markers(5));
        mentions_marker(lower, &m)
    } else {
        let m: [&str; 2] = ["liabilit", "责任"];
        assert(str_views(m@) =~= section_markers(6));
        mentions_marker(lower, &m)
    }
}

fn section_title(i: usize) -> (r: String)
    requires
        i < SECTION_COUNT,
    ensures
        r@ == section_name(i as int),
{
    owned(
        if i == 0 {
            "scope"
        } else if i == 1 {
            "deliverables"
        } else if i == 2 {
            "timeline"
        } else if i == 3 {
            "fees"
        } else if i == 4 {
            "confidentiality"
        } else if i == 5 {
            "intellectual property"
        } else {
            "liability"
        },
    )
}

/// Appends the complaint about `d`, if it misses sections.
fn push_offer_problem(problems: &mut Vec<String>, d: &Document)
    ensures
        string_views(final(problems)@) == string_views(old(problems)@) + offer_problem(*d),
{
    let lower = lower_chars(d.body.as_str());
    let mut missing: Vec<String> = Vec::new();
    let mut i: usize = 0;
    while i < SECTION_COUNT
        invariant
            i <= SECTION_COUNT,
            string_views(missing@) == missing_sections(lower@, i as int),
        decreases SECTION_COUNT - i,
    {
        let present = mentions_section(&lower, i);
        push_if(&mut missing, !present, section_title(i));
        i += 1;
    }
    let mut text = owned("\"");
    push_str(&mut text, d.title.as_str());
    push_str(&mut text, "\": ");
    let j = join(&missing, ", ");
    push_str(&mut text, j.as_str());
    push_if(problems, missing.len() > 0, text);
}

fn check_contract(rule: &Rule, f: &Facts, zh: bool) -> (r: Option<ComplianceFinding>)
    ensures
        match contract_outcome(*f, zh) {
            Some(o) => r matches Some(x) && made(x, *rule, o, zh),
            None => r is None,
        },
{
    let mut problems: Vec<String> = Vec::new();
    let mut count: usize = 0;
    match f.document {
        Some(d) => {
            if d.kind != DocumentKind::Offer {
                return None;
            }
            push_offer_problem(&mut problems, d);
            assert(string_views(problems@) =~= offer_problem(*d));
            count = 1;
        },
        None => {
            let ds = &f.workspace.documents;
            let mut i: usize = 0;
            while i < ds.len()
                invariant
                    i <= ds@.len(),
                    count == sent_offers(ds@.take(i as int)),
                    count <= i,
                    string_views(problems@) == offer_problems(ds@.take(i as int)),
                decreases ds@.len() - i,
            {
                assert(ds@.take(i + 1).drop_last() =~= ds@.take(i as int));
                let d = &ds[i];
                let sent = d.kind == DocumentKind::Offer && (d.status
                    == DocumentStatus::ApprovedPendingDelivery || d.status
                    == DocumentStatus::Delivered);
                if sent {
                    push_offer_problem(&mut problems, d);
                    count += 1;
                } else {
                    assert(string_views(problems@) + Seq::<Seq<char>>::empty() =~= string_views(problems@));
                }
                i += 1;
            }
            assert(ds@.take(i as int) =~= ds@);
        },
    }
    let used: [&str; 1] = ["document.body"];
    assert(str_views(used@) =~= seq!["document.body"@]);
    if count == 0 {
        let t = pick_str(zh, "No sent offers to check.", "没有已发送的方案可检查。");
        Some(finding(rule, FindingStatus::NotApplicable, t, &used, zh))
    } else if problems.len() == 0 {
        let t = pick_str(
            zh,
            "Every checked offer states scope, deliverables, timeline, fees, confidentiality, IP, and liability.",
            "检查的方案都写明了范围、交付物、周期、费用、保密、知识产权和责任。",
        );
        Some(finding(rule, FindingStatus::Pass, t, &used, zh))
    } else {
        let t = if zh {
            let j = join(&problems, ";");
            concat3("方案缺少章节 — ", j.as_str(), "。")
        } else {
            let j = join(&problems, "; ");
            concat3("Offers missing sections — ", j.as_str(), ".")
        };
        Some(finding(rule, FindingStatus::Attention, t, &used, zh))
    }
}


// ---------------------------------------------------------------------------
// One rule
// ---------------------------------------------------------------------------

/// What the check of `rule` finds in the facts: a status, the explanation,
/// and the fields read; nothing where the rule does not apply to the
/// subject (a company-wide rule when one document is checked, or the
/// reverse).
pub open spec fn rule_outcome(rule: Rule, f: Facts, zh: bool) -> Option<
    (FindingStatus, Seq<char>, Seq<Seq<char>>),
> {
    match rule.check {
        CheckKind::JurisdictionKnown => Some(jurisdiction_outcome(*f.venture, zh)),
        CheckKind::GstRegistrationThreshold => gst_threshold_outcome(f, zh),
        CheckKind::GstTaxInvoiceFields => gst_invoice_outcome(f, zh),
        CheckKind::EInvoicing => einvoicing_outcome(f, zh),
        CheckKind::InvoiceEssentials => invoice_essentials_outcome(f, zh),
        CheckKind::EstimatedChargeableIncome => eci_outcome(f, zh),
        CheckKind::CorporateTaxReturn => tax_return_outcome(f, zh),
        CheckKind::AnnualGeneralMeetingAndReturn => agm_outcome(f, zh),
        CheckKind::PersonalDataConsent => consent_outcome(f, zh),
        CheckKind::DataProtectionOfficer => dpo_outcome(f, zh),
        CheckKind::RecordKeeping => records_outcome(f, zh),
        CheckKind::ContractEssentials => contract_outcome(f, zh),
        CheckKind::CrossBorderCustomers => cross_border_outcome(f, zh),
    }
}

/// The check of `rule` can be run on the facts: the day checked is the UTC
/// calendar day of the instant checked; where it sums the receipts
/// of the last twelve months, they fit the money type; where it computes
/// deadlines, the calendar day leaves room for the arithmetic.
pub open spec fn checkable(rule: Rule, f: Facts) -> bool {
    &&& f.today == day_of(f.now_unix)
    &&& (rule.check == CheckKind::GstRegistrationThreshold && f.document is None) ==> {
        &&& f.now_unix >= i64::MIN + 365 * DAY_SECONDS
        &&& receipts_of(f) <= u64::MAX
    }
    &&& ((rule.check == CheckKind::EstimatedChargeableIncome || rule.check
        == CheckKind::AnnualGeneralMeetingAndReturn) && f.document is None
        && f.venture.incorporated_at is Some) ==> today_ok(f.today)
}

/// The finding `f` states the outcome `o` of `rule`, or there is no
/// finding where there is no outcome.
pub open spec fn states(r: Option<ComplianceFinding>, rule: Rule, o: Option<
    (FindingStatus, Seq<char>, Seq<Seq<char>>),
>, zh: bool) -> bool {
    match o {
        Some(x) => r matches Some(found) && made(found, rule, x, zh),
        None => r is None,
    }
}

/// Checks one rule against the facts.
pub fn check_rule(rule: &Rule, facts: &Facts, zh: bool) -> (r: Option<ComplianceFinding>)
    requires
        checkable(*rule, *facts),
    ensures
        states(r, *rule, rule_outcome(*rule, *facts, zh), zh),
{
    match rule.check {
        CheckKind::JurisdictionKnown => Some(check_jurisdiction(rule, facts.venture, zh)),
        CheckKind::GstRegistrationThreshold => check_gst_threshold(rule, facts, zh),
        CheckKind::GstTaxInvoiceFields => check_gst_invoice(rule, facts, zh),
        CheckKind::EInvoicing => check_einvoicing(rule, facts, zh),
        CheckKind::InvoiceEssentials => check_invoice_essentials(rule, facts, zh),
        CheckKind::EstimatedChargeableIncome => check_eci(rule, facts, zh),
        CheckKind::CorporateTaxReturn => check_tax_return(rule, facts, zh),
        CheckKind::AnnualGeneralMeetingAndReturn => check_agm(rule, facts, zh),
        CheckKind::PersonalDataConsent => check_consent(rule, facts, zh),
        CheckKind::DataProtectionOfficer => check_dpo(rule, facts, zh),
        CheckKind::RecordKeeping => check_records(rule, facts, zh),
        CheckKind::ContractEssentials => check_contract(rule, facts, zh),
        CheckKind::CrossBorderCustomers => check_cross_border(rule, facts, zh),
    }
}

/// 1970-01-01, the day `chrono` gives when an instant has no date.
pub open spec fn epoch_day() -> Date {
    Date { year: 1970, month: 1, day: 1 }
}

/// The UTC calendar day of `now_unix`, or 1970-01-01 where there is none.
pub open spec fn day_of(now_unix: i64) -> Date {
    match utc_date_of(now_unix as int) {
        Some(d) => d,
        None => epoch_day(),
    }
}

impl<'a> Facts<'a> {
    /// The facts for a check run at `now_unix`, on the calendar day that
    /// instant falls on in UTC.
    pub fn new(
        workspace: &'a Workspace,
        venture: &'a Venture,
        now_unix: i64,
        document: Option<&'a Document>,
    ) -> (f: Facts<'a>)
        ensures
            f.workspace == workspace,
            f.venture == venture,
            f.now_unix == now_unix,
            f.document == document,
            f.today == day_of(now_unix),
            valid_date(f.today),
    {
        let today = match utc_date(now_unix) {
            Some(d) => d,
            None => Date { year: 1970, month: 1, day: 1 },
        };
        Facts { workspace, venture, now_unix, today, document }
    }
}

} // verus!
