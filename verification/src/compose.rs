//! Documents and messages composed from the founder's records: template
//! drafts, amounts as the customer reads them, and the RFC 5322 message an
//! approved document becomes in the local outbox.
use vstd::prelude::*;

use crate::checks::{concat3, join, joined, mentions_any, mentions_marker, pick};
use crate::compliance::str_views;
use crate::crew_draft::{cat, cat_strs};
use crate::text::{
    ascii_alnum, ascii_char, ascii_upper, char_utf8_len, chars_of, cjk, contains, decimal, ends_with,
    digit_char, ends_with_str, has_sub, is_ascii_alnum, is_ascii_char, is_cjk, lower_chars, lowercase_of, owned,
    matches_at, push_chars, push_decimal, push_str, push_two_digits, slice, split_by,
    split_pieces,
    string_of, string_views, to_ascii_upper, trim, trim_back, trimmed, two_digits, utf8_len,
    utf8_len_seq, views, white,
};
use base64::Engine;
use crate::calendar::{date_text_of, days_from_civil, four_digits, utc_date_of, valid_date, Date};
use crate::types::{Customer, Document, DocumentKind, DocumentStatus, Venture};

verus! {

// ---------------------------------------------------------------------------
// Amounts
// ---------------------------------------------------------------------------

/// Decimal digits with a comma before each group of three from the right.
pub open spec fn group3(s: Seq<char>) -> Seq<char>
    decreases s.len(),
{
    if s.len() <= 3 {
        s
    } else {
        group3(s.take(s.len() - 3)) + seq![','] + s.skip(s.len() - 3)
    }
}

/// `SGD 8,000.00`: the currency code (trimmed; left out when empty), the
/// whole units with grouped digits, and two-digit cents.
pub open spec fn money_text(currency: Seq<char>, cents: u64) -> Seq<char> {
    let amount = group3(decimal((cents / 100) as nat)) + seq!['.'] + two_digits((cents % 100) as nat);
    let code = trimmed(currency);
    if code.len() == 0 {
        amount
    } else {
        code + seq![' '] + amount
    }
}

fn push_grouped(out: &mut Vec<char>, s: &Vec<char>, n: usize)
    requires
        n <= s@.len(),
    ensures
        final(out)@ == old(out)@ + group3(s@.take(n as int)),
    decreases n,
{
    if n <= 3 {
        let mut i: usize = 0;
        while i < n
            invariant
                i <= n <= s@.len(),
                out@ == old(out)@ + s@.take(i as int),
            decreases n - i,
        {
            out.push(s[i]);
            assert(s@.take(i + 1) =~= s@.take(i as int).push(s@[i as int]));
            i += 1;
        }
    } else {
        push_grouped(out, s, n - 3);
        out.push(',');
        out.push(s[n - 3]);
        out.push(s[n - 2]);
        out.push(s[n - 1]);
        let ghost t = s@.take(n as int);
        assert(t.take(t.len() - 3) =~= s@.take(n - 3));
        assert(t.skip(t.len() - 3) =~= seq![s@[n - 3], s@[n - 2], s@[n - 1]]);
    }
}

/// An amount as the customer reads it, in the company's currency.
pub fn format_money(currency: &str, cents: u64) -> (r: String)
    ensures
        r@ == money_text(currency@, cents),
{
    let mut whole: Vec<char> = Vec::new();
    push_decimal(&mut whole, cents / 100);
    assert(whole@.take(whole@.len() as int) =~= whole@);
    let code = trim(&chars_of(currency));
    let mut out: Vec<char> = Vec::new();
    if code.len() > 0 {
        push_chars(&mut out, &code);
        out.push(' ');
    }
    push_grouped(&mut out, &whole, whole.len());
    out.push('.');
    push_two_digits(&mut out, cents % 100);
    string_of(&out)
}

// ---------------------------------------------------------------------------
// Language and subject
// ---------------------------------------------------------------------------

/// The text holds a CJK unified ideograph.
pub open spec fn has_chinese(s: Seq<char>) -> bool {
    exists|i: int| 0 <= i < s.len() && is_cjk(#[trigger] s[i])
}

pub fn contains_chinese(text: &str) -> (r: bool)
    ensures
        r == has_chinese(text@),
{
    let v = chars_of(text);
    let mut i: usize = 0;
    while i < v.len()
        invariant
            i <= v@.len(),
            v@ == text@,
            forall|k: int| 0 <= k < i ==> !is_cjk(#[trigger] v@[k]),
        decreases v@.len() - i,
    {
        if cjk(v[i]) {
            assert(is_cjk(v@[i as int]));
            return true;
        }
        i += 1;
    }
    false
}

/// A document is written in Chinese when its title or body holds Chinese.
pub open spec fn in_chinese(d: Document) -> bool {
    has_chinese(d.title@) || has_chinese(d.body@)
}

pub fn written_in_chinese(document: &Document) -> (r: bool)
    ensures
        r == in_chinese(*document),
{
    contains_chinese(document.title.as_str()) || contains_chinese(document.body.as_str())
}

/// `value` with each CR and LF turned into a space.
pub open spec fn header_safe_spec(value: Seq<char>) -> Seq<char> {
    value.map_values(|c: char| if c == '\r' || c == '\n' { ' ' } else { c })
}

pub fn header_safe(value: &str) -> (r: String)
    ensures
        r@ == header_safe_spec(value@),
{
    let v = chars_of(value);
    let mut out: Vec<char> = Vec::new();
    let mut i: usize = 0;
    while i < v.len()
        invariant
            i <= v@.len(),
            out@ == header_safe_spec(v@.take(i as int)),
        decreases v@.len() - i,
    {
        let c = v[i];
        out.push(if c == '\r' || c == '\n' { ' ' } else { c });
        assert(header_safe_spec(v@.take(i + 1)) =~= header_safe_spec(v@.take(i as int)).push(
            if c == '\r' || c == '\n' { ' ' } else { c },
        ));
        i += 1;
    }
    assert(v@.take(i as int) =~= v@);
    string_of(&out)
}

pub open spec fn subject_label(kind: DocumentKind, zh: bool) -> Seq<char> {
    match (kind, zh) {
        (DocumentKind::Invoice, true) => "发票"@,
        (DocumentKind::Invoice, false) => "Invoice"@,
        (DocumentKind::Offer, true) => "报价"@,
        (DocumentKind::Offer, false) => "Offer"@,
    }
}

/// The words that already name the document's kind in a title.
pub open spec fn subject_words(kind: DocumentKind, zh: bool) -> Seq<Seq<char>> {
    match (kind, zh) {
        (DocumentKind::Invoice, true) => seq!["发票"@, "invoice"@],
        (DocumentKind::Invoice, false) => seq!["invoice"@, "发票"@],
        (DocumentKind::Offer, true) => seq!["报价"@, "方案"@, "提案"@, "offer"@, "proposal"@],
        (DocumentKind::Offer, false) => seq!["offer"@, "proposal"@, "quote"@, "报价"@],
    }
}

/// The subject names the document's kind, so an invoice titled after its
/// project still reads as an invoice, unless the title already says so.
pub open spec fn subject_spec(d: Document, zh: bool) -> Seq<char> {
    if mentions_any(lowercase_of(d.title@), subject_words(d.kind, zh)) {
        d.title@
    } else if zh {
        subject_label(d.kind, zh) + ":"@ + d.title@
    } else {
        subject_label(d.kind, zh) + ": "@ + d.title@
    }
}

pub fn subject_line(document: &Document, zh: bool) -> (r: String)
    ensures
        r@ == subject_spec(*document, zh),
{
    let lowered = lower_chars(document.title.as_str());
    let (label, found) = match (document.kind, zh) {
        (DocumentKind::Invoice, true) => {
            let w: [&str; 2] = ["发票", "invoice"];
            assert(str_views(w@) =~= subject_words(document.kind, zh));
            ("发票", mentions_marker(&lowered, &w))
        },
        (DocumentKind::Invoice, false) => {
            let w: [&str; 2] = ["invoice", "发票"];
            assert(str_views(w@) =~= subject_words(document.kind, zh));
            ("Invoice", mentions_marker(&lowered, &w))
        },
        (DocumentKind::Offer, true) => {
            let w: [&str; 5] = ["报价", "方案", "提案", "offer", "proposal"];
            assert(str_views(w@) =~= subject_words(document.kind, zh));
            ("报价", mentions_marker(&lowered, &w))
        },
        (DocumentKind::Offer, false) => {
            let w: [&str; 4] = ["offer", "proposal", "quote", "报价"];
            assert(str_views(w@) =~= subject_words(document.kind, zh));
            ("Offer", mentions_marker(&lowered, &w))
        },
    };
    if found {
        document.title.clone()
    } else if zh {
        concat3(label, ":", document.title.as_str())
    } else {
        concat3(label, ": ", document.title.as_str())
    }
}

// ---------------------------------------------------------------------------
// Template drafts
// ---------------------------------------------------------------------------

/// The outreach note the local assistant drafts from known facts only.
pub open spec fn outreach_spec(v: Venture, c: Customer, zh: bool) -> Seq<char> {
    if zh {
        "你好 "@ + c.name@ + ",\n\n我是 "@ + v.name@ + " 的负责人。"@ + v.service@ + "——如果这正是你们现在需要的,我很乐意约个简短的通话,聊聊你们的目标和时间安排。\n\n期待回音。\n\n(本地起草助手草拟 · 未保存 · 请审阅后再使用)"@
    } else {
        "Hi "@ + c.name@ + ",\n\nI'm the founder of "@ + v.name@ + ". "@ + v.service@ + " — if that's useful to you right now, I'd be glad to set up a short call to understand your goals and timeline.\n\nLooking forward to hearing from you.\n\n(drafted by the local assistant · not saved · review before use)"@
    }
}

pub fn draft_outreach_note(venture: &Venture, customer: &Customer, zh: bool) -> (r: String)
    ensures
        r@ == outreach_spec(*venture, *customer, zh),
{
    if zh {
        let parts: [&str; 7] = ["你好 ", customer.name.as_str(), ",\n\n我是 ", venture.name.as_str(), " 的负责人。", venture.service.as_str(), "——如果这正是你们现在需要的,我很乐意约个简短的通话,聊聊你们的目标和时间安排。\n\n期待回音。\n\n(本地起草助手草拟 · 未保存 · 请审阅后再使用)"];
        assert(cat(str_views(parts@)) =~= outreach_spec(*venture, *customer, zh)) by {
            reveal_with_fuel(cat, 10);
        }
        cat_strs(&parts)
    } else {
        let parts: [&str; 7] = ["Hi ", customer.name.as_str(), ",\n\nI'm the founder of ", venture.name.as_str(), ". ", venture.service.as_str(), " — if that's useful to you right now, I'd be glad to set up a short call to understand your goals and timeline.\n\nLooking forward to hearing from you.\n\n(drafted by the local assistant · not saved · review before use)"];
        assert(cat(str_views(parts@)) =~= outreach_spec(*venture, *customer, zh)) by {
            reveal_with_fuel(cat, 10);
        }
        cat_strs(&parts)
    }
}

pub open spec fn template_title(kind: DocumentKind, v: Venture, c: Customer, zh: bool) -> Seq<char> {
    match (kind, zh) {
        (DocumentKind::Offer, false) => "Offer — "@ + v.name@ + " for "@ + c.name@,
        (DocumentKind::Offer, true) => "报价单 — "@ + v.name@ + " 致 "@ + c.name@,
        (DocumentKind::Invoice, false) => "Invoice — "@ + v.name@ + " to "@ + c.name@,
        (DocumentKind::Invoice, true) => "发票草稿 — "@ + v.name@ + " 致 "@ + c.name@,
    }
}

pub open spec fn template_body(kind: DocumentKind, v: Venture, c: Customer, amount: Seq<char>, zh: bool) -> Seq<char> {
    match (kind, zh) {
        (DocumentKind::Offer, false) => "OFFER (DRAFT)\n\nFrom: "@ + v.name@ + "\nTo: "@ + c.name@ + "\n\nProposed service:\n"@ + v.service@ + "\n\nScope, timeline, and pricing to be confirmed together.\nThis draft was generated locally by Sovereign Founder OS; no model was involved and nothing has been sent."@,
        (DocumentKind::Offer, true) => "报价单(草稿)\n\n发件方:"@ + v.name@ + "\n客户:"@ + c.name@ + "\n\n拟提供的服务:\n"@ + v.service@ + "\n\n范围、周期与价格待双方确认。\n本草稿由 Sovereign Founder OS 在本地生成;未使用任何模型,也未发送给任何人。"@,
        (DocumentKind::Invoice, false) => "INVOICE (DRAFT)\n\nFrom: "@ + v.name@ + "\nBill to: "@ + c.name@ + "\nAmount: "@ + amount + "\n\nPayment terms to be confirmed.\nThis draft was generated locally by Sovereign Founder OS and has not been issued."@,
        (DocumentKind::Invoice, true) => "发票(草稿)\n\n开票方:"@ + v.name@ + "\n客户:"@ + c.name@ + "\n金额:"@ + amount + "\n\n付款条款待确认。\n本草稿由 Sovereign Founder OS 在本地生成,尚未开具。"@,
    }
}

/// The amount an invoice template shows: the amount, or zero.
pub open spec fn template_amount(v: Venture, amount_cents: Option<u64>) -> Seq<char> {
    money_text(
        v.currency@,
        match amount_cents {
            Some(a) => a,
            None => 0,
        },
    )
}

fn title_text(kind: DocumentKind, venture: &Venture, customer: &Customer, zh: bool) -> (r: String)
    ensures
        r@ == template_title(kind, *venture, *customer, zh),
{
    let vn = venture.name.as_str();
    let cn = customer.name.as_str();
    let title = match (kind, zh) {
        (DocumentKind::Offer, false) => cat_strs(&["Offer — ", vn, " for ", cn, ""]),
        (DocumentKind::Offer, true) => cat_strs(&["报价单 — ", vn, " 致 ", cn, ""]),
        (DocumentKind::Invoice, false) => cat_strs(&["Invoice — ", vn, " to ", cn, ""]),
        (DocumentKind::Invoice, true) => cat_strs(&["发票草稿 — ", vn, " 致 ", cn, ""]),
    };
    proof {
        reveal_with_fuel(cat, 10);
        reveal_strlit("");
    }
    title
}

fn body_text(kind: DocumentKind, venture: &Venture, customer: &Customer, shown: &String, zh: bool) -> (r: String)
    ensures
        r@ == template_body(kind, *venture, *customer, shown@, zh),
{
    let vn = venture.name.as_str();
    let cn = customer.name.as_str();
    let body = match (kind, zh) {
        (DocumentKind::Offer, false) => cat_strs(&["OFFER (DRAFT)\n\nFrom: ", vn, "\nTo: ", cn, "\n\nProposed service:\n", venture.service.as_str(), "\n\nScope, timeline, and pricing to be confirmed together.\nThis draft was generated locally by Sovereign Founder OS; no model was involved and nothing has been sent."]),
        (DocumentKind::Offer, true) => cat_strs(&["报价单(草稿)\n\n发件方:", vn, "\n客户:", cn, "\n\n拟提供的服务:\n", venture.service.as_str(), "\n\n范围、周期与价格待双方确认。\n本草稿由 Sovereign Founder OS 在本地生成;未使用任何模型,也未发送给任何人。"]),
        (DocumentKind::Invoice, false) => cat_strs(&["INVOICE (DRAFT)\n\nFrom: ", vn, "\nBill to: ", cn, "\nAmount: ", shown.as_str(), "\n\nPayment terms to be confirmed.\nThis draft was generated locally by Sovereign Founder OS and has not been issued."]),
        (DocumentKind::Invoice, true) => cat_strs(&["发票(草稿)\n\n开票方:", vn, "\n客户:", cn, "\n金额:", shown.as_str(), "\n\n付款条款待确认。\n本草稿由 Sovereign Founder OS 在本地生成,尚未开具。"]),
    };
    proof {
        reveal_with_fuel(cat, 10);
        reveal_strlit("");
    }
    body
}

/// A new draft document from the template for its kind and language, with
/// the id and time the caller gives it. No model output enters it.
pub fn render_document(
    kind: DocumentKind,
    venture: &Venture,
    customer: &Customer,
    amount_cents: Option<u64>,
    zh: bool,
    id: u128,
    now: i64,
) -> (d: Document)
    ensures
        d.id == id,
        d.kind == kind,
        d.customer_id == customer.id,
        d.title@ == template_title(kind, *venture, *customer, zh),
        d.body@ == template_body(kind, *venture, *customer, template_amount(*venture, amount_cents), zh),
        d.amount_cents == amount_cents,
        d.status == DocumentStatus::Draft,
        d.created_at == now && d.updated_at == now,
        d.revision == 1,
        d.due_at is None && d.project_id is None && d.accepted_at is None,
{
    let shown = format_money(
        venture.currency.as_str(),
        match amount_cents {
            Some(a) => a,
            None => 0,
        },
    );
    let title = title_text(kind, venture, customer, zh);
    let body = body_text(kind, venture, customer, &shown, zh);
    Document {
        id,
        kind,
        customer_id: customer.id,
        title,
        body,
        amount_cents,
        status: DocumentStatus::Draft,
        created_at: now,
        updated_at: now,
        revision: 1,
        due_at: None,
        project_id: None,
        accepted_at: None,
    }
}


// ---------------------------------------------------------------------------
// Header encoding
// ---------------------------------------------------------------------------

/// The UTF-8 bytes of one character.
pub open spec fn utf8_bytes(c: char) -> Seq<u8> {
    let v = c as u32 as nat;
    if v < 0x80 {
        seq![v as u8]
    } else if v < 0x800 {
        seq![(0xC0 + v / 64) as u8, (0x80 + v % 64) as u8]
    } else if v < 0x10000 {
        seq![(0xE0 + v / 4096) as u8, (0x80 + (v / 64) % 64) as u8, (0x80 + v % 64) as u8]
    } else {
        seq![
            (0xF0 + v / 262144) as u8,
            (0x80 + (v / 4096) % 64) as u8,
            (0x80 + (v / 64) % 64) as u8,
            (0x80 + v % 64) as u8,
        ]
    }
}

/// The UTF-8 bytes of a text, `str::as_bytes`.
pub open spec fn utf8_of(s: Seq<char>) -> Seq<u8>
    decreases s.len(),
{
    if s.len() == 0 {
        Seq::empty()
    } else {
        utf8_of(s.drop_last()) + utf8_bytes(s.last())
    }
}

/// The character of a six-bit value in the standard base64 alphabet.
pub open spec fn b64_char(v: nat) -> char {
    if v < 26 {
        (('A' as u32) + v) as char
    } else if v < 52 {
        (('a' as u32) + (v - 26)) as char
    } else if v < 62 {
        (('0' as u32) + (v - 52)) as char
    } else if v == 62 {
        '+'
    } else {
        '/'
    }
}

/// Standard padded base64 (RFC 4648): every three bytes become four
/// characters, and a last group of one or two bytes is padded with `=`.
pub open spec fn base64_of(b: Seq<u8>) -> Seq<char>
    decreases b.len(),
{
    if b.len() == 0 {
        Seq::empty()
    } else if b.len() == 1 {
        let n = b[0] as nat * 65536;
        seq![b64_char(n / 262144), b64_char((n / 4096) % 64), '=', '=']
    } else if b.len() == 2 {
        let n = b[0] as nat * 65536 + b[1] as nat * 256;
        seq![b64_char(n / 262144), b64_char((n / 4096) % 64), b64_char((n / 64) % 64), '=']
    } else {
        let n = b[0] as nat * 65536 + b[1] as nat * 256 + b[2] as nat;
        seq![b64_char(n / 262144), b64_char((n / 4096) % 64), b64_char((n / 64) % 64), b64_char(n % 64)]
            + base64_of(b.skip(3))
    }
}

/// The standard padded base64 of the UTF-8 bytes of `s`.
pub open spec fn base64_utf8_of(s: Seq<char>) -> Seq<char> {
    base64_of(utf8_of(s))
}

/// `base64::engine::general_purpose::STANDARD.encode` over the UTF-8 bytes
/// of `s`: the standard alphabet with padding.
#[verifier::external_body]
fn base64_utf8(s: &str) -> (r: String)
    ensures
        r@ == base64_utf8_of(s@),
{
    base64::engine::general_purpose::STANDARD.encode(s.as_bytes())
}

/// Longest encoded-word written, delimiters included: RFC 2047 caps a word
/// at 75 and a line holding one at 76, and this leaves room for the longest
/// header name written here.
pub const MAX_ENCODED_WORD: usize = 60;

/// The UTF-8 bytes one encoded-word carries: base64 turns each 3 bytes
/// into 4 characters inside `=?UTF-8?B?` and `?=`.
pub const WORD_BYTES: usize = 36;

pub open spec fn all_ascii(s: Seq<char>) -> bool {
    forall|i: int| 0 <= i < s.len() ==> is_ascii_char(#[trigger] s[i])
}

/// The chunks so far and the one being filled, as whole characters are
/// taken left to right while a chunk's UTF-8 stays within `WORD_BYTES`.
pub open spec fn chunk_state(s: Seq<char>) -> (Seq<Seq<char>>, Seq<char>)
    decreases s.len(),
{
    if s.len() == 0 {
        (Seq::empty(), Seq::empty())
    } else {
        let (done, cur) = chunk_state(s.drop_last());
        if utf8_len_seq(cur) + utf8_len(s.last()) > WORD_BYTES {
            (done.push(cur), seq![s.last()])
        } else {
            (done, cur.push(s.last()))
        }
    }
}

pub open spec fn chunks_of(s: Seq<char>) -> Seq<Seq<char>> {
    let (done, cur) = chunk_state(s);
    if cur.len() > 0 {
        done.push(cur)
    } else {
        done
    }
}

pub open spec fn encoded_word(chunk: Seq<char>) -> Seq<char> {
    "=?UTF-8?B?"@ + base64_utf8_of(chunk) + "?="@
}

/// Header text as written: ASCII as it is; other text as RFC 2047 `B`
/// encoded-words of whole characters, folded one word per line.
pub open spec fn unstructured(text: Seq<char>) -> Seq<char> {
    if all_ascii(text) {
        text
    } else {
        joined(chunks_of(text).map_values(|c: Seq<char>| encoded_word(c)), "\r\n "@)
    }
}

pub fn is_ascii_text(v: &Vec<char>) -> (r: bool)
    ensures
        r == all_ascii(v@),
{
    let mut i: usize = 0;
    while i < v.len()
        invariant
            i <= v@.len(),
            forall|k: int| 0 <= k < i ==> is_ascii_char(#[trigger] v@[k]),
        decreases v@.len() - i,
    {
        if !ascii_char(v[i]) {
            return false;
        }
        i += 1;
    }
    true
}

proof fn lemma_chunk_small(s: Seq<char>)
    ensures
        utf8_len_seq(chunk_state(s).1) <= WORD_BYTES,
    decreases s.len(),
{
    if s.len() > 0 {
        lemma_chunk_small(s.drop_last());
        let (done, cur) = chunk_state(s.drop_last());
        assert(seq![s.last()].drop_last() =~= Seq::<char>::empty());
        assert(utf8_len_seq(Seq::<char>::empty()) == 0);
        assert(cur.push(s.last()).drop_last() =~= cur);
    }
}

pub fn encode_unstructured(text: &str) -> (r: String)
    ensures
        r@ == unstructured(text@),
{
    let v = chars_of(text);
    if is_ascii_text(&v) {
        return owned(text);
    }
    let mut done: Vec<Vec<char>> = Vec::new();
    let mut cur: Vec<char> = Vec::new();
    let mut bytes: usize = 0;
    let mut i: usize = 0;
    while i < v.len()
        invariant
            i <= v@.len(),
            v@ == text@,
            (views(done@), cur@) == chunk_state(v@.take(i as int)),
            bytes == utf8_len_seq(cur@),
            bytes <= WORD_BYTES,
        decreases v@.len() - i,
    {
        let ghost t = v@.take(i + 1);
        assert(t.drop_last() =~= v@.take(i as int));
        let c = v[i];
        let l = char_utf8_len(c);
        proof {
            lemma_chunk_small(v@.take(i as int));
        }
        if bytes + l > WORD_BYTES {
            let ghost before = views(done@);
            let full = cur;
            done.push(full);
            assert(views(done@) =~= before.push(full@));
            cur = Vec::new();
            cur.push(c);
            assert(seq![c].drop_last() =~= Seq::<char>::empty());
            assert(utf8_len_seq(Seq::<char>::empty()) == 0);
            assert(cur@ =~= seq![c]);
            bytes = l;
        } else {
            let ghost before = cur@;
            cur.push(c);
            assert(cur@.drop_last() =~= before);
            bytes = bytes + l;
        }
        i += 1;
    }
    assert(v@.take(i as int) =~= v@);
    if cur.len() > 0 {
        let ghost before = views(done@);
        let last = cur;
        done.push(last);
        assert(views(done@) =~= before.push(last@));
    }
    let ghost chunks = chunks_of(v@);
    assert(views(done@) == chunks);
    let mut words: Vec<String> = Vec::new();
    let mut k: usize = 0;
    while k < done.len()
        invariant
            k <= done@.len(),
            views(done@) == chunks,
            string_views(words@) == chunks.take(k as int).map_values(|c: Seq<char>| encoded_word(c)),
        decreases done@.len() - k,
    {
        let chunk = string_of(&done[k]);
        let enc = base64_utf8(chunk.as_str());
        let word = concat3("=?UTF-8?B?", enc.as_str(), "?=");
        let ghost before = string_views(words@);
        words.push(word);
        assert(string_views(words@) =~= before.push(encoded_word(chunks[k as int])));
        assert(chunks.take(k + 1).map_values(|c: Seq<char>| encoded_word(c)) =~= chunks.take(
            k as int,
        ).map_values(|c: Seq<char>| encoded_word(c)).push(encoded_word(chunks[k as int])));
        k += 1;
    }
    assert(chunks.take(k as int) =~= chunks);
    join(&words, "\r\n ")
}

/// The characters an unquoted display name may hold besides letters and digits.
pub open spec fn atom_char(c: char) -> bool {
    is_ascii_alnum(c) || has_sub(" !#$%&'*+-/=?^_`{|}~"@, seq![c])
}

/// `name` without CR and LF.
pub open spec fn without_breaks(s: Seq<char>) -> Seq<char>
    decreases s.len(),
{
    if s.len() == 0 {
        s
    } else if s.last() == '\r' || s.last() == '\n' {
        without_breaks(s.drop_last())
    } else {
        without_breaks(s.drop_last()).push(s.last())
    }
}

/// Backslashes and double quotes escaped with a backslash.
pub open spec fn escape_quoted(s: Seq<char>) -> Seq<char>
    decreases s.len(),
{
    if s.len() == 0 {
        s
    } else if s.last() == '\\' || s.last() == '"' {
        escape_quoted(s.drop_last()) + seq!['\\', s.last()]
    } else {
        escape_quoted(s.drop_last()).push(s.last())
    }
}

/// An RFC 5322 display name: encoded-words when not ASCII, a bare atom when
/// safe, else a quoted string.
pub open spec fn display_name(name: Seq<char>) -> Seq<char> {
    let s = without_breaks(name);
    if !all_ascii(s) {
        unstructured(s)
    } else if s.len() == 0 || exists|i: int| 0 <= i < s.len() && !atom_char(#[trigger] s[i]) {
        seq!['"'] + escape_quoted(s) + seq!['"']
    } else {
        s
    }
}

pub fn encode_display_name(name: &str) -> (r: String)
    ensures
        r@ == display_name(name@),
{
    let v = chars_of(name);
    let mut s: Vec<char> = Vec::new();
    let mut i: usize = 0;
    while i < v.len()
        invariant
            i <= v@.len(),
            s@ == without_breaks(v@.take(i as int)),
        decreases v@.len() - i,
    {
        assert(v@.take(i + 1).drop_last() =~= v@.take(i as int));
        if v[i] != '\r' && v[i] != '\n' {
            s.push(v[i]);
        }
        i += 1;
    }
    assert(v@.take(i as int) =~= v@);
    if !is_ascii_text(&s) {
        let t = string_of(&s);
        return encode_unstructured(t.as_str());
    }
    let specials = chars_of(" !#$%&'*+-/=?^_`{|}~");
    let mut quote = s.len() == 0;
    let mut j: usize = 0;
    while j < s.len()
        invariant
            j <= s@.len(),
            specials@ == " !#$%&'*+-/=?^_`{|}~"@,
            quote == (s@.len() == 0 || exists|k: int| 0 <= k < j && !atom_char(#[trigger] s@[k])),
        decreases s@.len() - j,
    {
        let mut one: Vec<char> = Vec::new();
        one.push(s[j]);
        assert(one@ =~= seq![s@[j as int]]);
        let ok = ascii_alnum(s[j]) || contains(&specials, &one);
        if !ok {
            assert(!atom_char(s@[j as int]));
            quote = true;
        }
        j += 1;
    }
    if quote {
        let mut out: Vec<char> = Vec::new();
        out.push('"');
        let mut k: usize = 0;
        while k < s.len()
            invariant
                k <= s@.len(),
                out@ == seq!['"'] + escape_quoted(s@.take(k as int)),
            decreases s@.len() - k,
        {
            assert(s@.take(k + 1).drop_last() =~= s@.take(k as int));
            if s[k] == '\\' || s[k] == '"' {
                out.push('\\');
            }
            out.push(s[k]);
            k += 1;
        }
        assert(s@.take(k as int) =~= s@);
        out.push('"');
        string_of(&out)
    } else {
        string_of(&s)
    }
}

/// `name <address>`, the address on its own folded line after an encoded
/// name.
pub open spec fn mailbox_spec(name: Seq<char>, address: Seq<char>) -> Seq<char> {
    if !all_ascii(name) {
        display_name(name) + "\r\n <"@ + address + ">"@
    } else {
        display_name(name) + " <"@ + address + ">"@
    }
}

pub fn mailbox(name: &str, address: &str) -> (r: String)
    ensures
        r@ == mailbox_spec(name@, address@),
{
    let display = encode_display_name(name);
    let v = chars_of(name);
    let mut s = if !is_ascii_text(&v) {
        concat3(display.as_str(), "\r\n <", address)
    } else {
        concat3(display.as_str(), " <", address)
    };
    push_str(&mut s, ">");
    s
}


// ---------------------------------------------------------------------------
// The facts a message states
// ---------------------------------------------------------------------------

pub open spec fn hex_digit(d: int) -> char {
    if d < 10 {
        (48 + d) as char
    } else {
        (87 + d) as char
    }
}

/// The lowest `w` hexadecimal digits of `n`, most significant first.
pub open spec fn hex_width(n: nat, w: nat) -> Seq<char>
    decreases w,
{
    if w == 0 {
        Seq::empty()
    } else {
        hex_width(n / 16, (w - 1) as nat).push(hex_digit((n % 16) as int))
    }
}

/// `uuid::Uuid::simple`: the 32 lower-case hexadecimal digits of the id's
/// 128 bits, most significant first.
#[verifier::external_body]
fn uuid_simple(id: u128) -> (r: String)
    ensures
        r@ == hex_width(id as nat, 32),
{
    uuid::Uuid::from_u128(id).simple().to_string()
}

/// The short reference a message carries: the first eight hexadecimal
/// digits of the document id, upper case.
pub open spec fn reference_of(id: u128) -> Seq<char> {
    hex_width(id as nat, 32).take(8).map_values(|c: char| ascii_upper(c))
}

pub fn reference(id: u128) -> (r: String)
    ensures
        r@ == reference_of(id),
{
    let hex = chars_of(uuid_simple(id).as_str());
    proof {
        lemma_hex_len(id as nat, 32);
    }
    let head = slice(&hex, 0, 8);
    let upper = to_ascii_upper(&head);
    string_of(&upper)
}

proof fn lemma_hex_len(n: nat, w: nat)
    ensures
        hex_width(n, w).len() == w,
    decreases w,
{
    if w > 0 {
        lemma_hex_len(n / 16, (w - 1) as nat);
    }
}

pub open spec fn amount_label(invoice: bool, zh: bool) -> Seq<char> {
    match (invoice, zh) {
        (true, true) => "应付金额"@,
        (true, false) => "Amount due"@,
        (false, true) => "报价金额"@,
        (false, false) => "Quoted amount"@,
    }
}

pub open spec fn issuer_label(invoice: bool, zh: bool) -> Seq<char> {
    match (invoice, zh) {
        (true, true) => "开票方:"@,
        (true, false) => "Issued by: "@,
        (false, true) => "报价方:"@,
        (false, false) => "From: "@,
    }
}

pub open spec fn issuer_of(v: Venture, zh: bool) -> Seq<char> {
    let uen = trimmed(v.uen@);
    if uen.len() == 0 {
        v.name@
    } else if zh {
        v.name@ + "(UEN "@ + uen + ")"@
    } else {
        v.name@ + " (UEN "@ + uen + ")"@
    }
}

/// The lines the system adds below a message, stated from the approved
/// record: the amount, the due date of an invoice, the issuer, and the
/// reference. Nothing is added to a document with neither an amount nor a
/// due date. `due_date` is how the document's due time reads locally.
pub open spec fn facts_spec(v: Option<&Venture>, d: Document, zh: bool, due_date: Seq<char>) -> Seq<Seq<char>> {
    let invoice = d.kind == DocumentKind::Invoice;
    let currency = match v {
        Some(v) => v.currency@,
        None => Seq::empty(),
    };
    if d.amount_cents is None && d.due_at is None {
        Seq::empty()
    } else {
        (match d.amount_cents {
            Some(cents) => seq![amount_label(invoice, zh) + (if zh { ":"@ } else { ": "@ }) + money_text(currency, cents)],
            None => Seq::empty(),
        }) + (if invoice && d.due_at is Some {
            seq![pick(zh, "Payment due: "@ + due_date, "付款期限:"@ + due_date)]
        } else {
            Seq::empty()
        }) + (match v {
            Some(v) => seq![issuer_label(invoice, zh) + issuer_of(*v, zh)],
            None => Seq::empty(),
        }) + seq![pick(zh, "Reference: "@ + reference_of(d.id), "参考编号:"@ + reference_of(d.id))]
    }
}

pub fn outgoing_facts(venture: Option<&Venture>, document: &Document, zh: bool, due_date: &str) -> (r: Vec<String>)
    ensures
        string_views(r@) == facts_spec(venture, *document, zh, due_date@),
{
    let mut lines: Vec<String> = Vec::new();
    if document.amount_cents.is_none() && document.due_at.is_none() {
        return lines;
    }
    let invoice = document.kind == DocumentKind::Invoice;
    let currency: &str = match venture {
        Some(v) => v.currency.as_str(),
        None => "",
    };
    proof {
        reveal_strlit("");
    }
    let ghost l0 = string_views(lines@);
    match document.amount_cents {
        Some(cents) => {
            let label = match (invoice, zh) {
                (true, true) => "应付金额",
                (true, false) => "Amount due",
                (false, true) => "报价金额",
                (false, false) => "Quoted amount",
            };
            let m = format_money(currency, cents);
            lines.push(concat3(label, if zh { ":" } else { ": " }, m.as_str()));
        },
        None => {},
    }
    let ghost l1 = string_views(lines@);
    if invoice && document.due_at.is_some() {
        lines.push(if zh { concat3("付款期限:", due_date, "") } else { concat3("Payment due: ", due_date, "") });
    }
    let ghost l2 = string_views(lines@);
    match venture {
        Some(v) => {
            let uen = trim(&chars_of(v.uen.as_str()));
            let issuer = if uen.len() == 0 {
                v.name.clone()
            } else {
                let u = string_of(&uen);
                let mut t = concat3(v.name.as_str(), if zh { "(UEN " } else { " (UEN " }, u.as_str());
                push_str(&mut t, ")");
                t
            };
            let label = match (invoice, zh) {
                (true, true) => "开票方:",
                (true, false) => "Issued by: ",
                (false, true) => "报价方:",
                (false, false) => "From: ",
            };
            lines.push(concat3(label, issuer.as_str(), ""));
        },
        None => {},
    }
    let r = reference(document.id);
    lines.push(if zh { concat3("参考编号:", r.as_str(), "") } else { concat3("Reference: ", r.as_str(), "") });
    assert(string_views(lines@) =~= facts_spec(venture, *document, zh, due_date@));
    lines
}

// ---------------------------------------------------------------------------
// The message
// ---------------------------------------------------------------------------

/// The sender's reserved placeholder address: the founder's own address is
/// not recorded, and their mail client sets it when they send.
pub const SENDER_PLACEHOLDER: &'static str = "founder@example.invalid";

/// Who a message is from and to, and what it is called, as a person reads
/// them; the headers encode exactly these values.
pub struct Envelope {
    pub sender_name: String,
    pub recipient_name: String,
    pub recipient_addr: String,
    pub subject: String,
    pub zh: bool,
}

pub open spec fn sender_of(v: Option<&Venture>) -> Seq<char> {
    match v {
        Some(v) => v.name@,
        None => "Sovereign Founder"@,
    }
}

pub open spec fn recipient_of(c: Option<&Customer>) -> Seq<char> {
    match c {
        Some(c) => c.name@,
        None => "Customer"@,
    }
}

pub open spec fn address_of(c: Option<&Customer>) -> Seq<char> {
    header_safe_spec(
        match c {
            Some(c) => if trimmed(c.email@).len() > 0 {
                trimmed(c.email@)
            } else {
                "recipient@example.invalid"@
            },
            None => "recipient@example.invalid"@,
        },
    )
}

pub open spec fn envelope_subject(d: Document) -> Seq<char> {
    header_safe_spec(subject_spec(d, in_chinese(d)))
}

impl Envelope {
    pub fn of(venture: Option<&Venture>, customer: Option<&Customer>, document: &Document) -> (e: Envelope)
        ensures
            e.zh == in_chinese(*document),
            e.sender_name@ == sender_of(venture),
            e.recipient_name@ == recipient_of(customer),
            e.recipient_addr@ == address_of(customer),
            e.subject@ == envelope_subject(*document),
    {
        let zh = written_in_chinese(document);
        let sender_name = match venture {
            Some(v) => v.name.clone(),
            None => owned("Sovereign Founder"),
        };
        let recipient_name = match customer {
            Some(c) => c.name.clone(),
            None => owned("Customer"),
        };
        let addr = match customer {
            Some(c) => {
                let e = trim(&chars_of(c.email.as_str()));
                if e.len() > 0 {
                    string_of(&e)
                } else {
                    owned("recipient@example.invalid")
                }
            },
            None => owned("recipient@example.invalid"),
        };
        let recipient_addr = header_safe(addr.as_str());
        let subject_text = subject_line(document, zh);
        let subject = header_safe(subject_text.as_str());
        Envelope { sender_name, recipient_name, recipient_addr, subject, zh }
    }
}

/// The line with its trailing carriage returns removed.
pub open spec fn strip_cr(s: Seq<char>) -> Seq<char>
    decreases s.len(),
{
    if s.len() > 0 && s.last() == '\r' {
        strip_cr(s.drop_last())
    } else {
        s
    }
}

pub open spec fn is_newline(c: char) -> bool {
    c == '\n'
}

fn newline_exec(c: char) -> (r: bool)
    ensures
        r == is_newline(c),
{
    c == '\n'
}

/// The document body, with trailing whitespace dropped and each line ended
/// by CRLF.
pub open spec fn body_lines(body: Seq<char>) -> Seq<char> {
    crlf_lines(split_by(trim_back(body), |c: char| is_newline(c)))
}

/// Each line without its trailing carriage returns, ended by CRLF.
pub open spec fn crlf_lines(ls: Seq<Seq<char>>) -> Seq<char>
    decreases ls.len(),
{
    if ls.len() == 0 {
        Seq::empty()
    } else {
        crlf_lines(ls.drop_last()) + strip_cr(ls.last()) + "\r\n"@
    }
}

/// Each line ended by CRLF.
pub open spec fn ended_lines(ls: Seq<Seq<char>>) -> Seq<char>
    decreases ls.len(),
{
    if ls.len() == 0 {
        Seq::empty()
    } else {
        ended_lines(ls.drop_last()) + ls.last() + "\r\n"@
    }
}

pub open spec fn facts_part(facts: Seq<Seq<char>>) -> Seq<char> {
    if facts.len() > 0 {
        "\r\n--\r\n"@ + ended_lines(facts)
    } else {
        Seq::empty()
    }
}

pub open spec fn is_placeholder(addr: Seq<char>) -> bool {
    ends_with(addr, ".invalid"@)
}

/// The message's headers, through the blank line that ends them.
pub open spec fn headers_spec(v: Option<&Venture>, c: Option<&Customer>, d: Document, date: Seq<char>) -> Seq<char> {
    "From: "@ + mailbox_spec(sender_of(v), SENDER_PLACEHOLDER@) + "\r\n"@ + "To: "@ + mailbox_spec(
        recipient_of(c),
        address_of(c),
    ) + "\r\n"@ + "Subject: "@ + unstructured(envelope_subject(d)) + "\r\n"@ + "Date: "@ + date + "\r\n"@
        + "Message-ID: <"@ + hex_width(d.id as nat, 32) + "@sovereign-founder-os.invalid>\r\n"@
        + "MIME-Version: 1.0\r\n"@ + "Content-Type: text/plain; charset=utf-8\r\n"@ + "Content-Transfer-Encoding: 8bit\r\n"@
        + "X-Sovereign-Composed: composed locally by Sovereign Founder OS; not transmitted\r\n"@ + (if is_placeholder(address_of(c)) {
        "X-Sovereign-Note: recipient address is a placeholder - set the customer's email before sending\r\n"@
    } else {
        Seq::empty()
    }) + "\r\n"@
}

/// The RFC 5322 message an approved document becomes: encoded headers, the
/// body in CRLF lines, and the stated facts. `date` is the `Date` header's
/// value and `due_date` how the due time reads locally.
pub open spec fn message_spec(
    v: Option<&Venture>,
    c: Option<&Customer>,
    d: Document,
    date: Seq<char>,
    due_date: Seq<char>,
) -> Seq<char> {
    headers_spec(v, c, d, date) + body_lines(d.body@) + facts_part(
        facts_spec(v, d, in_chinese(d), due_date),
    )
}

fn trim_end(v: &Vec<char>) -> (r: Vec<char>)
    ensures
        r@ == trim_back(v@),
{
    let mut n: usize = v.len();
    assert(v@.take(n as int) =~= v@);
    while n > 0 && white(v[n - 1])
        invariant
            n <= v@.len(),
            trim_back(v@.take(n as int)) == trim_back(v@),
        decreases n,
    {
        assert(v@.take(n as int).drop_last() =~= v@.take(n - 1));
        n -= 1;
    }
    slice(v, 0, n)
}

fn strip_cr_exec(v: &Vec<char>) -> (r: Vec<char>)
    ensures
        r@ == strip_cr(v@),
{
    let mut n: usize = v.len();
    assert(v@.take(n as int) =~= v@);
    while n > 0 && v[n - 1] == '\r'
        invariant
            n <= v@.len(),
            strip_cr(v@.take(n as int)) == strip_cr(v@),
        decreases n,
    {
        assert(v@.take(n as int).drop_last() =~= v@.take(n - 1));
        n -= 1;
    }
    slice(v, 0, n)
}

pub fn compose_message(
    venture: Option<&Venture>,
    customer: Option<&Customer>,
    document: &Document,
    date: &str,
    due_date: &str,
) -> (r: String)
    ensures
        r@ == message_spec(venture, customer, *document, date@, due_date@),
{
    let envelope = Envelope::of(venture, customer, document);
    let zh = envelope.zh;
    let placeholder = ends_with_str(&chars_of(envelope.recipient_addr.as_str()), ".invalid");
    let mut m = String::new();
    let from = mailbox(envelope.sender_name.as_str(), SENDER_PLACEHOLDER);
    push_str(&mut m, "From: ");
    push_str(&mut m, from.as_str());
    push_str(&mut m, "\r\n");
    let to = mailbox(envelope.recipient_name.as_str(), envelope.recipient_addr.as_str());
    push_str(&mut m, "To: ");
    push_str(&mut m, to.as_str());
    push_str(&mut m, "\r\n");
    let subject = encode_unstructured(envelope.subject.as_str());
    push_str(&mut m, "Subject: ");
    push_str(&mut m, subject.as_str());
    push_str(&mut m, "\r\n");
    push_str(&mut m, "Date: ");
    push_str(&mut m, date);
    push_str(&mut m, "\r\n");
    let id = uuid_simple(document.id);
    push_str(&mut m, "Message-ID: <");
    push_str(&mut m, id.as_str());
    push_str(&mut m, "@sovereign-founder-os.invalid>\r\n");
    push_str(&mut m, "MIME-Version: 1.0\r\n");
    push_str(&mut m, "Content-Type: text/plain; charset=utf-8\r\n");
    push_str(&mut m, "Content-Transfer-Encoding: 8bit\r\n");
    push_str(&mut m, "X-Sovereign-Composed: composed locally by Sovereign Founder OS; not transmitted\r\n");
    if placeholder {
        push_str(&mut m, "X-Sovereign-Note: recipient address is a placeholder - set the customer's email before sending\r\n");
    }
    push_str(&mut m, "\r\n");
    proof {
        reveal_strlit("");
    }
    assert(m@ =~= headers_spec(venture, customer, *document, date@));
    let ghost head = m@;
    let body = trim_end(&chars_of(document.body.as_str()));
    let pieces = split_pieces(&body, newline_exec, Ghost(|c: char| is_newline(c)));
    let ghost ls = views(pieces@);
    let mut i: usize = 0;
    while i < pieces.len()
        invariant
            i <= pieces@.len(),
            ls == views(pieces@),
            m@ == head + crlf_lines(ls.take(i as int)),
        decreases pieces@.len() - i,
    {
        let line = strip_cr_exec(&pieces[i]);
        let l = string_of(&line);
        push_str(&mut m, l.as_str());
        push_str(&mut m, "\r\n");
        assert(ls.take(i + 1).drop_last() =~= ls.take(i as int));
        assert(ls[i as int] == pieces@[i as int]@);
        assert(m@ =~= head + crlf_lines(ls.take(i + 1)));
        i += 1;
    }
    assert(ls.take(i as int) =~= ls);
    let facts = outgoing_facts(venture, document, zh, due_date);
    if facts.len() > 0 {
        push_str(&mut m, "\r\n--\r\n");
        let ghost fs = string_views(facts@);
        let ghost start = m@;
        let mut k: usize = 0;
        while k < facts.len()
            invariant
                k <= facts@.len(),
                fs == string_views(facts@),
                m@ == start + ended_lines(fs.take(k as int)),
            decreases facts@.len() - k,
        {
            push_str(&mut m, facts[k].as_str());
            push_str(&mut m, "\r\n");
            assert(fs.take(k + 1).drop_last() =~= fs.take(k as int));
            assert(fs[k as int] == facts@[k as int]@);
            assert(m@ =~= start + ended_lines(fs.take(k + 1)));
            k += 1;
        }
        assert(fs.take(k as int) =~= fs);
    }
    m
}


/// The three-letter English weekday, counted from Sunday.
pub open spec fn short_weekday(w: int) -> Seq<char> {
    if w == 0 {
        "Sun"@
    } else if w == 1 {
        "Mon"@
    } else if w == 2 {
        "Tue"@
    } else if w == 3 {
        "Wed"@
    } else if w == 4 {
        "Thu"@
    } else if w == 5 {
        "Fri"@
    } else {
        "Sat"@
    }
}

/// The three-letter English month.
pub open spec fn short_month(m: int) -> Seq<char> {
    if m == 1 {
        "Jan"@
    } else if m == 2 {
        "Feb"@
    } else if m == 3 {
        "Mar"@
    } else if m == 4 {
        "Apr"@
    } else if m == 5 {
        "May"@
    } else if m == 6 {
        "Jun"@
    } else if m == 7 {
        "Jul"@
    } else if m == 8 {
        "Aug"@
    } else if m == 9 {
        "Sep"@
    } else if m == 10 {
        "Oct"@
    } else if m == 11 {
        "Nov"@
    } else {
        "Dec"@
    }
}

/// The day of the month as RFC 2822 writes it: one digit below 10.
pub open spec fn rfc_day(d: nat) -> Seq<char> {
    if d < 10 {
        seq![digit_char(d)]
    } else {
        two_digits(d)
    }
}

/// An instant in UTC as an RFC 2822 `Date` value, such as
/// `Thu, 1 Jan 1970 00:00:00 +0000`: the weekday of that day (1970-01-01
/// was a Thursday), the day, month, four-digit year and time.
pub open spec fn rfc2822_utc(d: Date, h: nat, mi: nat, sec: nat) -> Seq<char> {
    short_weekday((days_from_civil(d.year as int, d.month as int, d.day as int) + 4) % 7) + ", "@
        + rfc_day(d.day as nat) + " "@ + short_month(d.month as int) + " "@ + four_digits(
        d.year as nat,
    ) + " "@ + two_digits(h) + ":"@ + two_digits(mi) + ":"@ + two_digits(sec) + " +0000"@
}

/// `t` is the `Date` value of some instant of the years 0 to 9999.
pub open spec fn is_rfc2822_utc(t: Seq<char>) -> bool {
    exists|d: Date, h: nat, mi: nat, sec: nat|
        valid_date(d) && 0 <= d.year <= 9999 && h < 24 && mi < 60 && sec < 60 && t == #[trigger] rfc2822_utc(
            d,
            h,
            mi,
            sec,
        )
}

/// `t` is a `YYYY-MM-DD` text as `chrono` writes a calendar day.
pub open spec fn is_date_text(t: Seq<char>) -> bool {
    exists|y: int, m: int, d: int| 1 <= m <= 12 && 1 <= d <= 31 && t == #[trigger] date_text_of(y, m, d)
}

/// `chrono::Utc::now().to_rfc2822()`: the current time as a `Date` header
/// value. Which instant it is depends on the clock; its form does not.
#[verifier::external_body]
fn now_rfc2822() -> (r: String)
    ensures
        is_rfc2822_utc(r@),
{
    chrono::Utc::now().to_rfc2822()
}

/// The calendar day of `at` in the machine's time zone, `YYYY-MM-DD`
/// (`chrono::Local`); empty exactly when `chrono` cannot represent the
/// instant. Which day it is depends on the machine's zone, so only its form
/// is stated.
#[verifier::external_body]
fn local_date(at: i64) -> (r: String)
    ensures
        (r@.len() == 0) == (utc_date_of(at as int) is None),
        r@.len() == 0 || is_date_text(r@),
{
    chrono::DateTime::from_timestamp(at, 0).map(
        |t| t.with_timezone(&chrono::Local).format("%Y-%m-%d").to_string(),
    ).unwrap_or_default()
}

/// What holds of the `Date` and due-date texts of an approved document's
/// message: the current instant in RFC 2822 form, and the due day in the
/// machine's zone when there is a due time `chrono` represents, else
/// nothing.
pub open spec fn message_dates(document: Document, date: Seq<char>, due: Seq<char>) -> bool {
    &&& is_rfc2822_utc(date)
    &&& match document.due_at {
        None => due.len() == 0,
        Some(at) => (due.len() == 0) == (utc_date_of(at as int) is None) && (due.len() == 0
            || is_date_text(due)),
    }
}

/// The message for an approved document, dated now, with the due date as
/// it reads in the machine's time zone.
pub fn compose_email(venture: Option<&Venture>, customer: Option<&Customer>, document: &Document) -> (r: String)
    ensures
        exists|date: Seq<char>, due: Seq<char>|
            r@ == message_spec(venture, customer, *document, date, due) && #[trigger] message_dates(
                *document,
                date,
                due,
            ),
{
    let date = now_rfc2822();
    let due = match document.due_at {
        Some(at) => local_date(at),
        None => String::new(),
    };
    let r = compose_message(venture, customer, document, date.as_str(), due.as_str());
    assert(message_dates(*document, date@, due@));
    r
}

// ---------------------------------------------------------------------------
// Preview
// ---------------------------------------------------------------------------

/// The first index at or after `i` where `pat` occurs in `s`, or -1.
pub open spec fn find_from(s: Seq<char>, pat: Seq<char>, i: int) -> int
    decreases s.len() + 1 - i,
{
    if i < 0 || i + pat.len() > s.len() {
        -1
    } else if s.subrange(i, i + pat.len()) == pat {
        i
    } else {
        find_from(s, pat, i + 1)
    }
}

/// `s` with every occurrence of `pat` replaced by `rep`, left to right.
pub open spec fn replace_all(s: Seq<char>, pat: Seq<char>, rep: Seq<char>) -> Seq<char>
    decreases s.len(),
{
    if s.len() == 0 {
        s
    } else if pat.len() > 0 && pat.len() <= s.len() && s.subrange(0, pat.len() as int) == pat {
        rep + replace_all(s.subrange(pat.len() as int, s.len() as int), pat, rep)
    } else {
        seq![s[0]] + replace_all(s.subrange(1, s.len() as int), pat, rep)
    }
}

fn find_text(s: &Vec<char>, pat: &Vec<char>) -> (r: Option<usize>)
    ensures
        match r {
            Some(k) => k == find_from(s@, pat@, 0),
            None => find_from(s@, pat@, 0) == -1,
        },
{
    let mut i: usize = 0;
    while i < s.len()
        invariant
            i <= s@.len(),
            find_from(s@, pat@, 0) == find_from(s@, pat@, i as int),
        decreases s@.len() - i,
    {
        if matches_at(s, pat, i) {
            return Some(i);
        }
        if pat.len() > s.len() - i {
            return None;
        }
        i += 1;
    }
    if pat.len() == 0 {
        assert(s@.subrange(i as int, i as int) =~= pat@);
        return Some(i);
    }
    None
}

fn replace_text(s: &Vec<char>, pat: &Vec<char>, rep: &Vec<char>) -> (r: Vec<char>)
    ensures
        r@ == replace_all(s@, pat@, rep@),
{
    let mut out: Vec<char> = Vec::new();
    let mut i: usize = 0;
    assert(s@.subrange(0, s@.len() as int) =~= s@);
    while i < s.len()
        invariant
            i <= s@.len(),
            out@ + replace_all(s@.subrange(i as int, s@.len() as int), pat@, rep@) == replace_all(
                s@,
                pat@,
                rep@,
            ),
        decreases s@.len() - i,
    {
        let ghost rest = s@.subrange(i as int, s@.len() as int);
        if pat.len() > 0 && matches_at(s, pat, i) {
            assert(rest.subrange(0, pat@.len() as int) =~= s@.subrange(i as int, i + pat@.len()));
            assert(rest.subrange(pat@.len() as int, rest.len() as int) =~= s@.subrange(
                i + pat@.len(),
                s@.len() as int,
            ));
            let ghost before = out@;
            push_chars(&mut out, rep);
            assert(out@ + replace_all(s@.subrange(i + pat@.len(), s@.len() as int), pat@, rep@) =~= before + (rep@
                + replace_all(rest.subrange(pat@.len() as int, rest.len() as int), pat@, rep@)));
            i = i + pat.len();
        } else {
            assert(!(pat@.len() > 0 && pat@.len() <= rest.len() && rest.subrange(0, pat@.len() as int)
                == pat@)) by {
                if pat@.len() > 0 && pat@.len() <= rest.len() && rest.subrange(0, pat@.len() as int) == pat@ {
                    assert(s@.subrange(i as int, i + pat@.len()) =~= rest.subrange(0, pat@.len() as int));
                }
            }
            assert(rest.subrange(1, rest.len() as int) =~= s@.subrange(i + 1, s@.len() as int));
            let ghost before = out@;
            out.push(s[i]);
            assert(out@ + replace_all(s@.subrange(i + 1, s@.len() as int), pat@, rep@) =~= before + (seq![
                rest[0],
            ] + replace_all(rest.subrange(1, rest.len() as int), pat@, rep@)));
            i = i + 1;
        }
    }
    assert(s@.subrange(i as int, s@.len() as int) =~= Seq::<char>::empty());
    assert(out@ + Seq::<char>::empty() =~= out@);
    out
}

/// What the founder reads before approving a send: the message itself, and
/// its envelope decoded for a person.
pub struct MessagePreview {
    /// The message as it would be written, CRLF and encoded-words included.
    pub message: String,
    pub from: String,
    pub to: String,
    pub subject: String,
    /// Everything after the headers, with the facts the system adds.
    pub body: String,
    /// The sender address is the reserved placeholder, not the founder's.
    pub from_is_placeholder: bool,
    /// No customer address is recorded; the recipient is a placeholder too.
    pub to_is_placeholder: bool,
}

/// The part of a message after its first blank line, with CRLF turned into
/// LF; nothing when there is no blank line.
pub open spec fn body_of(message: Seq<char>) -> Seq<char> {
    let k = find_from(message, "\r\n\r\n"@, 0);
    if k < 0 {
        Seq::empty()
    } else {
        replace_all(message.subrange(k + 4, message.len() as int), "\r\n"@, "\n"@)
    }
}

/// The preview of `message`, the message composed for the document.
pub open spec fn previews(
    p: MessagePreview,
    message: Seq<char>,
    v: Option<&Venture>,
    c: Option<&Customer>,
    d: Document,
) -> bool {
    &&& p.message@ == message
    &&& p.from@ == sender_of(v) + " <"@ + SENDER_PLACEHOLDER@ + ">"@
    &&& p.to@ == recipient_of(c) + " <"@ + address_of(c) + ">"@
    &&& p.subject@ == envelope_subject(d)
    &&& p.body@ == body_of(message)
    &&& p.from_is_placeholder
    &&& p.to_is_placeholder == is_placeholder(address_of(c))
}

/// The preview of a composed message.
pub fn preview_of(
    venture: Option<&Venture>,
    customer: Option<&Customer>,
    document: &Document,
    message: String,
) -> (p: MessagePreview)
    ensures
        previews(p, message@, venture, customer, *document),
{
    let envelope = Envelope::of(venture, customer, document);
    let m = chars_of(message.as_str());
    let sep = chars_of("\r\n\r\n");
    proof {
        reveal_strlit("\r\n\r\n");
    }
    let found = find_text(&m, &sep);
    let body = match found {
        Some(k) => {
            proof {
                lemma_find_bound(m@, sep@, 0);
            }
            assert(sep@.len() == 4);
            assert(k == find_from(m@, sep@, 0));
            let n = m.len();
            assert(k + 4 <= n);
            let rest = slice(&m, k + 4, n);
            let crlf = chars_of("\r\n");
            let lf = chars_of("\n");
            let b = replace_text(&rest, &crlf, &lf);
            string_of(&b)
        },
        None => String::new(),
    };
    let from = {
        let mut t = concat3(envelope.sender_name.as_str(), " <", SENDER_PLACEHOLDER);
        push_str(&mut t, ">");
        t
    };
    let to = {
        let mut t = concat3(envelope.recipient_name.as_str(), " <", envelope.recipient_addr.as_str());
        push_str(&mut t, ">");
        t
    };
    let to_placeholder = ends_with_str(&chars_of(envelope.recipient_addr.as_str()), ".invalid");
    MessagePreview {
        message,
        from,
        to,
        subject: envelope.subject,
        body,
        from_is_placeholder: true,
        to_is_placeholder: to_placeholder,
    }
}

proof fn lemma_find_bound(s: Seq<char>, pat: Seq<char>, i: int)
    ensures
        find_from(s, pat, i) >= 0 ==> find_from(s, pat, i) + pat.len() <= s.len(),
    decreases s.len() + 1 - i,
{
    if !(i < 0 || i + pat.len() > s.len()) && s.subrange(i, i + pat.len()) != pat {
        lemma_find_bound(s, pat, i + 1);
    }
}

/// What the founder reads before approving a send: the message composed
/// now, and its envelope decoded for a person.
pub fn preview_email(venture: Option<&Venture>, customer: Option<&Customer>, document: &Document) -> (p: MessagePreview)
    ensures
        exists|date: Seq<char>, due: Seq<char>|
            previews(p, message_spec(venture, customer, *document, date, due), venture, customer, *document)
                && #[trigger] message_dates(*document, date, due),
{
    let message = compose_email(venture, customer, document);
    preview_of(venture, customer, document, message)
}

} // verus!
