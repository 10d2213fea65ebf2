use base64::Engine;
use chrono::TimeZone;
use sovereign_cli::compose::{
    compose_email, compose_message, draft_outreach_note, encode_display_name, encode_unstructured,
    format_money, header_safe, mailbox, outgoing_facts, preview_email, reference, render_document,
    subject_line,
};
use sovereign_cli::erp::CustomerStage;
use sovereign_cli::types::{Customer, Document, DocumentKind, DocumentStatus, Venture};

fn venture(name: &str, currency: &str, uen: &str) -> Venture {
    Venture {
        name: name.into(),
        service: "Order-flow consulting".into(),
        updated_at: 0,
        jurisdiction: String::new(),
        currency: currency.into(),
        uen: uen.into(),
        gst_registered: false,
        incorporated_at: None,
        fiscal_year_end_month: 12,
        revenue_estimate_cents: None,
    }
}

fn customer(name: &str, email: &str) -> Customer {
    Customer {
        id: 0x1111_2222_3333_4444_5555_6666_7777_8888,
        name: name.into(),
        email: email.into(),
        notes: String::new(),
        created_at: 0,
        stage: CustomerStage::Customer,
        discovery_notes: String::new(),
        jurisdiction: String::new(),
        personal_data_consent: true,
        updated_at: 0,
    }
}

fn document(kind: DocumentKind, title: &str, body: &str, amount: Option<u64>) -> Document {
    Document {
        id: 0x9abc_def0_1234_5678_9abc_def0_1234_5678,
        kind,
        customer_id: 0x1111_2222_3333_4444_5555_6666_7777_8888,
        title: title.into(),
        body: body.into(),
        amount_cents: amount,
        status: DocumentStatus::PendingApproval,
        created_at: 0,
        updated_at: 0,
        revision: 1,
        due_at: None,
        project_id: None,
        accepted_at: None,
    }
}

fn split(message: &str) -> (&str, &str) {
    message.split_once("\r\n\r\n").expect("a header block and a body")
}

fn header(message: &str, name: &str) -> String {
    let (headers, _) = split(message);
    let unfolded = headers.replace("\r\n ", " ");
    unfolded
        .split("\r\n")
        .find_map(|line| line.strip_prefix(&format!("{name}: ")))
        .unwrap_or_else(|| panic!("no {name} header"))
        .to_owned()
}

fn decode_words(value: &str) -> String {
    let mut bytes = Vec::new();
    for word in value.split(' ') {
        let payload = word
            .strip_prefix("=?UTF-8?B?")
            .and_then(|rest| rest.strip_suffix("?="))
            .unwrap_or_else(|| panic!("not an encoded-word: {word}"));
        let decoded = base64::engine::general_purpose::STANDARD
            .decode(payload)
            .expect("valid base64");
        assert!(std::str::from_utf8(&decoded).is_ok(), "a split character in {word}");
        bytes.extend(decoded);
    }
    String::from_utf8(bytes).expect("words decode to whole UTF-8 characters")
}

fn local_noon(year: i32, month: u32, day: u32) -> i64 {
    chrono::Local
        .with_ymd_and_hms(year, month, day, 12, 0, 0)
        .single()
        .unwrap()
        .timestamp()
}

#[test]
fn an_invoice_states_the_approved_amount_due_date_and_issuer() {
    let company = venture("晓岸咨询", "SGD", "202412345K");
    let buyer = customer("翠林饮品有限公司", "ops@cuilin.example");
    let mut invoice = document(
        DocumentKind::Invoice,
        "订单系统迁移项目",
        "为客户提供数字化转型咨询和流程梳理",
        Some(800_000),
    );
    invoice.due_at = Some(local_noon(2026, 10, 12));

    let message = compose_email(Some(&company), Some(&buyer), &invoice);
    let (_, body) = split(&message);
    let reference = uuid::Uuid::from_u128(invoice.id).simple().to_string()[..8].to_ascii_uppercase();
    assert!(body.starts_with("为客户提供数字化转型咨询和流程梳理\r\n"));
    for line in [
        "应付金额:SGD 8,000.00".to_owned(),
        "付款期限:2026-10-12".to_owned(),
        "开票方:晓岸咨询(UEN 202412345K)".to_owned(),
        format!("参考编号:{reference}"),
    ] {
        assert!(body.contains(&format!("{line}\r\n")), "missing {line:?}");
    }
    assert_eq!(decode_words(&header(&message, "Subject")), "发票:订单系统迁移项目");
}

#[test]
fn the_stated_amount_follows_the_record_not_the_body() {
    let company = venture("Acme", "USD", "");
    let offer = document(
        DocumentKind::Offer,
        "Website refresh",
        "Scope as discussed. Earlier we said 2,000.",
        Some(250_000),
    );
    let message = compose_email(Some(&company), Some(&customer("Dr. Tan", "t@x.example")), &offer);
    let (_, body) = split(&message);
    assert!(body.contains("\r\n--\r\nQuoted amount: USD 2,500.00\r\nFrom: Acme\r\n"));
    assert!(!body.contains("Payment due"));
    assert!(!body.contains("UEN"));
    assert_eq!(header(&message, "Subject"), "Offer: Website refresh");
}

#[test]
fn a_document_with_no_amount_or_due_date_gets_no_facts_block() {
    let offer = document(DocumentKind::Offer, "Proposal — Acme", "Hello.\n", None);
    let message = compose_email(Some(&venture("Acme", "SGD", "")), None, &offer);
    let (_, body) = split(&message);
    assert_eq!(body, "Hello.\r\n");
    assert_eq!(decode_words(&header(&message, "Subject")), "Proposal — Acme");
}

#[test]
fn non_ascii_headers_are_encoded_words_that_round_trip() {
    let long_title = "晓岸咨询为翠林饮品有限公司提供的订单系统迁移、流程梳理与上线培训服务".repeat(2);
    let company = venture("晓岸咨询", "SGD", "");
    let buyer = customer("翠林饮品有限公司", "ops@cuilin.example");
    let invoice = document(DocumentKind::Invoice, &long_title, "说明", Some(100));
    let message = compose_email(Some(&company), Some(&buyer), &invoice);
    let (headers, _) = split(&message);

    assert!(headers.is_ascii(), "a raw non-ASCII byte in the headers");
    assert!(headers.contains("\r\nContent-Transfer-Encoding: 8bit\r\n"));
    let mut encoded_lines = 0;
    for line in headers.split("\r\n").filter(|line| line.contains("=?")) {
        encoded_lines += 1;
        assert!(line.len() <= 76, "header line over 76 chars: {line}");
        for word in line.split(' ').filter(|w| w.starts_with("=?")) {
            assert!(word.len() <= 75, "encoded-word over 75 chars: {word}");
        }
    }
    assert!(encoded_lines > 4, "only {encoded_lines} encoded lines");
    for name_header in ["From", "To"] {
        let value = header(&message, name_header);
        assert_eq!(value.matches("=?").count(), 1, "{name_header}: {value}");
    }
    let from = header(&message, "From");
    let (from_name, from_addr) = from.rsplit_once(' ').unwrap();
    assert_eq!(decode_words(from_name), "晓岸咨询");
    assert_eq!(from_addr, "<founder@example.invalid>");
    let to = header(&message, "To");
    let (to_name, to_addr) = to.rsplit_once(' ').unwrap();
    assert_eq!(decode_words(to_name), "翠林饮品有限公司");
    assert_eq!(to_addr, "<ops@cuilin.example>");
    assert_eq!(decode_words(&header(&message, "Subject")), format!("发票:{long_title}"));
}

#[test]
fn money_uses_the_company_currency_and_groups_digits() {
    assert_eq!(format_money("SGD", 0), "SGD 0.00");
    assert_eq!(format_money("SGD", 99), "SGD 0.99");
    assert_eq!(format_money("SGD", 100_000), "SGD 1,000.00");
    assert_eq!(format_money("MYR", 123_456_789), "MYR 1,234,567.89");
    assert_eq!(format_money("", 100_000), "1,000.00");
}

#[test]
fn money_trims_the_code_and_groups_exact_thousands() {
    assert_eq!(format_money("  SGD ", 100_000_000), "SGD 1,000,000.00");
    assert_eq!(format_money("   ", 12_345), "123.45");
    assert_eq!(format_money("SGD", 99_999), "SGD 999.99");
}

#[test]
fn a_composed_message_has_the_fixed_headers_and_a_placeholder_note_without_an_address() {
    let offer = document(DocumentKind::Offer, "Website refresh", "Hi\r\nthere  \n\n", Some(1));
    let message = compose_message(Some(&venture("Acme", "SGD", "")), None, &offer, "Mon, 1 Jan 2026 00:00:00 +0000", "");
    let (headers, body) = split(&message);
    assert!(headers.starts_with("From: Acme <founder@example.invalid>\r\nTo: Customer <recipient@example.invalid>\r\n"));
    assert!(headers.contains("\r\nDate: Mon, 1 Jan 2026 00:00:00 +0000\r\n"));
    assert!(headers.contains("\r\nMessage-ID: <9abcdef0123456789abcdef012345678@sovereign-founder-os.invalid>\r\n"));
    assert!(headers.contains("X-Sovereign-Note: recipient address is a placeholder"));
    assert!(body.starts_with("Hi\r\nthere\r\n\r\n--\r\nQuoted amount: SGD 0.01\r\nFrom: Acme\r\nReference: 9ABCDEF0\r\n"));
}

#[test]
fn the_preview_decodes_the_envelope_and_unfolds_the_body() {
    let offer = document(DocumentKind::Offer, "Website refresh", "Line one\nLine two", None);
    let buyer = customer("Dr. Tan", " t@x.example ");
    let preview = preview_email(Some(&venture("Acme", "SGD", "")), Some(&buyer), &offer);
    assert_eq!(preview.from, "Acme <founder@example.invalid>");
    assert_eq!(preview.to, "Dr. Tan <t@x.example>");
    assert_eq!(preview.subject, "Offer: Website refresh");
    assert_eq!(preview.body, "Line one\nLine two\n");
    assert!(preview.from_is_placeholder);
    assert!(!preview.to_is_placeholder);
}

#[test]
fn subjects_name_the_kind_unless_the_title_does() {
    let invoice = document(DocumentKind::Invoice, "Project X", "", None);
    assert_eq!(subject_line(&invoice, false), "Invoice: Project X");
    assert_eq!(subject_line(&invoice, true), "发票:Project X");
    let named = document(DocumentKind::Invoice, "INVOICE 7", "", None);
    assert_eq!(subject_line(&named, false), "INVOICE 7");
    let quote = document(DocumentKind::Offer, "Our quote", "", None);
    assert_eq!(subject_line(&quote, false), "Our quote");
}

#[test]
fn display_names_are_atoms_quoted_strings_or_encoded_words() {
    assert_eq!(encode_display_name("Acme"), "Acme");
    assert_eq!(encode_display_name("Dr. Tan"), "\"Dr. Tan\"");
    assert_eq!(encode_display_name("a\"b\\c"), "\"a\\\"b\\\\c\"");
    assert_eq!(encode_display_name(""), "\"\"");
    assert_eq!(encode_display_name("Ac\r\nme"), "Acme");
    assert_eq!(encode_display_name("晓岸"), "=?UTF-8?B?5pmT5bK4?=");
    assert_eq!(mailbox("晓岸", "a@b.example"), "=?UTF-8?B?5pmT5bK4?=\r\n <a@b.example>");
    assert_eq!(mailbox("Acme", "a@b.example"), "Acme <a@b.example>");
}

#[test]
fn encoded_words_hold_at_most_thirty_six_bytes() {
    assert_eq!(encode_unstructured("plain"), "plain");
    let text = "界".repeat(13);
    let words = encode_unstructured(&text);
    let parts: Vec<&str> = words.split("\r\n ").collect();
    assert_eq!(parts.len(), 2);
    assert_eq!(decode_words(parts[0]), "界".repeat(12));
    assert_eq!(decode_words(parts[1]), "界");
}

#[test]
fn header_values_lose_line_breaks() {
    assert_eq!(header_safe("a\r\nb\nc"), "a  b c");
}

#[test]
fn the_reference_is_the_first_eight_hex_digits_in_upper_case() {
    assert_eq!(reference(0x9abc_def0_1234_5678_9abc_def0_1234_5678), "9ABCDEF0");
    assert_eq!(reference(1), "00000000");
}

#[test]
fn facts_need_an_amount_or_a_due_date() {
    let v = venture("Acme", "SGD", " 123 ");
    let offer = document(DocumentKind::Offer, "x", "y", None);
    assert!(outgoing_facts(Some(&v), &offer, false, "").is_empty());
    let mut invoice = document(DocumentKind::Invoice, "x", "y", None);
    invoice.due_at = Some(0);
    let lines = outgoing_facts(Some(&v), &invoice, false, "2026-01-02");
    assert_eq!(lines, vec!["Payment due: 2026-01-02", "Issued by: Acme (UEN 123)", "Reference: 9ABCDEF0"]);
}

#[test]
fn templates_and_notes_use_only_known_facts() {
    let v = venture("Acme", "SGD", "");
    let c = customer("Beta", "b@x.example");
    let doc = render_document(DocumentKind::Invoice, &v, &c, Some(150_000), false, 7, 99);
    assert_eq!(doc.title, "Invoice — Acme to Beta");
    assert!(doc.body.contains("Amount: SGD 1,500.00"));
    assert_eq!(doc.id, 7);
    assert_eq!(doc.created_at, 99);
    assert_eq!(doc.revision, 1);
    let note = draft_outreach_note(&v, &c, false);
    assert!(note.starts_with("Hi Beta,\n\nI'm the founder of Acme. Order-flow consulting — "));
}

#[test]
fn the_date_header_is_an_rfc2822_instant_in_utc() {
    let offer = document(DocumentKind::Offer, "Website refresh", "Hello.", None);
    let message = compose_email(Some(&venture("Acme", "SGD", "")), None, &offer);
    let date = header(&message, "Date");
    let parts: Vec<&str> = date.split(' ').collect();
    assert_eq!(parts.len(), 6, "{date}");
    assert!(["Sun,", "Mon,", "Tue,", "Wed,", "Thu,", "Fri,", "Sat,"].contains(&parts[0]), "{date}");
    assert!((1..=2).contains(&parts[1].len()) && parts[1].chars().all(|c| c.is_ascii_digit()), "{date}");
    assert!(["Jan", "Feb", "Mar", "Apr", "May", "Jun", "Jul", "Aug", "Sep", "Oct", "Nov", "Dec"].contains(&parts[2]), "{date}");
    assert_eq!(parts[3].len(), 4, "{date}");
    assert_eq!(parts[4].len(), 8, "{date}");
    assert_eq!(parts[5], "+0000", "{date}");
}
