use sovereign_cli::crew::{
    amount_line, budget_midpoint_cents, clean_item, clean_list, clean_long, role_card, role_cards,
    split_sentences, Rejection, RoleId,
};

#[test]
fn budget_midpoints_and_single_values_are_found() {
    assert_eq!(
        budget_midpoint_cents("budget SGD 3,000–5,000"),
        Some(400_000)
    );
    assert_eq!(budget_midpoint_cents("around $4000"), Some(400_000));
    assert_eq!(budget_midpoint_cents("six hours a week"), None);
    assert_eq!(budget_midpoint_cents("in 2026 we need 12 things"), None);
    assert_eq!(
        budget_midpoint_cents("budget approved in 2026 for $4,500"),
        Some(450_000)
    );
    assert_eq!(budget_midpoint_cents("预算三千到五千"), None);
}

#[test]
fn sentences_split_on_english_and_chinese_punctuation() {
    let out = split_sentences("Weekly reporting takes six hours. 预算三千到五千。ok");
    assert_eq!(
        out,
        vec!["Weekly reporting takes six hours", "预算三千到五千"]
    );
}

#[test]
fn roles_round_trip_through_their_names() {
    for card in role_cards() {
        assert_eq!(RoleId::parse(card.id.as_str()), Some(card.id));
    }
    assert_eq!(RoleId::parse("invoice_clerk"), Some(RoleId::InvoiceClerk));
    assert_eq!(RoleId::parse("Invoice_Clerk"), None);
    assert_eq!(role_cards().len(), 6);
    assert_eq!(role_card(RoleId::QualityChecker).title_en, "Quality Checker");
}

#[test]
fn rejection_codes_are_stable() {
    assert_eq!(Rejection::NotJson.code(), "not_json");
    assert_eq!(Rejection::Field("amount").code(), "field:amount");
    assert_eq!(Rejection::ListSize("tasks").code(), "list_size:tasks");
    assert_eq!(Rejection::MissingSubject("customer").code(), "missing_subject:customer");
    assert_eq!(Rejection::NoModelPath.code(), "no_model_path");
}

#[test]
fn model_text_is_trimmed_and_bounded() {
    assert_eq!(clean_item("  hello \n"), Some("hello".to_owned()));
    assert_eq!(clean_item("   "), None);
    assert_eq!(clean_item("a\tb"), None);
    assert_eq!(clean_long("a\tb"), Some("a\tb".to_owned()));
    assert_eq!(clean_item(&"x".repeat(2001)), None);
    assert!(clean_item(&"x".repeat(2000)).is_some());
    assert_eq!(
        clean_list(vec!["a ".to_owned(), " b".to_owned()]),
        Some(vec!["a".to_owned(), "b".to_owned()])
    );
    assert_eq!(clean_list(vec!["ok".to_owned(); 13]), None);
    assert_eq!(clean_list(vec!["ok".to_owned(), " ".to_owned()]), None);
}

#[test]
fn amount_lines_state_the_currency_or_say_it_is_open() {
    assert_eq!(amount_line(Some(400_005), "SGD", false), "SGD 4000.05");
    assert_eq!(amount_line(None, "SGD", false), "Amount to be confirmed");
    assert_eq!(amount_line(None, "SGD", true), "金额待确认");
}
