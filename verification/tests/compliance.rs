use sovereign_cli::compliance::{retrieve, scores_fit, tokens};
use sovereign_cli::compliance_pack::{pack_for, packs, singapore_demo_pack, RulePack};

fn singapore_pack() -> RulePack {
    singapore_demo_pack()
}

fn tokens_split_ascii_words_and_cjk_bigrams() {
    assert_eq!(
        tokens("GST registration, threshold!"),
        vec!["gst", "registration", "threshold"]
    );
    assert_eq!(tokens("消费税注册"), vec!["消费", "费税", "税注", "注册"]);
    assert!(tokens("a").is_empty());
}

fn retrieval_ranks_rarer_terms_higher_and_returns_nothing_for_empty_queries() {
    let pack = singapore_pack();
    let hits = retrieve(&pack, "GST registration threshold", 3, false);
    assert_eq!(hits[0].rule_id, "SG-GST-01");
    assert!(hits[0].matched.contains(&"threshold".to_owned()));
    assert!(retrieve(&pack, "", 3, false).is_empty());
    let zh_hits = retrieve(&pack, "个人资料 同意", 3, true);
    assert_eq!(zh_hits[0].rule_id, "SG-PDPA-01");
    assert!(retrieve(&pack, "quantum blockchain", 3, false).is_empty());
}

#[test]
fn compliance_tokens_split_ascii_words_and_cjk_bigrams() {
    tokens_split_ascii_words_and_cjk_bigrams();
}

#[test]
fn tests_tokens_split_ascii_words_and_cjk_bigrams() {
    tokens_split_ascii_words_and_cjk_bigrams();
}

#[test]
fn compliance_retrieval_ranks_rarer_terms_higher_and_returns_nothing_for_empty_queries() {
    retrieval_ranks_rarer_terms_higher_and_returns_nothing_for_empty_queries();
}

#[test]
fn tests_retrieval_ranks_rarer_terms_higher_and_returns_nothing_for_empty_queries() {
    retrieval_ranks_rarer_terms_higher_and_returns_nothing_for_empty_queries();
}

#[test]
fn tokens_keep_hyphenated_words_and_drop_adjacent_repeats() {
    assert_eq!(tokens("e-invoice E-INVOICE tax"), vec!["e-invoice", "tax"]);
    assert_eq!(tokens("x y zz"), vec!["zz"]);
}

#[test]
fn retrieval_is_capped_at_k_and_sorted_by_score() {
    let pack = singapore_pack();
    let hits = retrieve(&pack, "gst invoice", 2, false);
    assert_eq!(hits.len(), 2);
    assert!(hits[0].score >= hits[1].score);
    let all = retrieve(&pack, "gst invoice", 20, false);
    for pair in all.windows(2) {
        assert!(
            pair[0].score > pair[1].score
                || (pair[0].score == pair[1].score && pair[0].rule_id < pair[1].rule_id)
        );
    }
    assert!(retrieve(&pack, "gst", 0, false).is_empty());
}

#[test]
fn the_pack_is_found_by_its_jurisdiction_in_any_ascii_case() {
    assert!(pack_for("sg").is_some());
    assert!(pack_for("SG").is_some());
    assert!(pack_for("MY").is_none());
    assert!(pack_for("").is_none());
    let all = packs();
    assert_eq!(all.len(), 1);
    assert_eq!(all[0].id, "sg-consulting-demo");
    assert_eq!(all[0].rules.len(), 13);
    assert_eq!(all[0].rules[1].id, "SG-GST-01");
}

#[test]
fn retrieval_reports_each_rule_at_most_once_and_nothing_for_k_zero() {
    let pack = singapore_pack();
    let hits = retrieve(&pack, "gst invoice registration threshold company annual return consent data", 100, false);
    assert!(!hits.is_empty());
    assert!(hits.len() <= pack.rules.len());
    let mut ids: Vec<&str> = hits.iter().map(|h| h.rule_id.as_str()).collect();
    ids.sort();
    ids.dedup();
    assert_eq!(ids.len(), hits.len());
    assert!(retrieve(&pack, "GST registration threshold", 0, false).is_empty());
}

#[test]
fn ordinary_queries_score_within_u32() {
    let pack = singapore_pack();
    assert!(scores_fit(&pack, "GST registration threshold", false));
    assert!(scores_fit(&pack, "", true));
    assert!(scores_fit(&pack, &"gst ".repeat(10_000), false));
}
