use embeddy::locator::{
    find_embedding_name, locate_embedding_name, matches_embed_tokens, matches_embedding_name,
    matches_word_embeddings, matches_wte,
};
use embeddy::Error;

fn names(list: &[&str]) -> Vec<String> {
    list.iter().map(|s| s.to_string()).collect()
}

#[test]
fn first_pattern_wins_over_later_wte() {
    let list = names(&["bert.embeddings.word_embeddings.weight", "other.wte.weight"]);
    assert_eq!(find_embedding_name(&list), Some(0));
    assert_eq!(
        locate_embedding_name(&list).unwrap(),
        "bert.embeddings.word_embeddings.weight"
    );
}

#[test]
fn first_in_list_order_is_selected() {
    let list = names(&["other.wte.weight", "bert.embeddings.word_embeddings.weight"]);
    assert_eq!(find_embedding_name(&list), Some(0));
    assert_eq!(locate_embedding_name(&list).unwrap(), "other.wte.weight");
}

#[test]
fn non_matching_names_are_skipped() {
    let list = names(&[
        "encoder.layer.0.attention.self.query.weight",
        "bert.embeddings.position_embeddings.weight",
        "model.embed_tokens.weight",
    ]);
    assert_eq!(find_embedding_name(&list), Some(2));
    assert_eq!(locate_embedding_name(&list).unwrap(), "model.embed_tokens.weight");
}

#[test]
fn no_candidate_is_a_load_failure() {
    let list = names(&["encoder.layer.0.output.dense.weight", "pooler.dense.bias"]);
    assert_eq!(find_embedding_name(&list), None);
    match locate_embedding_name(&list) {
        Err(Error::ModelLoadFailed(msg)) => {
            assert_eq!(msg, "Could not find embedding weight tensor")
        }
        other => panic!("unexpected: {:?}", other),
    }
}

#[test]
fn empty_listing_is_a_load_failure() {
    let list: Vec<String> = Vec::new();
    assert_eq!(find_embedding_name(&list), None);
    assert!(matches!(locate_embedding_name(&list), Err(Error::ModelLoadFailed(_))));
}

#[test]
fn word_embeddings_needs_all_three_parts() {
    assert!(matches_word_embeddings("bert.embeddings.word_embeddings.weight"));
    assert!(matches_word_embeddings("embeddings.word_embeddings.weight"));
    assert!(!matches_word_embeddings("bert.embeddings.word_embeddings.bias"));
    assert!(!matches_word_embeddings("bert.embeddings.position_embeddings.weight"));
    assert!(!matches_word_embeddings("bert.embeddings.word_embeddings.weight.extra"));
}

#[test]
fn suffix_patterns_match_only_at_the_end() {
    assert!(matches_embed_tokens("model.embed_tokens.weight"));
    assert!(matches_embed_tokens("embed_tokens.weight"));
    assert!(!matches_embed_tokens("model.embed_tokens.weight.q"));
    assert!(matches_wte("transformer.wte.weight"));
    assert!(matches_wte("wte.weight"));
    assert!(!matches_wte("transformer.wte.bias"));
    assert!(!matches_wte("transformer.wpe.weight"));
}

#[test]
fn any_convention_qualifies() {
    assert!(matches_embedding_name("bert.embeddings.word_embeddings.weight"));
    assert!(matches_embedding_name("model.embed_tokens.weight"));
    assert!(matches_embedding_name("transformer.wte.weight"));
    assert!(!matches_embedding_name("lm_head.weight"));
    assert!(!matches_embedding_name(""));
}
