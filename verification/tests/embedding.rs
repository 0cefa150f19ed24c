use cuc::embedding::{embedding_features, feature_weight, Feature, FeatureKind};
use cuc::ratio::Ratio;
use cuc::store::EMBEDDING_DIMENSION;
use std::collections::hash_map::DefaultHasher;
use std::hash::{Hash, Hasher};

fn hash_of(s: &str) -> u64 {
    let mut hasher = DefaultHasher::new();
    s.hash(&mut hasher);
    hasher.finish()
}

#[test]
fn features_are_the_same_on_every_call() {
    let text = "List all my Kubernetes clusters in us-south";
    assert_eq!(embedding_features(text), embedding_features(text));
    assert_eq!(embedding_features("LIST  all"), embedding_features("list all"));
}

#[test]
fn every_word_gives_three_features_and_every_pair_one() {
    let features = embedding_features("Deploy the App now");
    assert_eq!(features.len(), 4 * 3 + 3);
    for f in &features {
        assert!(f.index < EMBEDDING_DIMENSION);
    }
    let kinds: Vec<FeatureKind> = features.iter().map(|f| f.kind).collect();
    assert_eq!(
        &kinds[..6],
        &[
            FeatureKind::Primary,
            FeatureKind::Secondary,
            FeatureKind::Tertiary,
            FeatureKind::Primary,
            FeatureKind::Secondary,
            FeatureKind::Tertiary
        ]
    );
    assert!(kinds[12..].iter().all(|k| *k == FeatureKind::Bigram));
    let positions: Vec<usize> = features.iter().map(|f| f.position).collect();
    assert_eq!(positions, vec![0, 0, 0, 1, 1, 1, 2, 2, 2, 3, 3, 3, 0, 1, 2]);
}

#[test]
fn places_come_from_three_parts_of_the_hash() {
    let features = embedding_features("Deploy APP");
    let h = hash_of("deploy");
    assert_eq!(
        features[0],
        Feature { index: (h % 384) as usize, position: 0, kind: FeatureKind::Primary }
    );
    assert_eq!(features[1].index, ((h >> 16) % 384) as usize);
    assert_eq!(features[2].index, ((h >> 32) % 384) as usize);
    let h = hash_of("app");
    assert_eq!(features[3].index, (h % 384) as usize);
    let pair = hash_of("deploy app");
    assert_eq!(
        features[6],
        Feature { index: (pair % 384) as usize, position: 0, kind: FeatureKind::Bigram }
    );
}

#[test]
fn empty_and_single_word_texts() {
    assert!(embedding_features("").is_empty());
    assert!(embedding_features("  \n\t ").is_empty());
    assert_eq!(embedding_features("word").len(), 3);
}

#[test]
fn weights_fall_with_the_position() {
    let weight = |position: usize, kind: FeatureKind| feature_weight(&Feature { index: 0, position, kind });
    assert_eq!(weight(0, FeatureKind::Primary), Ratio::new(10, 10));
    assert_eq!(weight(3, FeatureKind::Primary), Ratio::new(10, 40));
    assert_eq!(weight(3, FeatureKind::Secondary), Ratio::new(7, 40));
    assert_eq!(weight(1, FeatureKind::Tertiary), Ratio::new(5, 20));
    assert_eq!(weight(9, FeatureKind::Bigram), Ratio::new(8, 10));
    assert_eq!(weight(usize::MAX, FeatureKind::Primary), Ratio::new(0, 1));
}
