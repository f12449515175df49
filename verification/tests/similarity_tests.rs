use tool_router::errors::AgentError;
use tool_router::similarity::{
    cosine_similarity, exceeds_threshold, Embedding, Threshold, COORD_LIMIT, DIM_LIMIT,
};

fn emb(coords: Vec<i64>) -> Embedding {
    Embedding::from_coords(coords).expect("coordinates should be in range")
}

#[test]
fn similarity_is_symmetric() {
    let a = emb(vec![3, 4, 0]);
    let b = emb(vec![4, 3, 1]);
    let ab = cosine_similarity(&a, &b).unwrap();
    let ba = cosine_similarity(&b, &a).unwrap();
    assert_eq!(ab, ba);
}

#[test]
fn self_similarity_is_exactly_one() {
    let a = emb(vec![7, -2, 5]);
    let s = cosine_similarity(&a, &a).unwrap();
    assert!(s.dot > 0);
    assert_eq!(s.dot * s.dot, s.norm_sq_product);
}

#[test]
fn similarity_lies_in_unit_range() {
    let pairs = vec![
        (vec![3, 4], vec![4, 3]),
        (vec![1, 0, 0], vec![0, 1, 0]),
        (vec![-5, 2, 9], vec![8, 8, -1]),
        (vec![32768, 32768], vec![-32768, 32768]),
    ];
    for (x, y) in pairs {
        let s = cosine_similarity(&emb(x), &emb(y)).unwrap();
        assert!(s.dot * s.dot <= s.norm_sq_product);
        assert!(s.norm_sq_product >= 1);
    }
}

#[test]
fn similarity_exact_value() {
    let a = emb(vec![3, 4]);
    let b = emb(vec![4, 3]);
    let s = cosine_similarity(&a, &b).unwrap();
    // 24 / sqrt(25 * 25) = 0.96
    assert_eq!(s.dot, 24);
    assert_eq!(s.norm_sq_product, 625);
}

#[test]
fn mismatched_lengths_fail_with_dimension_mismatch() {
    let a = emb(vec![1, 2]);
    let b = emb(vec![1, 2, 3]);
    let r = cosine_similarity(&a, &b);
    assert!(matches!(r, Err(AgentError::DimensionMismatch)));
    let r2 = cosine_similarity(&b, &a);
    assert!(matches!(r2, Err(AgentError::DimensionMismatch)));
}

#[test]
fn zero_vector_scores_zero_against_everything() {
    let z = emb(vec![0, 0, 0]);
    let a = emb(vec![5, -1, 2]);
    let s = cosine_similarity(&z, &a).unwrap();
    assert_eq!(s.dot, 0);
    assert_eq!(s.norm_sq_product, 1);
    let t = Threshold::new(0, 1).unwrap();
    assert!(!exceeds_threshold(&s, &t));
}

#[test]
fn threshold_comparison_is_strict() {
    // similarity of [3,4] and [4,3] is exactly 24/25
    let s = cosine_similarity(&emb(vec![3, 4]), &emb(vec![4, 3])).unwrap();
    let just_below = Threshold::new(95, 100).unwrap();
    let exact = Threshold::new(24, 25).unwrap();
    let just_above = Threshold::new(97, 100).unwrap();
    assert!(exceeds_threshold(&s, &just_below));
    assert!(!exceeds_threshold(&s, &exact), "strictly exceeds means not at equality");
    assert!(!exceeds_threshold(&s, &just_above));
}

#[test]
fn negative_threshold_comparisons() {
    // similarity of [1,0] and [-1,0] is exactly -1
    let s = cosine_similarity(&emb(vec![1, 0]), &emb(vec![-1, 0])).unwrap();
    let minus_one = Threshold::new(-1, 1).unwrap();
    let minus_half = Threshold::new(-1, 2).unwrap();
    assert!(!exceeds_threshold(&s, &minus_one), "-1 does not strictly exceed -1");
    assert!(!exceeds_threshold(&s, &minus_half));
    // similarity 0 exceeds any negative threshold
    let z = cosine_similarity(&emb(vec![1, 0]), &emb(vec![0, 1])).unwrap();
    assert!(exceeds_threshold(&z, &minus_half));
}

#[test]
fn default_threshold_is_one_half() {
    let t = Threshold::default();
    assert_eq!(t.num, 1);
    assert_eq!(t.den, 2);
}

#[test]
fn threshold_rejects_out_of_range_values() {
    assert!(Threshold::new(1, 0).is_none());
    assert!(Threshold::new(1, -2).is_none());
    assert!(Threshold::new(2, 1).is_none());
    assert!(Threshold::new(-3, 2).is_none());
    assert!(Threshold::new(1, 2000).is_none());
    assert!(Threshold::new(1024, 1024).is_some());
}

#[test]
fn embedding_rejects_out_of_range_coordinates() {
    assert!(Embedding::from_coords(vec![]).is_none());
    assert!(Embedding::from_coords(vec![COORD_LIMIT + 1]).is_none());
    assert!(Embedding::from_coords(vec![-COORD_LIMIT - 1, 0]).is_none());
    assert!(Embedding::from_coords(vec![COORD_LIMIT, -COORD_LIMIT]).is_some());
    assert!(Embedding::from_coords(vec![0; DIM_LIMIT + 1]).is_none());
    let e = Embedding::from_coords(vec![1, 2, 3]).unwrap();
    assert_eq!(e.len(), 3);
}
