use local_ai_harness::catalog::{cat, get_catalog, get_tier_models, spec};
use local_ai_harness::system::{system_info, tier_for, GIB};

#[test]
fn tier_thresholds() {
    assert_eq!(tier_for(0).0, 1);
    assert_eq!(tier_for(12 * GIB - 1).0, 1);
    assert_eq!(tier_for(12 * GIB).0, 2);
    assert_eq!(tier_for(32 * GIB - 1).0, 2);
    assert_eq!(tier_for(32 * GIB).0, 3);
    assert_eq!(tier_for(u64::MAX).0, 3);
}

#[test]
fn tier_texts() {
    assert_eq!(tier_for(8 * GIB), (1, "절약", "가벼운 소형 모델 1개를 순차 실행합니다."));
    assert_eq!(tier_for(16 * GIB), (2, "균형", "중형 모델로 여러 에이전트를 함께 돌립니다."));
    assert_eq!(tier_for(64 * GIB), (3, "고성능", "대형 모델로 다중 에이전트를 병렬 실행합니다."));
}

#[test]
fn more_memory_never_lowers_the_tier_on_samples() {
    let sizes = [0, GIB, 12 * GIB - 1, 12 * GIB, 20 * GIB, 32 * GIB - 1, 32 * GIB, 128 * GIB];
    for w in sizes.windows(2) {
        assert!(tier_for(w[0]).0 <= tier_for(w[1]).0);
    }
}

#[test]
fn system_info_reports_bytes_and_tier() {
    let info = system_info(16 * GIB, 5 * GIB);
    assert_eq!(info.total_bytes, 16 * GIB);
    assert_eq!(info.available_bytes, 5 * GIB);
    assert_eq!(info.tier, 2);
    assert_eq!(info.tier_label, "균형");
    assert_eq!(info.tier_desc, "중형 모델로 여러 에이전트를 함께 돌립니다.");
}

#[test]
fn spec_and_cat_copy_their_texts() {
    let m = spec("a", "~1GB", "note");
    assert_eq!((m.name.as_str(), m.size.as_str(), m.note.as_str()), ("a", "~1GB", "note"));
    let c = cat("b", "~2GB", "n", "코딩", 2);
    assert_eq!(c.name, "b");
    assert_eq!(c.size, "~2GB");
    assert_eq!(c.note, "n");
    assert_eq!(c.category, "코딩");
    assert_eq!(c.tier, 2);
}

fn names(tier: u8) -> Vec<String> {
    get_tier_models(tier).into_iter().map(|m| m.name).collect()
}

#[test]
fn tier_models_per_tier() {
    assert_eq!(names(1), vec!["llama3.2:3b", "qwen2.5:3b", "gemma2:2b"]);
    assert_eq!(names(2), vec!["qwen2.5:7b", "llama3.1:8b", "qwen2.5:14b"]);
    assert_eq!(names(3), vec!["qwen2.5:32b", "llama3.3:70b", "mixtral:8x7b"]);
    assert_eq!(names(0), names(3));
    assert_eq!(names(9), names(3));
    let t1 = get_tier_models(1);
    assert_eq!(t1[1].size, "~1.9GB");
    assert_eq!(t1[1].note, "한국어·코드에 강함");
}

#[test]
fn catalog_contents() {
    let c = get_catalog();
    assert_eq!(c.len(), 43);
    assert_eq!(c[0].name, "llama3.2:1b");
    assert_eq!(c[0].category, "범용");
    assert_eq!(c[42].name, "smollm2:1.7b");
    assert_eq!(c[42].category, "경량");
    assert_eq!(c[42].tier, 1);
    let cats = ["범용", "코딩", "추론", "비전", "임베딩", "경량"];
    for m in &c {
        assert!(cats.contains(&m.category.as_str()));
        assert!((1..=3).contains(&m.tier));
    }
}

#[test]
fn recommendations_are_in_catalog_with_their_tier() {
    let c = get_catalog();
    for tier in 0u8..6 {
        let effective = if tier == 1 || tier == 2 { tier } else { 3 };
        for m in get_tier_models(tier) {
            assert!(c.iter().any(|e| e.name == m.name && e.size == m.size && e.tier == effective));
        }
    }
}
