//! The models offered to the user: the recommendations for each memory tier and
//! the full catalog to pick from.
use vstd::prelude::*;

verus! {

/// A recommended model: its name, its download size and a note on it.
pub struct ModelSpec {
    pub name: String,
    pub size: String,
    pub note: String,
}

impl View for ModelSpec {
    type V = (Seq<char>, Seq<char>, Seq<char>);

    open spec fn view(&self) -> (Seq<char>, Seq<char>, Seq<char>) {
        (self.name@, self.size@, self.note@)
    }
}

/// A model of the catalog: name, download size, note, category and the lowest
/// memory tier it suits.
pub struct CatalogModel {
    pub name: String,
    pub size: String,
    pub note: String,
    pub category: String,
    pub tier: u8,
}

impl View for CatalogModel {
    type V = (Seq<char>, Seq<char>, Seq<char>, Seq<char>, u8);

    open spec fn view(&self) -> (Seq<char>, Seq<char>, Seq<char>, Seq<char>, u8) {
        (self.name@, self.size@, self.note@, self.category@, self.tier)
    }
}

/// A recommended model made of the three texts given.
pub fn spec(name: &str, size: &str, note: &str) -> (m: ModelSpec)
    ensures
        m@ == (name@, size@, note@),
{
    ModelSpec { name: name.to_string(), size: size.to_string(), note: note.to_string() }
}

/// A catalog entry made of the texts and the tier given.
pub fn cat(name: &str, size: &str, note: &str, category: &str, tier: u8) -> (m: CatalogModel)
    ensures
        m@ == (name@, size@, note@, category@, tier),
{
    CatalogModel {
        name: name.to_string(),
        size: size.to_string(),
        note: note.to_string(),
        category: category.to_string(),
        tier,
    }
}

/// The tier whose recommendations a request for `tier` gets: tiers 1 and 2 their
/// own, every other value those of tier 3.
pub open spec fn effective_tier(tier: u8) -> u8 {
    if tier == 1 {
        1
    } else if tier == 2 {
        2
    } else {
        3
    }
}

/// The models recommended for each tier.
pub open spec fn tier_table(tier: u8) -> Seq<(Seq<char>, Seq<char>, Seq<char>)> {
    if tier == 1 {
        seq![
            ("llama3.2:3b"@, "~2.0GB"@, "가장 가벼운 범용 모델"@),
            ("qwen2.5:3b"@, "~1.9GB"@, "한국어·코드에 강함"@),
            ("gemma2:2b"@, "~1.6GB"@, "초경량, 빠른 응답"@),
        ]
    } else if tier == 2 {
        seq![
            ("qwen2.5:7b"@, "~4.7GB"@, "균형형 주력 모델"@),
            ("llama3.1:8b"@, "~4.9GB"@, "범용 추론"@),
            ("qwen2.5:14b"@, "~9.0GB"@, "더 깊은 추론 (여유 있을 때)"@),
        ]
    } else {
        seq![
            ("qwen2.5:32b"@, "~20GB"@, "고품질 추론"@),
            ("llama3.3:70b"@, "~43GB"@, "최상위 품질 (32GB+ 권장)"@),
            ("mixtral:8x7b"@, "~26GB"@, "MoE, 빠르고 강력"@),
        ]
    }
}

/// The views of a sequence of recommendations.
pub open spec fn spec_views(v: Seq<ModelSpec>) -> Seq<(Seq<char>, Seq<char>, Seq<char>)> {
    v.map_values(|m: ModelSpec| m@)
}

/// The views of a sequence of catalog entries.
pub open spec fn catalog_views(v: Seq<CatalogModel>) -> Seq<(Seq<char>, Seq<char>, Seq<char>, Seq<char>, u8)> {
    v.map_values(|m: CatalogModel| m@)
}

/// The models recommended for `tier`.
pub fn get_tier_models(tier: u8) -> (r: Vec<ModelSpec>)
    ensures
        spec_views(r@) == tier_table(tier),
{
    let mut r: Vec<ModelSpec> = Vec::new();
    if tier == 1 {
        r.push(spec("llama3.2:3b", "~2.0GB", "가장 가벼운 범용 모델"));
        r.push(spec("qwen2.5:3b", "~1.9GB", "한국어·코드에 강함"));
        r.push(spec("gemma2:2b", "~1.6GB", "초경량, 빠른 응답"));
    } else if tier == 2 {
        r.push(spec("qwen2.5:7b", "~4.7GB", "균형형 주력 모델"));
        r.push(spec("llama3.1:8b", "~4.9GB", "범용 추론"));
        r.push(spec("qwen2.5:14b", "~9.0GB", "더 깊은 추론 (여유 있을 때)"));
    } else {
        r.push(spec("qwen2.5:32b", "~20GB", "고품질 추론"));
        r.push(spec("llama3.3:70b", "~43GB", "최상위 품질 (32GB+ 권장)"));
        r.push(spec("mixtral:8x7b", "~26GB", "MoE, 빠르고 강력"));
    }
    assert(spec_views(r@) =~= tier_table(tier));
    r
}

/// The whole catalog, grouped by category.
pub open spec fn catalog_table() -> Seq<(Seq<char>, Seq<char>, Seq<char>, Seq<char>, u8)> {
    seq![
        ("llama3.2:1b"@, "~1.3GB"@, "초경량 범용"@, "범용"@, 1u8),
        ("llama3.2:3b"@, "~2.0GB"@, "가벼운 범용"@, "범용"@, 1u8),
        ("llama3.1:8b"@, "~4.9GB"@, "범용 추론"@, "범용"@, 2u8),
        ("llama3.3:70b"@, "~43GB"@, "최상위 품질"@, "범용"@, 3u8),
        ("qwen2.5:0.5b"@, "~0.4GB"@, "극소형"@, "범용"@, 1u8),
        ("qwen2.5:3b"@, "~1.9GB"@, "한국어·코드 강함"@, "범용"@, 1u8),
        ("qwen2.5:7b"@, "~4.7GB"@, "균형 주력"@, "범용"@, 2u8),
        ("qwen2.5:14b"@, "~9.0GB"@, "깊은 추론"@, "범용"@, 2u8),
        ("qwen2.5:32b"@, "~20GB"@, "고품질"@, "범용"@, 3u8),
        ("qwen2.5:72b"@, "~47GB"@, "최상위"@, "범용"@, 3u8),
        ("gemma2:2b"@, "~1.6GB"@, "구글 초경량"@, "범용"@, 1u8),
        ("gemma2:9b"@, "~5.4GB"@, "구글 범용"@, "범용"@, 2u8),
        ("gemma2:27b"@, "~16GB"@, "구글 고품질"@, "범용"@, 3u8),
        ("mistral:7b"@, "~4.1GB"@, "빠른 범용"@, "범용"@, 2u8),
        ("mixtral:8x7b"@, "~26GB"@, "MoE 강력"@, "범용"@, 3u8),
        ("phi3.5:3.8b"@, "~2.2GB"@, "MS 소형 강자"@, "범용"@, 1u8),
        ("phi3:14b"@, "~7.9GB"@, "MS 중형"@, "범용"@, 2u8),
        ("hermes3:8b"@, "~4.7GB"@, "대화·지시 특화"@, "범용"@, 2u8),
        ("hermes3:70b"@, "~40GB"@, "대형 대화"@, "범용"@, 3u8),
        ("aya:8b"@, "~4.8GB"@, "다국어(한국어)"@, "범용"@, 2u8),
        ("aya:35b"@, "~20GB"@, "다국어 대형"@, "범용"@, 3u8),
        ("qwen2.5-coder:1.5b"@, "~1.0GB"@, "경량 코딩"@, "코딩"@, 1u8),
        ("qwen2.5-coder:7b"@, "~4.7GB"@, "코딩 주력"@, "코딩"@, 2u8),
        ("qwen2.5-coder:32b"@, "~20GB"@, "최상위 코딩"@, "코딩"@, 3u8),
        ("codellama:7b"@, "~3.8GB"@, "코드 생성"@, "코딩"@, 2u8),
        ("codellama:13b"@, "~7.4GB"@, "코드 중형"@, "코딩"@, 2u8),
        ("deepseek-coder-v2:16b"@, "~9.0GB"@, "강력 코딩"@, "코딩"@, 2u8),
        ("starcoder2:3b"@, "~1.7GB"@, "코드 자동완성"@, "코딩"@, 1u8),
        ("codegemma:7b"@, "~5.0GB"@, "구글 코딩"@, "코딩"@, 2u8),
        ("deepseek-r1:7b"@, "~4.7GB"@, "추론 특화"@, "추론"@, 2u8),
        ("deepseek-r1:8b"@, "~4.9GB"@, "추론"@, "추론"@, 2u8),
        ("deepseek-r1:14b"@, "~9.0GB"@, "추론 중형"@, "추론"@, 2u8),
        ("deepseek-r1:32b"@, "~20GB"@, "추론 대형"@, "추론"@, 3u8),
        ("moondream:1.8b"@, "~1.7GB"@, "초경량 비전"@, "비전"@, 1u8),
        ("llava:7b"@, "~4.5GB"@, "이미지 이해"@, "비전"@, 2u8),
        ("llava:13b"@, "~8.0GB"@, "이미지 이해 중형"@, "비전"@, 2u8),
        ("llama3.2-vision:11b"@, "~7.9GB"@, "이미지+텍스트"@, "비전"@, 2u8),
        ("minicpm-v:8b"@, "~5.5GB"@, "이미지 이해"@, "비전"@, 2u8),
        ("nomic-embed-text"@, "~0.3GB"@, "임베딩(검색)"@, "임베딩"@, 1u8),
        ("mxbai-embed-large"@, "~0.7GB"@, "고품질 임베딩"@, "임베딩"@, 1u8),
        ("bge-m3"@, "~1.2GB"@, "다국어 임베딩"@, "임베딩"@, 1u8),
        ("tinyllama:1.1b"@, "~0.6GB"@, "초경량"@, "경량"@, 1u8),
        ("smollm2:1.7b"@, "~1.1GB"@, "소형"@, "경량"@, 1u8),
    ]
}

/// The whole catalog of models that can be downloaded.
#[verifier::rlimit(40)]
pub fn get_catalog() -> (r: Vec<CatalogModel>)
    ensures
        catalog_views(r@) == catalog_table(),
{
    let mut r: Vec<CatalogModel> = Vec::new();
    r.push(cat("llama3.2:1b", "~1.3GB", "초경량 범용", "범용", 1));
    r.push(cat("llama3.2:3b", "~2.0GB", "가벼운 범용", "범용", 1));
    r.push(cat("llama3.1:8b", "~4.9GB", "범용 추론", "범용", 2));
    r.push(cat("llama3.3:70b", "~43GB", "최상위 품질", "범용", 3));
    r.push(cat("qwen2.5:0.5b", "~0.4GB", "극소형", "범용", 1));
    r.push(cat("qwen2.5:3b", "~1.9GB", "한국어·코드 강함", "범용", 1));
    r.push(cat("qwen2.5:7b", "~4.7GB", "균형 주력", "범용", 2));
    r.push(cat("qwen2.5:14b", "~9.0GB", "깊은 추론", "범용", 2));
    r.push(cat("qwen2.5:32b", "~20GB", "고품질", "범용", 3));
    r.push(cat("qwen2.5:72b", "~47GB", "최상위", "범용", 3));
    r.push(cat("gemma2:2b", "~1.6GB", "구글 초경량", "범용", 1));
    r.push(cat("gemma2:9b", "~5.4GB", "구글 범용", "범용", 2));
    r.push(cat("gemma2:27b", "~16GB", "구글 고품질", "범용", 3));
    r.push(cat("mistral:7b", "~4.1GB", "빠른 범용", "범용", 2));
    r.push(cat("mixtral:8x7b", "~26GB", "MoE 강력", "범용", 3));
    r.push(cat("phi3.5:3.8b", "~2.2GB", "MS 소형 강자", "범용", 1));
    r.push(cat("phi3:14b", "~7.9GB", "MS 중형", "범용", 2));
    r.push(cat("hermes3:8b", "~4.7GB", "대화·지시 특화", "범용", 2));
    r.push(cat("hermes3:70b", "~40GB", "대형 대화", "범용", 3));
    r.push(cat("aya:8b", "~4.8GB", "다국어(한국어)", "범용", 2));
    r.push(cat("aya:35b", "~20GB", "다국어 대형", "범용", 3));
    r.push(cat("qwen2.5-coder:1.5b", "~1.0GB", "경량 코딩", "코딩", 1));
    r.push(cat("qwen2.5-coder:7b", "~4.7GB", "코딩 주력", "코딩", 2));
    r.push(cat("qwen2.5-coder:32b", "~20GB", "최상위 코딩", "코딩", 3));
    r.push(cat("codellama:7b", "~3.8GB", "코드 생성", "코딩", 2));
    r.push(cat("codellama:13b", "~7.4GB", "코드 중형", "코딩", 2));
    r.push(cat("deepseek-coder-v2:16b", "~9.0GB", "강력 코딩", "코딩", 2));
    r.push(cat("starcoder2:3b", "~1.7GB", "코드 자동완성", "코딩", 1));
    r.push(cat("codegemma:7b", "~5.0GB", "구글 코딩", "코딩", 2));
    r.push(cat("deepseek-r1:7b", "~4.7GB", "추론 특화", "추론", 2));
    r.push(cat("deepseek-r1:8b", "~4.9GB", "추론", "추론", 2));
    r.push(cat("deepseek-r1:14b", "~9.0GB", "추론 중형", "추론", 2));
    r.push(cat("deepseek-r1:32b", "~20GB", "추론 대형", "추론", 3));
    r.push(cat("moondream:1.8b", "~1.7GB", "초경량 비전", "비전", 1));
    r.push(cat("llava:7b", "~4.5GB", "이미지 이해", "비전", 2));
    r.push(cat("llava:13b", "~8.0GB", "이미지 이해 중형", "비전", 2));
    r.push(cat("llama3.2-vision:11b", "~7.9GB", "이미지+텍스트", "비전", 2));
    r.push(cat("minicpm-v:8b", "~5.5GB", "이미지 이해", "비전", 2));
    r.push(cat("nomic-embed-text", "~0.3GB", "임베딩(검색)", "임베딩", 1));
    r.push(cat("mxbai-embed-large", "~0.7GB", "고품질 임베딩", "임베딩", 1));
    r.push(cat("bge-m3", "~1.2GB", "다국어 임베딩", "임베딩", 1));
    r.push(cat("tinyllama:1.1b", "~0.6GB", "초경량", "경량", 1));
    r.push(cat("smollm2:1.7b", "~1.1GB", "소형", "경량", 1));
    assert(catalog_views(r@) =~= catalog_table());
    r
}

/// Every model recommended for a tier is in the catalog, under the same name and
/// download size, and marked there with that tier.
pub proof fn recommendations_are_in_catalog(tier: u8, i: int)
    requires
        0 <= i < tier_table(tier).len(),
    ensures
        exists|j: int|
            0 <= j < catalog_table().len() && {
                let c = #[trigger] catalog_table()[j];
                &&& c.0 == tier_table(tier)[i].0
                &&& c.1 == tier_table(tier)[i].1
                &&& c.4 == effective_tier(tier)
            },
{
    if effective_tier(tier) == 1 && i == 0 {
        assert(catalog_table()[1].0 == tier_table(tier)[i].0);
    }
    if effective_tier(tier) == 1 && i == 1 {
        assert(catalog_table()[5].0 == tier_table(tier)[i].0);
    }
    if effective_tier(tier) == 1 && i == 2 {
        assert(catalog_table()[10].0 == tier_table(tier)[i].0);
    }
    if effective_tier(tier) == 2 && i == 0 {
        assert(catalog_table()[6].0 == tier_table(tier)[i].0);
    }
    if effective_tier(tier) == 2 && i == 1 {
        assert(catalog_table()[2].0 == tier_table(tier)[i].0);
    }
    if effective_tier(tier) == 2 && i == 2 {
        assert(catalog_table()[7].0 == tier_table(tier)[i].0);
    }
    if effective_tier(tier) == 3 && i == 0 {
        assert(catalog_table()[8].0 == tier_table(tier)[i].0);
    }
    if effective_tier(tier) == 3 && i == 1 {
        assert(catalog_table()[3].0 == tier_table(tier)[i].0);
    }
    if effective_tier(tier) == 3 && i == 2 {
        assert(catalog_table()[14].0 == tier_table(tier)[i].0);
    }
}

/// The categories that the catalog sorts models into.
pub open spec fn catalog_category(c: Seq<char>) -> bool {
    ||| c == "범용"@
    ||| c == "코딩"@
    ||| c == "추론"@
    ||| c == "비전"@
    ||| c == "임베딩"@
    ||| c == "경량"@
}

/// Every catalog entry names one of the six categories and a tier from 1 to 3.
pub proof fn catalog_entries_are_well_formed(j: int)
    requires
        0 <= j < catalog_table().len(),
    ensures
        catalog_category(catalog_table()[j].3),
        1 <= catalog_table()[j].4 <= 3,
{
}

/// The value of the decimal digits `d`.
pub open spec fn whole_value(d: Seq<char>) -> int
    decreases d.len(),
{
    if d.len() == 0 {
        0
    } else {
        whole_value(d.drop_last()) * 10 + (d.last() as int - 48)
    }
}

/// A download size as the catalog writes it, `~` then whole gigabytes, maybe a
/// point and one more digit, then `GB`: in tenths of a gigabyte.
pub open spec fn size_tenths(s: Seq<char>) -> int {
    let n = s.subrange(1, s.len() - 2);
    if n.len() >= 2 && n[n.len() - 2] == '.' {
        whole_value(n.take(n.len() - 2)) * 10 + (n.last() as int - 48)
    } else {
        whole_value(n) * 10
    }
}

/// A size written `~W.FGB` with one whole digit.
proof fn lemma_size_with_point(s: Seq<char>)
    requires
        s.len() == 6,
        s[2] == '.',
    ensures
        size_tenths(s) == (s[1] as int - 48) * 10 + (s[3] as int - 48),
{
    let n = s.subrange(1, 4);
    assert(n.len() == 3 && n[1] == '.' && n.last() == s[3]);
    let w = n.take(1);
    assert(w.drop_last() =~= Seq::<char>::empty());
    assert(whole_value(w.drop_last()) == 0);
    assert(w.last() == s[1]);
    assert(whole_value(w) == s[1] as int - 48);
}

/// A size written `~WWGB` with two whole digits.
proof fn lemma_size_whole(s: Seq<char>)
    requires
        s.len() == 5,
        s[1] != '.',
    ensures
        size_tenths(s) == ((s[1] as int - 48) * 10 + (s[2] as int - 48)) * 10,
{
    let n = s.subrange(1, 3);
    assert(n.len() == 2 && n[0] == s[1] && n[1] == s[2]);
    assert(n.drop_last().drop_last() =~= Seq::<char>::empty());
    assert(whole_value(n.drop_last().drop_last()) == 0);
    assert(n.drop_last().last() == s[1]);
    assert(whole_value(n.drop_last()) == s[1] as int - 48);
    assert(whole_value(n) == whole_value(n.drop_last()) * 10 + (s[2] as int - 48));
}

/// Models are offered to the machines that can hold them: a model marked for
/// the smallest tier (under 12 GiB of memory) is under 3 GB, one marked for the
/// middle tier is from 3 GB up to under 12 GB, and one marked for the top tier needs at least
/// 12 GB, more than the smallest machines have.
pub proof fn catalog_sizes_fit_their_tiers(i: int)
    requires
        0 <= i < catalog_table().len(),
    ensures
        catalog_table()[i].4 == 1 ==> size_tenths(catalog_table()[i].1) < 30,
        catalog_table()[i].4 == 2 ==> 30 <= size_tenths(catalog_table()[i].1) < 120,
        catalog_table()[i].4 == 3 ==> size_tenths(catalog_table()[i].1) >= 120,
{
    reveal_strlit("~0.3GB");
    reveal_strlit("~0.4GB");
    reveal_strlit("~0.6GB");
    reveal_strlit("~0.7GB");
    reveal_strlit("~1.0GB");
    reveal_strlit("~1.1GB");
    reveal_strlit("~1.2GB");
    reveal_strlit("~1.3GB");
    reveal_strlit("~1.6GB");
    reveal_strlit("~1.7GB");
    reveal_strlit("~1.9GB");
    reveal_strlit("~16GB");
    reveal_strlit("~2.0GB");
    reveal_strlit("~2.2GB");
    reveal_strlit("~20GB");
    reveal_strlit("~26GB");
    reveal_strlit("~3.8GB");
    reveal_strlit("~4.1GB");
    reveal_strlit("~4.5GB");
    reveal_strlit("~4.7GB");
    reveal_strlit("~4.8GB");
    reveal_strlit("~4.9GB");
    reveal_strlit("~40GB");
    reveal_strlit("~43GB");
    reveal_strlit("~47GB");
    reveal_strlit("~5.0GB");
    reveal_strlit("~5.4GB");
    reveal_strlit("~5.5GB");
    reveal_strlit("~7.4GB");
    reveal_strlit("~7.9GB");
    reveal_strlit("~8.0GB");
    reveal_strlit("~9.0GB");
        if i == 0 {
            assert(size_tenths(catalog_table()[0].1) == 13) by {
                if catalog_table()[0].1.len() == 6 {
                    lemma_size_with_point(catalog_table()[0].1);
                } else {
                    lemma_size_whole(catalog_table()[0].1);
                }
            }
        } else if i == 1 {
            assert(size_tenths(catalog_table()[1].1) == 20) by {
                if catalog_table()[1].1.len() == 6 {
                    lemma_size_with_point(catalog_table()[1].1);
                } else {
                    lemma_size_whole(catalog_table()[1].1);
                }
            }
        } else if i == 2 {
            assert(size_tenths(catalog_table()[2].1) == 49) by {
                if catalog_table()[2].1.len() == 6 {
                    lemma_size_with_point(catalog_table()[2].1);
                } else {
                    lemma_size_whole(catalog_table()[2].1);
                }
            }
        } else if i == 3 {
            assert(size_tenths(catalog_table()[3].1) == 430) by {
                if catalog_table()[3].1.len() == 6 {
                    lemma_size_with_point(catalog_table()[3].1);
                } else {
                    lemma_size_whole(catalog_table()[3].1);
                }
            }
        } else if i == 4 {
            assert(size_tenths(catalog_table()[4].1) == 4) by {
                if catalog_table()[4].1.len() == 6 {
                    lemma_size_with_point(catalog_table()[4].1);
                } else {
                    lemma_size_whole(catalog_table()[4].1);
                }
            }
        } else if i == 5 {
            assert(size_tenths(catalog_table()[5].1) == 19) by {
                if catalog_table()[5].1.len() == 6 {
                    lemma_size_with_point(catalog_table()[5].1);
                } else {
                    lemma_size_whole(catalog_table()[5].1);
                }
            }
        } else if i == 6 {
            assert(size_tenths(catalog_table()[6].1) == 47) by {
                if catalog_table()[6].1.len() == 6 {
                    lemma_size_with_point(catalog_table()[6].1);
                } else {
                    lemma_size_whole(catalog_table()[6].1);
                }
            }
        } else if i == 7 {
            assert(size_tenths(catalog_table()[7].1) == 90) by {
                if catalog_table()[7].1.len() == 6 {
                    lemma_size_with_point(catalog_table()[7].1);
                } else {
                    lemma_size_whole(catalog_table()[7].1);
                }
            }
        } else if i == 8 {
            assert(size_tenths(catalog_table()[8].1) == 200) by {
                if catalog_table()[8].1.len() == 6 {
                    lemma_size_with_point(catalog_table()[8].1);
                } else {
                    lemma_size_whole(catalog_table()[8].1);
                }
            }
        } else if i == 9 {
            assert(size_tenths(catalog_table()[9].1) == 470) by {
                if catalog_table()[9].1.len() == 6 {
                    lemma_size_with_point(catalog_table()[9].1);
                } else {
                    lemma_size_whole(catalog_table()[9].1);
                }
            }
        } else if i == 10 {
            assert(size_tenths(catalog_table()[10].1) == 16) by {
                if catalog_table()[10].1.len() == 6 {
                    lemma_size_with_point(catalog_table()[10].1);
                } else {
                    lemma_size_whole(catalog_table()[10].1);
                }
            }
        } else if i == 11 {
            assert(size_tenths(catalog_table()[11].1) == 54) by {
                if catalog_table()[11].1.len() == 6 {
                    lemma_size_with_point(catalog_table()[11].1);
                } else {
                    lemma_size_whole(catalog_table()[11].1);
                }
            }
        } else if i == 12 {
            assert(size_tenths(catalog_table()[12].1) == 160) by {
                if catalog_table()[12].1.len() == 6 {
                    lemma_size_with_point(catalog_table()[12].1);
                } else {
                    lemma_size_whole(catalog_table()[12].1);
                }
            }
        } else if i == 13 {
            assert(size_tenths(catalog_table()[13].1) == 41) by {
                if catalog_table()[13].1.len() == 6 {
                    lemma_size_with_point(catalog_table()[13].1);
                } else {
                    lemma_size_whole(catalog_table()[13].1);
                }
            }
        } else if i == 14 {
            assert(size_tenths(catalog_table()[14].1) == 260) by {
                if catalog_table()[14].1.len() == 6 {
                    lemma_size_with_point(catalog_table()[14].1);
                } else {
                    lemma_size_whole(catalog_table()[14].1);
                }
            }
        } else if i == 15 {
            assert(size_tenths(catalog_table()[15].1) == 22) by {
                if catalog_table()[15].1.len() == 6 {
                    lemma_size_with_point(catalog_table()[15].1);
                } else {
                    lemma_size_whole(catalog_table()[15].1);
                }
            }
        } else if i == 16 {
            assert(size_tenths(catalog_table()[16].1) == 79) by {
                if catalog_table()[16].1.len() == 6 {
                    lemma_size_with_point(catalog_table()[16].1);
                } else {
                    lemma_size_whole(catalog_table()[16].1);
                }
            }
        } else if i == 17 {
            assert(size_tenths(catalog_table()[17].1) == 47) by {
                if catalog_table()[17].1.len() == 6 {
                    lemma_size_with_point(catalog_table()[17].1);
                } else {
                    lemma_size_whole(catalog_table()[17].1);
                }
            }
        } else if i == 18 {
            assert(size_tenths(catalog_table()[18].1) == 400) by {
                if catalog_table()[18].1.len() == 6 {
                    lemma_size_with_point(catalog_table()[18].1);
                } else {
                    lemma_size_whole(catalog_table()[18].1);
                }
            }
        } else if i == 19 {
            assert(size_tenths(catalog_table()[19].1) == 48) by {
                if catalog_table()[19].1.len() == 6 {
                    lemma_size_with_point(catalog_table()[19].1);
                } else {
                    lemma_size_whole(catalog_table()[19].1);
                }
            }
        } else if i == 20 {
            assert(size_tenths(catalog_table()[20].1) == 200) by {
                if catalog_table()[20].1.len() == 6 {
                    lemma_size_with_point(catalog_table()[20].1);
                } else {
                    lemma_size_whole(catalog_table()[20].1);
                }
            }
        } else if i == 21 {
            assert(size_tenths(catalog_table()[21].1) == 10) by {
                if catalog_table()[21].1.len() == 6 {
                    lemma_size_with_point(catalog_table()[21].1);
                } else {
                    lemma_size_whole(catalog_table()[21].1);
                }
            }
        } else if i == 22 {
            assert(size_tenths(catalog_table()[22].1) == 47) by {
                if catalog_table()[22].1.len() == 6 {
                    lemma_size_with_point(catalog_table()[22].1);
                } else {
                    lemma_size_whole(catalog_table()[22].1);
                }
            }
        } else if i == 23 {
            assert(size_tenths(catalog_table()[23].1) == 200) by {
                if catalog_table()[23].1.len() == 6 {
                    lemma_size_with_point(catalog_table()[23].1);
                } else {
                    lemma_size_whole(catalog_table()[23].1);
                }
            }
        } else if i == 24 {
            assert(size_tenths(catalog_table()[24].1) == 38) by {
                if catalog_table()[24].1.len() == 6 {
                    lemma_size_with_point(catalog_table()[24].1);
                } else {
                    lemma_size_whole(catalog_table()[24].1);
                }
            }
        } else if i == 25 {
            assert(size_tenths(catalog_table()[25].1) == 74) by {
                if catalog_table()[25].1.len() == 6 {
                    lemma_size_with_point(catalog_table()[25].1);
                } else {
                    lemma_size_whole(catalog_table()[25].1);
                }
            }
        } else if i == 26 {
            assert(size_tenths(catalog_table()[26].1) == 90) by {
                if catalog_table()[26].1.len() == 6 {
                    lemma_size_with_point(catalog_table()[26].1);
                } else {
                    lemma_size_whole(catalog_table()[26].1);
                }
            }
        } else if i == 27 {
            assert(size_tenths(catalog_table()[27].1) == 17) by {
                if catalog_table()[27].1.len() == 6 {
                    lemma_size_with_point(catalog_table()[27].1);
                } else {
                    lemma_size_whole(catalog_table()[27].1);
                }
            }
        } else if i == 28 {
            assert(size_tenths(catalog_table()[28].1) == 50) by {
                if catalog_table()[28].1.len() == 6 {
                    lemma_size_with_point(catalog_table()[28].1);
                } else {
                    lemma_size_whole(catalog_table()[28].1);
                }
            }
        } else if i == 29 {
            assert(size_tenths(catalog_table()[29].1) == 47) by {
                if catalog_table()[29].1.len() == 6 {
                    lemma_size_with_point(catalog_table()[29].1);
                } else {
                    lemma_size_whole(catalog_table()[29].1);
                }
            }
        } else if i == 30 {
            assert(size_tenths(catalog_table()[30].1) == 49) by {
                if catalog_table()[30].1.len() == 6 {
                    lemma_size_with_point(catalog_table()[30].1);
                } else {
                    lemma_size_whole(catalog_table()[30].1);
                }
            }
        } else if i == 31 {
            assert(size_tenths(catalog_table()[31].1) == 90) by {
                if catalog_table()[31].1.len() == 6 {
                    lemma_size_with_point(catalog_table()[31].1);
                } else {
                    lemma_size_whole(catalog_table()[31].1);
                }
            }
        } else if i == 32 {
            assert(size_tenths(catalog_table()[32].1) == 200) by {
                if catalog_table()[32].1.len() == 6 {
                    lemma_size_with_point(catalog_table()[32].1);
                } else {
                    lemma_size_whole(catalog_table()[32].1);
                }
            }
        } else if i == 33 {
            assert(size_tenths(catalog_table()[33].1) == 17) by {
                if catalog_table()[33].1.len() == 6 {
                    lemma_size_with_point(catalog_table()[33].1);
                } else {
                    lemma_size_whole(catalog_table()[33].1);
                }
            }
        } else if i == 34 {
            assert(size_tenths(catalog_table()[34].1) == 45) by {
                if catalog_table()[34].1.len() == 6 {
                    lemma_size_with_point(catalog_table()[34].1);
                } else {
                    lemma_size_whole(catalog_table()[34].1);
                }
            }
        } else if i == 35 {
            assert(size_tenths(catalog_table()[35].1) == 80) by {
                if catalog_table()[35].1.len() == 6 {
                    lemma_size_with_point(catalog_table()[35].1);
                } else {
                    lemma_size_whole(catalog_table()[35].1);
                }
            }
        } else if i == 36 {
            assert(size_tenths(catalog_table()[36].1) == 79) by {
                if catalog_table()[36].1.len() == 6 {
                    lemma_size_with_point(catalog_table()[36].1);
                } else {
                    lemma_size_whole(catalog_table()[36].1);
                }
            }
        } else if i == 37 {
            assert(size_tenths(catalog_table()[37].1) == 55) by {
                if catalog_table()[37].1.len() == 6 {
                    lemma_size_with_point(catalog_table()[37].1);
                } else {
                    lemma_size_whole(catalog_table()[37].1);
                }
            }
        } else if i == 38 {
            assert(size_tenths(catalog_table()[38].1) == 3) by {
                if catalog_table()[38].1.len() == 6 {
                    lemma_size_with_point(catalog_table()[38].1);
                } else {
                    lemma_size_whole(catalog_table()[38].1);
                }
            }
        } else if i == 39 {
            assert(size_tenths(catalog_table()[39].1) == 7) by {
                if catalog_table()[39].1.len() == 6 {
                    lemma_size_with_point(catalog_table()[39].1);
                } else {
                    lemma_size_whole(catalog_table()[39].1);
                }
            }
        } else if i == 40 {
            assert(size_tenths(catalog_table()[40].1) == 12) by {
                if catalog_table()[40].1.len() == 6 {
                    lemma_size_with_point(catalog_table()[40].1);
                } else {
                    lemma_size_whole(catalog_table()[40].1);
                }
            }
        } else if i == 41 {
            assert(size_tenths(catalog_table()[41].1) == 6) by {
                if catalog_table()[41].1.len() == 6 {
                    lemma_size_with_point(catalog_table()[41].1);
                } else {
                    lemma_size_whole(catalog_table()[41].1);
                }
            }
        } else if i == 42 {
            assert(size_tenths(catalog_table()[42].1) == 11) by {
                if catalog_table()[42].1.len() == 6 {
                    lemma_size_with_point(catalog_table()[42].1);
                } else {
                    lemma_size_whole(catalog_table()[42].1);
                }
            }
        }
}

/// A model marked for a lower tier is always smaller than one marked for a
/// higher tier.
pub proof fn lower_tiers_get_smaller_models(i: int, j: int)
    requires
        0 <= i < catalog_table().len(),
        0 <= j < catalog_table().len(),
        catalog_table()[i].4 < catalog_table()[j].4,
    ensures
        size_tenths(catalog_table()[i].1) < size_tenths(catalog_table()[j].1),
{
    catalog_sizes_fit_their_tiers(i);
    catalog_sizes_fit_their_tiers(j);
    catalog_entries_are_well_formed(i);
    catalog_entries_are_well_formed(j);
}

} // verus!
