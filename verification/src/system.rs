//! Memory tiers: how much work the machine is given, judged by its total memory.
use vstd::prelude::*;

verus! {

/// One gibibyte, the unit in which memory sizes are judged.
pub const GIB: u64 = 1_073_741_824;

/// The tier that a machine with `total_bytes` of memory falls in.
pub open spec fn tier_of(total_bytes: nat) -> u8 {
    if total_bytes < 12 * GIB {
        1
    } else if total_bytes < 32 * GIB {
        2
    } else {
        3
    }
}

/// The label and description shown for each tier.
pub open spec fn tier_text(tier: u8) -> (u8, Seq<char>, Seq<char>) {
    if tier == 1 {
        (1, "절약"@, "가벼운 소형 모델 1개를 순차 실행합니다."@)
    } else if tier == 2 {
        (2, "균형"@, "중형 모델로 여러 에이전트를 함께 돌립니다."@)
    } else {
        (3, "고성능"@, "대형 모델로 다중 에이전트를 병렬 실행합니다."@)
    }
}

/// Tier, label and description for a machine with `total_bytes` of memory.
pub fn tier_for(total_bytes: u64) -> (r: (u8, &'static str, &'static str))
    ensures
        r.0 == tier_of(total_bytes as nat),
        (r.0, r.1@, r.2@) == tier_text(r.0),
{
    if total_bytes < 12 * GIB {
        (1, "절약", "가벼운 소형 모델 1개를 순차 실행합니다.")
    } else if total_bytes < 32 * GIB {
        (2, "균형", "중형 모델로 여러 에이전트를 함께 돌립니다.")
    } else {
        (3, "고성능", "대형 모델로 다중 에이전트를 병렬 실행합니다.")
    }
}

/// The memory of the machine and the tier it puts the machine in. Sizes are in
/// bytes; the tier is judged in gibibytes, below 12 and below 32.
pub struct SystemInfo {
    pub total_bytes: u64,
    pub available_bytes: u64,
    pub tier: u8,
    pub tier_label: String,
    pub tier_desc: String,
}

/// What is reported for a machine with `total_bytes` of memory, of which
/// `available_bytes` are free.
pub fn system_info(total_bytes: u64, available_bytes: u64) -> (r: SystemInfo)
    ensures
        r.total_bytes == total_bytes,
        r.available_bytes == available_bytes,
        r.tier == tier_of(total_bytes as nat),
        (r.tier, r.tier_label@, r.tier_desc@) == tier_text(r.tier),
{
    let (tier, label, desc) = tier_for(total_bytes);
    SystemInfo {
        total_bytes,
        available_bytes,
        tier,
        tier_label: label.to_string(),
        tier_desc: desc.to_string(),
    }
}

/// More memory never puts a machine in a lower tier.
pub proof fn more_memory_never_lowers_the_tier(a: nat, b: nat)
    requires
        a <= b,
    ensures
        tier_of(a) <= tier_of(b),
        1 <= tier_of(a) <= 3,
{
}

} // verus!
