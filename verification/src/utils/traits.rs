use vstd::prelude::*;
use crate::identity::Identity;
use crate::utils::randomness::{keccak256, keccak_hash, push_bytes, push_u64_le, u64_le_bytes};

verus! {

/// Number of trait slots of a creature.
pub const TRAIT_LAYERS: usize = 10;

/// Number of core traits: strength, agility, wisdom and vitality, in slots 0 to 3.
/// The other slots are reserved and stay 0.
pub const CORE_TRAITS: usize = 4;

/// The rarity of a trait vector: the sum of its four core traits.
pub open spec fn rarity(traits: Seq<u8>) -> int {
    traits[0] + traits[1] + traits[2] + traits[3]
}

/// Whether the reserved slots of a trait vector are all 0.
pub open spec fn reserved_slots_clear(traits: Seq<u8>) -> bool {
    forall|i: int| 4 <= i < 10 ==> traits[i] == 0
}

/// The trait vector that a digest gives a new creature: its first four bytes,
/// then zeros.
pub open spec fn traits_of_digest(digest: Seq<u8>) -> [u8; 10] {
    [digest[0], digest[1], digest[2], digest[3], 0u8, 0u8, 0u8, 0u8, 0u8, 0u8]
}

/// The bytes that are hashed for a new creature: creator, seed, context.
pub open spec fn generation_input(seed: u64, creator: Identity, context: Seq<u8>) -> Seq<u8> {
    creator@ + u64_le_bytes(seed) + context
}

/// Sum of the four core traits.
pub fn calculate_rarity(traits: &[u8; 10]) -> (score: u64)
    ensures
        score == rarity(traits@),
        score <= 1020,
{
    let mut score: u64 = 0;
    let mut i: usize = 0;
    while i < CORE_TRAITS
        invariant
            i <= 4,
            score <= 255 * i,
            i == 0 ==> score == 0,
            i == 1 ==> score == traits[0],
            i == 2 ==> score == traits[0] + traits[1],
            i == 3 ==> score == traits[0] + traits[1] + traits[2],
            i == 4 ==> score == rarity(traits@),
        decreases 4 - i,
    {
        score = score.saturating_add(traits[i] as u64);
        i += 1;
    }
    score
}

/// The traits and rarity that a digest gives a new creature.
pub fn traits_from_digest(digest: &[u8; 32]) -> (out: ([u8; 10], u64))
    ensures
        out.0 == traits_of_digest(digest@),
        out.1 == rarity(out.0@),
{
    let mut traits = [0u8; TRAIT_LAYERS];
    let mut i: usize = 0;
    while i < CORE_TRAITS
        invariant
            i <= 4,
            forall|k: int| 0 <= k < i ==> traits[k] == digest[k],
            forall|k: int| i <= k < 10 ==> traits[k] == 0,
        decreases 4 - i,
    {
        traits[i] = digest[i];
        i += 1;
    }
    assert(traits =~= traits_of_digest(digest@));
    let rarity_score = calculate_rarity(&traits);
    (traits, rarity_score)
}

/// Draws the traits of a new creature from the hash of its creator, the seed and
/// the context bytes (a timestamp, say).
pub fn generate_traits(seed: u64, owner: &Identity, clock_bytes: &[u8]) -> (out: ([u8; 10], u64))
    ensures
        out.0 == traits_of_digest(keccak256(generation_input(seed, *owner, clock_bytes@))),
        out.1 == rarity(out.0@),
        reserved_slots_clear(out.0@),
{
    let mut input: Vec<u8> = Vec::new();
    push_bytes(&mut input, owner.bytes.as_slice());
    push_u64_le(&mut input, seed);
    push_bytes(&mut input, clock_bytes);
    let digest = keccak_hash(input.as_slice());
    traits_from_digest(&digest)
}

/// The rounded-down mean of the two parents' values of one trait.
pub open spec fn parent_average(a: u8, b: u8) -> int {
    (a + b) / 2
}

/// The variation that a digest byte adds to a bred trait: from -20 to +20.
pub open spec fn variation(byte: u8) -> int {
    byte % 41 - 20
}

/// `x` brought into the range of a trait.
pub open spec fn clamp_trait(x: int) -> int {
    if x < 0 {
        0
    } else if x > 255 {
        255
    } else {
        x
    }
}

/// One core trait of a child: the parents' average plus the variation that the
/// digest byte gives, kept within 0 and 255.
pub open spec fn bred_trait(byte: u8, a: u8, b: u8) -> int {
    clamp_trait(parent_average(a, b) + variation(byte))
}

/// The trait vector of a child, given the digest that its variations are read from.
pub open spec fn bred_traits(digest: Seq<u8>, a: Seq<u8>, b: Seq<u8>) -> [u8; 10] {
    [
        bred_trait(digest[0], a[0], b[0]) as u8,
        bred_trait(digest[1], a[1], b[1]) as u8,
        bred_trait(digest[2], a[2], b[2]) as u8,
        bred_trait(digest[3], a[3], b[3]) as u8,
        0u8,
        0u8,
        0u8,
        0u8,
        0u8,
        0u8,
    ]
}

/// The bytes that are hashed for a breeding: seed, then both parents' traits.
pub open spec fn breeding_input(seed: u64, a: Seq<u8>, b: Seq<u8>) -> Seq<u8> {
    u64_le_bytes(seed) + a + b
}

/// Whether each core trait of `child` is within 20 of the parents' average.
pub open spec fn near_parents(child: Seq<u8>, a: Seq<u8>, b: Seq<u8>) -> bool {
    forall|i: int|
        0 <= i < 4 ==> -20 <= #[trigger] child[i] - parent_average(a[i], b[i]) <= 20
}

/// A bred trait is a valid trait value and differs from the parents' average by
/// at most 20, whatever byte the variation is drawn from.
pub proof fn lemma_bred_trait_near_average(byte: u8, a: u8, b: u8)
    ensures
        0 <= bred_trait(byte, a, b) <= 255,
        -20 <= bred_trait(byte, a, b) - parent_average(a, b) <= 20,
{
}

/// Whatever the digest, a child's core traits are within 20 of the parents'
/// averages and its reserved slots are 0.
pub proof fn lemma_bred_traits_bounded(digest: Seq<u8>, a: Seq<u8>, b: Seq<u8>)
    ensures
        near_parents(bred_traits(digest, a, b)@, a, b),
        reserved_slots_clear(bred_traits(digest, a, b)@),
{
    let child = bred_traits(digest, a, b)@;
    assert forall|i: int| 0 <= i < 4 implies -20 <= #[trigger] child[i] - parent_average(
        a[i],
        b[i],
    ) <= 20 by {
        lemma_bred_trait_near_average(digest[i], a[i], b[i]);
    }
}

/// The traits and rarity of a child, given the digest that its variations are
/// read from.
pub fn breed_from_digest(digest: &[u8; 32], parent_a: &[u8; 10], parent_b: &[u8; 10]) -> (out: (
    [u8; 10],
    u64,
))
    ensures
        out.0 == bred_traits(digest@, parent_a@, parent_b@),
        out.1 == rarity(out.0@),
{
    let mut child = [0u8; TRAIT_LAYERS];
    let mut i: usize = 0;
    while i < CORE_TRAITS
        invariant
            i <= 4,
            forall|k: int|
                0 <= k < i ==> child[k] == bred_trait(digest[k], parent_a[k], parent_b[k]),
            forall|k: int| i <= k < 10 ==> child[k] == 0,
        decreases 4 - i,
    {
        let avg: i16 = ((parent_a[i] as u16 + parent_b[i] as u16) / 2) as i16;
        let variation: i16 = (digest[i] % 41) as i16 - 20;
        let sum: i16 = avg + variation;
        let result: i16 = if sum < 0 {
            0
        } else if sum > 255 {
            255
        } else {
            sum
        };
        child[i] = result as u8;
        i += 1;
    }
    assert(child =~= bred_traits(digest@, parent_a@, parent_b@));
    let rarity_score = calculate_rarity(&child);
    (child, rarity_score)
}

/// Combines two parents' traits into a child's: per core trait the parents'
/// average plus a variation from -20 to +20 that is drawn from the hash of the
/// seed and both parents' traits.
pub fn breed_traits(seed: u64, parent_a: &[u8; 10], parent_b: &[u8; 10]) -> (out: ([u8; 10], u64))
    ensures
        out.0 == bred_traits(
            keccak256(breeding_input(seed, parent_a@, parent_b@)),
            parent_a@,
            parent_b@,
        ),
        out.1 == rarity(out.0@),
        near_parents(out.0@, parent_a@, parent_b@),
        reserved_slots_clear(out.0@),
{
    let mut input: Vec<u8> = Vec::new();
    push_u64_le(&mut input, seed);
    push_bytes(&mut input, parent_a.as_slice());
    push_bytes(&mut input, parent_b.as_slice());
    let digest = keccak_hash(input.as_slice());
    proof {
        lemma_bred_traits_bounded(digest@, parent_a@, parent_b@);
    }
    breed_from_digest(&digest, parent_a, parent_b)
}

/// The five rarity tiers, lowest first.
#[derive(Clone, Copy, Debug, PartialEq, Eq, Structural)]
pub enum RarityTier {
    Common,
    Uncommon,
    Rare,
    Epic,
    Legendary,
}

/// The place of a tier in the order: 0 for Common up to 4 for Legendary.
pub open spec fn tier_rank(tier: RarityTier) -> int {
    match tier {
        RarityTier::Common => 0,
        RarityTier::Uncommon => 1,
        RarityTier::Rare => 2,
        RarityTier::Epic => 3,
        RarityTier::Legendary => 4,
    }
}

/// The tier of a rarity score: the highest tier whose threshold the score reaches,
/// a score equal to a threshold counting as reaching it. Each tier has the
/// threshold of its rank: Uncommon the second of the five, Legendary the fifth. A
/// score that reaches none of these is Common, whose own threshold, the first,
/// decides nothing.
pub open spec fn tier_of(rarity_score: u64, thresholds: Seq<u64>) -> RarityTier {
    if rarity_score >= thresholds[4] {
        RarityTier::Legendary
    } else if rarity_score >= thresholds[3] {
        RarityTier::Epic
    } else if rarity_score >= thresholds[2] {
        RarityTier::Rare
    } else if rarity_score >= thresholds[1] {
        RarityTier::Uncommon
    } else {
        RarityTier::Common
    }
}

/// The name of a tier.
pub open spec fn tier_label(tier: RarityTier) -> Seq<char> {
    match tier {
        RarityTier::Common => "Common"@,
        RarityTier::Uncommon => "Uncommon"@,
        RarityTier::Rare => "Rare"@,
        RarityTier::Epic => "Epic"@,
        RarityTier::Legendary => "Legendary"@,
    }
}

/// The tier of a score is above Common only if the score reaches that tier's
/// threshold, and no tier above it has a threshold that the score reaches.
pub proof fn lemma_tier_is_highest_reached(rarity_score: u64, thresholds: Seq<u64>)
    ensures
        tier_rank(tier_of(rarity_score, thresholds)) >= 1 ==> rarity_score >= thresholds[tier_rank(
            tier_of(rarity_score, thresholds),
        )],
        forall|k: int|
            tier_rank(tier_of(rarity_score, thresholds)) < k <= 4 ==> rarity_score
                < #[trigger] thresholds[k],
{
}

/// With ascending thresholds, each tier above Common holds exactly the scores from
/// its own threshold up to, not including, the next tier's; Legendary has no upper
/// end, and Common holds the scores below the threshold of Uncommon.
pub proof fn lemma_tier_bands(rarity_score: u64, thresholds: Seq<u64>)
    requires
        thresholds.len() == 5,
        forall|i: int, j: int| 0 <= i <= j < 5 ==> thresholds[i] <= thresholds[j],
    ensures
        tier_of(rarity_score, thresholds) == RarityTier::Legendary <==> rarity_score
            >= thresholds[4],
        tier_of(rarity_score, thresholds) == RarityTier::Epic <==> thresholds[3] <= rarity_score
            < thresholds[4],
        tier_of(rarity_score, thresholds) == RarityTier::Rare <==> thresholds[2] <= rarity_score
            < thresholds[3],
        tier_of(rarity_score, thresholds) == RarityTier::Uncommon <==> thresholds[1]
            <= rarity_score < thresholds[2],
        tier_of(rarity_score, thresholds) == RarityTier::Common <==> rarity_score < thresholds[1],
{
}

impl RarityTier {
    /// The name of the tier.
    pub fn label(&self) -> (name: &'static str)
        ensures
            name@ == tier_label(*self),
    {
        match self {
            RarityTier::Common => "Common",
            RarityTier::Uncommon => "Uncommon",
            RarityTier::Rare => "Rare",
            RarityTier::Epic => "Epic",
            RarityTier::Legendary => "Legendary",
        }
    }
}

/// The tier of a rarity score under the given thresholds.
pub fn rarity_tier(rarity_score: u64, thresholds: &[u64; 5]) -> (tier: RarityTier)
    ensures
        tier == tier_of(rarity_score, thresholds@),
{
    if rarity_score >= thresholds[4] {
        RarityTier::Legendary
    } else if rarity_score >= thresholds[3] {
        RarityTier::Epic
    } else if rarity_score >= thresholds[2] {
        RarityTier::Rare
    } else if rarity_score >= thresholds[1] {
        RarityTier::Uncommon
    } else {
        RarityTier::Common
    }
}

/// The name of the tier of a rarity score under the given thresholds.
pub fn get_rarity_tier(rarity_score: u64, thresholds: &[u64; 5]) -> (name: &'static str)
    ensures
        name@ == tier_label(tier_of(rarity_score, thresholds@)),
{
    rarity_tier(rarity_score, thresholds).label()
}

/// The Base58 text of 32 bytes, in the alphabet that addresses are written in.
pub uninterp spec fn base58(bytes: Seq<u8>) -> Seq<char>;

/// Writes an identity as text with the `to_string` of `anchor_lang`'s `Pubkey`.
///
/// Trusted: `Pubkey` displays itself as the Base58 encoding of its 32 bytes, so
/// the text is `base58` of the identity's bytes.
#[verifier::external_body]
pub(crate) fn base58_text(bytes: &[u8; 32]) -> (text: String)
    ensures
        text@ == base58(bytes@),
{
    anchor_lang::prelude::Pubkey::new_from_array(*bytes).to_string()
}

/// The character of a decimal digit.
pub open spec fn digit_char(digit: int) -> char {
    if digit == 0 {
        '0'
    } else if digit == 1 {
        '1'
    } else if digit == 2 {
        '2'
    } else if digit == 3 {
        '3'
    } else if digit == 4 {
        '4'
    } else if digit == 5 {
        '5'
    } else if digit == 6 {
        '6'
    } else if digit == 7 {
        '7'
    } else if digit == 8 {
        '8'
    } else {
        '9'
    }
}

/// A number written in decimal, without leading zeros.
pub open spec fn decimal(n: nat) -> Seq<char>
    decreases n,
{
    if n < 10 {
        seq![digit_char(n as int)]
    } else {
        decimal(n / 10).push(digit_char((n % 10) as int))
    }
}

/// The address of a creature's description: the fixed prefix, the count of
/// creatures in decimal, a slash, and the creature's identity in Base58.
pub open spec fn metadata_uri(mint: Identity, total_minted: u64) -> Seq<char> {
    "https://arweave.net/zenbeasts/"@ + decimal(total_minted as nat) + "/"@ + base58(mint@)
}

/// The text of one decimal digit.
fn digit_text(digit: u64) -> (text: &'static str)
    requires
        digit < 10,
    ensures
        text@ == seq![digit_char(digit as int)],
{
    proof {
        reveal_strlit("0");
        reveal_strlit("1");
        reveal_strlit("2");
        reveal_strlit("3");
        reveal_strlit("4");
        reveal_strlit("5");
        reveal_strlit("6");
        reveal_strlit("7");
        reveal_strlit("8");
        reveal_strlit("9");
    }
    let text = if digit == 0 {
        "0"
    } else if digit == 1 {
        "1"
    } else if digit == 2 {
        "2"
    } else if digit == 3 {
        "3"
    } else if digit == 4 {
        "4"
    } else if digit == 5 {
        "5"
    } else if digit == 6 {
        "6"
    } else if digit == 7 {
        "7"
    } else if digit == 8 {
        "8"
    } else {
        "9"
    };
    assert(text@ =~= seq![digit_char(digit as int)]);
    text
}

/// Writes a number in decimal.
pub fn decimal_text(n: u64) -> (text: String)
    ensures
        text@ == decimal(n as nat),
    decreases n,
{
    if n < 10 {
        String::from_str(digit_text(n))
    } else {
        let mut text = decimal_text(n / 10);
        text.append(digit_text(n % 10));
        assert(text@ =~= decimal(n as nat));
        text
    }
}

/// The address of a creature's description.
pub fn generate_metadata_uri(mint: &Identity, total_minted: u64) -> (uri: String)
    ensures
        uri@ == metadata_uri(*mint, total_minted),
{
    let mut uri = String::from_str("https://arweave.net/zenbeasts/");
    uri.append(decimal_text(total_minted).as_str());
    uri.append("/");
    uri.append(base58_text(&mint.bytes).as_str());
    uri
}

} // verus!
