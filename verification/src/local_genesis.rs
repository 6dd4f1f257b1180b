//! The `[local_genesis]` section: a deterministic, isolated, single-node local testnet
//! generated from a fixed seed, and the options it hands to the chain generator.

use vstd::prelude::*;
use crate::radix::{self, is_hex_digit, u8_from_str_radix};
use crate::text::{self, push_decimal, str_trim};

verus! {

/// Configuration for a deterministic, isolated, single-node local testnet generated
/// from a fixed seed.
///
/// This runs a brand-new chain from its own genesis with no peers and no public
/// network. Network upgrades up to NU6 (Orchard + NU6) activate just after the
/// premine blocks, so the node serves Orchard `getblocktemplate` immediately.
#[derive(Clone, Debug, PartialEq, Eq)]
pub struct LocalGenesisConfig {
    /// Human-readable network name (alphanumeric + underscore, max 30 chars).
    pub network_name: String,
    /// Miner names to fund with a premine (one 10-ZEC coinbase block each).
    pub miners: Vec<String>,
    /// Hex-encoded 32-byte seed for deterministic key and chain generation.
    ///
    /// The same seed + miners + `tip_time` reproduce an identical genesis on every
    /// start, which is required for committing the same genesis to state across restarts.
    pub seed: String,
    /// Fixed UNIX timestamp (seconds) for the seeded tip block.
    ///
    /// Pinned (rather than wall-clock) so the generated chain is reproducible.
    pub tip_time: i64,
    /// Extra empty blocks appended after the premine blocks so coinbase outputs can mature.
    pub maturity_padding_blocks: u32,
    /// If true, skip Equihash proof-of-work validation. Default `false` (a genuinely mined chain).
    pub disable_pow: bool,
}

/// The network upgrades of the chain, in activation order.
#[derive(Clone, Copy, Debug, PartialEq, Eq, Structural)]
pub enum NetworkUpgrade {
    Genesis,
    BeforeOverwinter,
    Overwinter,
    Sapling,
    Blossom,
    Heartwood,
    Canopy,
    Nu5,
    Nu6,
    Nu6_1,
    Nu7,
}

/// The options handed to the local-testnet chain generator.
#[derive(Clone, Debug, PartialEq, Eq)]
pub struct LocalTestnetGenesisOptions {
    /// Human-readable network name.
    pub network_name: String,
    /// The last network upgrade to activate.
    pub latest_network_upgrade: NetworkUpgrade,
    /// Skip proof-of-work validation.
    pub disable_pow: bool,
    /// Target block spacing, in seconds.
    pub target_spacing_secs: u32,
    /// Fixed UNIX timestamp of the seeded tip block, if any.
    pub seeded_tip_time: Option<i64>,
    /// Extra empty blocks after the premine blocks.
    pub maturity_padding_blocks: u32,
    /// The 32-byte generation seed, if any.
    pub seed: Option<[u8; 32]>,
}

/// The UTF-8 bytes of the seed once surrounding white space is trimmed.
pub open spec fn trimmed_seed_bytes(seed: Seq<char>) -> Seq<u8> {
    vstd::utf8::encode_utf8(text::trim(seed))
}

/// The `i`-th two-byte slice of the seed.
pub open spec fn pair_bytes(b: Seq<u8>, i: int) -> Seq<u8> {
    b.subrange(2 * i, 2 * i + 2)
}

/// The `i`-th slice is two hex digits.
pub open spec fn pair_decodes(b: Seq<u8>, i: int) -> bool {
    radix::is_radix_digit(b[2 * i], 16) && radix::is_radix_digit(b[2 * i + 1], 16)
}

/// Every slice before the `i`-th parses.
pub open spec fn pairs_decode_before(b: Seq<u8>, i: int) -> bool {
    forall|j: int| 0 <= j < i ==> #[trigger] pair_decodes(b, j)
}

/// The `i`-th slice is the first one that does not parse.
pub open spec fn is_first_bad_pair(b: Seq<u8>, i: int) -> bool {
    &&& 0 <= i < 32
    &&& pairs_decode_before(b, i)
    &&& !pair_decodes(b, i)
}

/// The 32 bytes that the 32 slices encode, high digit first.
pub open spec fn decoded_pairs(b: Seq<u8>) -> Seq<u8> {
    Seq::new(32, |i: int| (16 * radix::digit_value(b[2 * i]) + radix::digit_value(b[2 * i + 1])) as u8)
}

/// The detail of the error for a slice that the integer parser accepts but that is not two
/// hex digits (a `+` sign followed by one digit).
pub open spec fn sign_detail() -> Seq<char> {
    "'+' is not a hex digit"@
}

/// The error detail for a slice that is not two hex digits: the integer parser's own error
/// text when it refuses the slice, or [`sign_detail`] when it accepts it.
pub open spec fn bad_pair_detail(p: Seq<u8>) -> Seq<char> {
    if radix::parse_u8_radix(p, 16) is Some {
        sign_detail()
    } else {
        radix::int_error_text(p, 16)
    }
}

/// The error for a trimmed seed of `len` bytes.
pub open spec fn seed_length_message(len: nat) -> Seq<char> {
    "local_genesis.seed must be 64 hex chars (32 bytes), got "@ + text::decimal(len)
}

/// The error for a seed slice that is not a base-16 byte, given the parser's own error text.
pub open spec fn seed_hex_message(detail: Seq<char>) -> Seq<char> {
    "local_genesis.seed is not valid hex: "@ + detail
}

/// What decoding the seed yields: the 32 bytes of a 64-byte (after trimming) hex string,
/// the length error, or the error of the first two-byte slice that is not two hex digits.
pub open spec fn seed_decoding(seed: Seq<char>) -> Result<Seq<u8>, Seq<char>> {
    let b = trimmed_seed_bytes(seed);
    if b.len() != 64 {
        Err(seed_length_message(b.len()))
    } else if pairs_decode_before(b, 32) {
        Ok(decoded_pairs(b))
    } else {
        let k = choose|k: int| is_first_bad_pair(b, k);
        Err(seed_hex_message(bad_pair_detail(pair_bytes(b, k))))
    }
}

/// The `i`-th two-byte slice starts and ends on a character boundary of `b`.
pub open spec fn pair_on_char_boundaries(b: Seq<u8>, i: int) -> bool {
    vstd::utf8::is_char_boundary(b, 2 * i) && vstd::utf8::is_char_boundary(b, 2 * i + 2)
}

/// Each two-byte slice the decoder takes before it stops starts and ends on a character
/// boundary of the trimmed seed (slicing elsewhere would panic).
pub open spec fn seed_slices_on_char_boundaries(seed: Seq<char>) -> bool {
    let b = trimmed_seed_bytes(seed);
    b.len() == 64 ==> forall|i: int|
        0 <= i < 32 && pairs_decode_before(b, i) ==> #[trigger] pair_on_char_boundaries(b, i)
}

/// `o` is what a config builds: its name, proof-of-work switch, tip time and padding, NU6 as
/// the last upgrade, one-second spacing, and the decoded seed.
pub open spec fn options_from_config(o: LocalTestnetGenesisOptions, c: LocalGenesisConfig) -> bool {
    &&& o.network_name@ == c.network_name@
    &&& o.latest_network_upgrade == NetworkUpgrade::Nu6
    &&& o.disable_pow == c.disable_pow
    &&& o.target_spacing_secs == 1
    &&& o.seeded_tip_time == Some(c.tip_time)
    &&& o.maturity_padding_blocks == c.maturity_padding_blocks
    &&& o.seed matches Some(a) && seed_decoding(c.seed@) == Ok::<Seq<u8>, Seq<char>>(a@)
}

/// The options the parameter-dump tool builds for a network name, a 32-byte seed and a tip
/// time: NU6 as the last upgrade, proof of work on, one-second spacing, no padding.
pub open spec fn parameter_tool_options(o: LocalTestnetGenesisOptions, network_name: Seq<char>, seed: Seq<u8>, tip_time: i64) -> bool {
    &&& o.network_name@ == network_name
    &&& o.latest_network_upgrade == NetworkUpgrade::Nu6
    &&& !o.disable_pow
    &&& o.target_spacing_secs == 1
    &&& o.seeded_tip_time == Some(tip_time)
    &&& o.maturity_padding_blocks == 0
    &&& o.seed matches Some(a) && a@ == seed
}

/// The configuration key of a network upgrade under
/// `[network.testnet_parameters.activation_heights]`; `Genesis` and `BeforeOverwinter` are
/// not configurable and have none.
pub open spec fn upgrade_key_name(upgrade: NetworkUpgrade) -> Option<Seq<char>> {
    match upgrade {
        NetworkUpgrade::Genesis => None,
        NetworkUpgrade::BeforeOverwinter => None,
        NetworkUpgrade::Overwinter => Some("Overwinter"@),
        NetworkUpgrade::Sapling => Some("Sapling"@),
        NetworkUpgrade::Blossom => Some("Blossom"@),
        NetworkUpgrade::Heartwood => Some("Heartwood"@),
        NetworkUpgrade::Canopy => Some("Canopy"@),
        NetworkUpgrade::Nu5 => Some("NU5"@),
        NetworkUpgrade::Nu6 => Some("NU6"@),
        NetworkUpgrade::Nu6_1 => Some("NU6.1"@),
        NetworkUpgrade::Nu7 => Some("NU7"@),
    }
}

/// Map a network upgrade to the exact key name expected by the
/// `[network.testnet_parameters.activation_heights]` configuration table
/// (`NU5`/`NU6`/`NU6.1`/`NU7`, not the `Nu5`/`Nu6`/... of `Debug`).
pub fn activation_height_key(upgrade: NetworkUpgrade) -> (key: Option<&'static str>)
    ensures
        (key is None) <==> (upgrade_key_name(upgrade) is None),
        key matches Some(k) ==> upgrade_key_name(upgrade) == Some(k@),
{
    match upgrade {
        NetworkUpgrade::Genesis | NetworkUpgrade::BeforeOverwinter => None,
        NetworkUpgrade::Overwinter => Some("Overwinter"),
        NetworkUpgrade::Sapling => Some("Sapling"),
        NetworkUpgrade::Blossom => Some("Blossom"),
        NetworkUpgrade::Heartwood => Some("Heartwood"),
        NetworkUpgrade::Canopy => Some("Canopy"),
        NetworkUpgrade::Nu5 => Some("NU5"),
        NetworkUpgrade::Nu6 => Some("NU6"),
        NetworkUpgrade::Nu6_1 => Some("NU6.1"),
        NetworkUpgrade::Nu7 => Some("NU7"),
    }
}

/// The error message for a trimmed seed of `len` bytes.
pub fn seed_length_error(len: usize) -> (msg: String)
    ensures
        msg@ == seed_length_message(len as nat),
{
    let mut msg = String::from_str("local_genesis.seed must be 64 hex chars (32 bytes), got ");
    push_decimal(&mut msg, len);
    msg
}

/// The error message for a seed slice that is not hex, given the parser's error text.
pub fn seed_hex_error(detail: &str) -> (msg: String)
    ensures
        msg@ == seed_hex_message(detail@),
{
    let mut msg = String::from_str("local_genesis.seed is not valid hex: ");
    msg.append(detail);
    msg
}

/// A first bad slice, when there is one, is unique.
proof fn lemma_first_bad_pair_unique(b: Seq<u8>, i: int, k: int)
    requires
        is_first_bad_pair(b, i),
        is_first_bad_pair(b, k),
    ensures
        i == k,
{
    if i < k {
        assert(pair_decodes(b, i));
    } else if k < i {
        assert(pair_decodes(b, k));
    }
}

/// The hex digit of `n < 16`, lower- or upper-case.
pub open spec fn hex_digit(n: nat, upper: bool) -> char {
    if n < 10 {
        (48 + n) as char
    } else if upper {
        (55 + n) as char
    } else {
        (87 + n) as char
    }
}

/// The hex encoding of `bytes`, two digits per byte, high nibble first.
pub open spec fn hex_encode(bytes: Seq<u8>, upper: bool) -> Seq<char> {
    Seq::new(
        2 * bytes.len(),
        |i: int|
            if i % 2 == 0 {
                hex_digit((bytes[i / 2] / 16) as nat, upper)
            } else {
                hex_digit((bytes[i / 2] % 16) as nat, upper)
            },
    )
}

/// A hex digit is an ASCII byte with its own digit value.
proof fn lemma_hex_digit(n: nat, upper: bool)
    requires
        n < 16,
    ensures
        (hex_digit(n, upper) as u32) < 128,
        !text::is_white_space(hex_digit(n, upper)),
        hex_digit(n, upper) as u8 != 43,
        radix::digit_value(hex_digit(n, upper) as u8) == n,
{
}

/// Decoding depends on the seed only through its trimmed form: two seeds that trim to the
/// same text decode alike and are sliced alike.
pub proof fn law_seed_depends_only_on_trimmed_seed(s1: Seq<char>, s2: Seq<char>)
    requires
        text::trim(s1) == text::trim(s2),
    ensures
        seed_decoding(s1) == seed_decoding(s2),
        seed_slices_on_char_boundaries(s1) == seed_slices_on_char_boundaries(s2),
{
}

/// Decoding is insensitive to white space around the seed: the same bytes, the same error,
/// and the same slicing.
pub proof fn law_seed_ignores_surrounding_white_space(lead: Seq<char>, seed: Seq<char>, trail: Seq<char>)
    requires
        text::all_white_space(lead),
        text::all_white_space(trail),
    ensures
        seed_decoding(lead + seed + trail) == seed_decoding(seed),
        seed_slices_on_char_boundaries(lead + seed + trail) == seed_slices_on_char_boundaries(seed),
{
    text::lemma_trim_skips_surrounding_white_space(lead, seed, trail);
}

/// Only hex is accepted: a seed decodes exactly when, once trimmed, it is 64 hex digits.
pub proof fn law_seed_decodes_iff_hex(seed: Seq<char>)
    ensures
        (seed_decoding(seed) is Ok) <==> ({
            let b = trimmed_seed_bytes(seed);
            b.len() == 64 && forall|i: int| 0 <= i < 64 ==> radix::is_radix_digit(#[trigger] b[i], 16)
        }),
{
    let b = trimmed_seed_bytes(seed);
    if b.len() == 64 {
        if pairs_decode_before(b, 32) {
            assert forall|i: int| 0 <= i < 64 implies radix::is_radix_digit(#[trigger] b[i], 16) by {
                assert(pair_decodes(b, i / 2));
            }
        }
        if forall|i: int| 0 <= i < 64 ==> radix::is_radix_digit(#[trigger] b[i], 16) {
            assert forall|j: int| 0 <= j < 32 implies #[trigger] pair_decodes(b, j) by {
                assert(radix::is_radix_digit(b[2 * j], 16));
                assert(radix::is_radix_digit(b[2 * j + 1], 16));
            }
        }
    }
}

/// Reproducible: the options a config builds do not depend on its miners, and two configs
/// that agree on every other field (the seed up to surrounding white space) build the same
/// options.
pub proof fn law_options_do_not_depend_on_miners(c1: LocalGenesisConfig, c2: LocalGenesisConfig, o: LocalTestnetGenesisOptions)
    requires
        c1.network_name@ == c2.network_name@,
        text::trim(c1.seed@) == text::trim(c2.seed@),
        c1.tip_time == c2.tip_time,
        c1.maturity_padding_blocks == c2.maturity_padding_blocks,
        c1.disable_pow == c2.disable_pow,
    ensures
        options_from_config(o, c1) == options_from_config(o, c2),
        seed_decoding(c1.seed@) == seed_decoding(c2.seed@),
{
}

/// The options keep the configured padding and proof-of-work switch as they are, for every
/// config: neither depends on the other, nor on the seed, name, tip time or miners.
pub proof fn law_options_keep_padding_and_pow(c: LocalGenesisConfig, o: LocalTestnetGenesisOptions)
    requires
        options_from_config(o, c),
    ensures
        o.maturity_padding_blocks == c.maturity_padding_blocks,
        o.disable_pow == c.disable_pow,
        o.network_name@ == c.network_name@,
        o.seeded_tip_time == Some(c.tip_time),
        o.target_spacing_secs == 1,
        o.latest_network_upgrade == NetworkUpgrade::Nu6,
{
}

/// Two configs that differ only in padding and proof-of-work switch build options that differ
/// only there: each option takes its own field and nothing else.
pub proof fn law_padding_and_pow_are_independent(c1: LocalGenesisConfig, c2: LocalGenesisConfig, o1: LocalTestnetGenesisOptions, o2: LocalTestnetGenesisOptions)
    requires
        options_from_config(o1, c1),
        options_from_config(o2, c2),
        c1.maturity_padding_blocks == c2.maturity_padding_blocks,
    ensures
        o1.maturity_padding_blocks == o2.maturity_padding_blocks,
        c1.disable_pow == c2.disable_pow ==> o1.disable_pow == o2.disable_pow,
        c1.disable_pow != c2.disable_pow ==> o1.disable_pow != o2.disable_pow,
{
}

/// A decoded seed is what the integer parser gives for each two-byte slice, in base 16.
pub proof fn law_decoded_seed_is_parsed_pairs(seed: Seq<char>)
    requires
        seed_decoding(seed) is Ok,
    ensures
        forall|i: int| 0 <= i < 32 ==> radix::parse_u8_radix(#[trigger] pair_bytes(trimmed_seed_bytes(seed), i), 16)
            == Some(seed_decoding(seed)->Ok_0[i]),
        seed_decoding(seed)->Ok_0.len() == 32,
{
    let b = trimmed_seed_bytes(seed);
    assert forall|i: int| 0 <= i < 32 implies radix::parse_u8_radix(#[trigger] pair_bytes(b, i), 16)
        == Some(seed_decoding(seed)->Ok_0[i]) by {
        assert(pair_decodes(b, i));
        let p = pair_bytes(b, i);
        assert(p[0] == b[2 * i] && p[1] == b[2 * i + 1]);
        radix::lemma_hex_pair_parses(p);
    }
}

/// The options a config with no padding and proof of work on builds are exactly those the
/// parameter-dump tool builds from its network name, decoded seed and tip time.
pub proof fn law_options_match_the_parameter_tool(c: LocalGenesisConfig, o: LocalTestnetGenesisOptions)
    requires
        options_from_config(o, c),
        c.maturity_padding_blocks == 0,
        !c.disable_pow,
    ensures
        seed_decoding(c.seed@) is Ok,
        parameter_tool_options(o, c.network_name@, seed_decoding(c.seed@)->Ok_0, c.tip_time),
{
}

/// Round trip: the 64-digit hex encoding (lower- or upper-case) of 32 bytes decodes, without
/// slicing inside a character, to those bytes.
pub proof fn law_seed_hex_round_trip(bytes: Seq<u8>, upper: bool)
    requires
        bytes.len() == 32,
    ensures
        seed_slices_on_char_boundaries(hex_encode(bytes, upper)),
        seed_decoding(hex_encode(bytes, upper)) == Ok::<Seq<u8>, Seq<char>>(bytes),
{
    let h = hex_encode(bytes, upper);
    assert forall|i: int| 0 <= i < h.len() implies (#[trigger] h[i] as u32) < 128
        && !text::is_white_space(h[i]) && h[i] as u8 != 43 && radix::digit_value(h[i] as u8) < 16 by {
        if i % 2 == 0 {
            lemma_hex_digit((bytes[i / 2] / 16) as nat, upper);
        } else {
            lemma_hex_digit((bytes[i / 2] % 16) as nat, upper);
        }
    }
    text::lemma_trim_unpadded(h);
    assert(vstd::utf8::is_ascii_chars(h));
    vstd::utf8::is_ascii_chars_encode_utf8(h);
    vstd::utf8::encode_utf8_valid_utf8(h);
    let b = trimmed_seed_bytes(h);
    assert(b.len() == 64);
    assert forall|i: int| 0 <= i < 32 implies #[trigger] pair_on_char_boundaries(b, i) by {
        vstd::utf8::is_char_boundary_start_end_of_seq(b);
        if 2 * i > 0 {
            vstd::utf8::is_char_boundary_iff_not_is_continuation_byte(b, 2 * i);
            assert(b[2 * i] == h[2 * i] as u8);
        }
        if 2 * i + 2 < 64 {
            vstd::utf8::is_char_boundary_iff_not_is_continuation_byte(b, 2 * i + 2);
            assert(b[2 * i + 2] == h[2 * i + 2] as u8);
        }
    }
    assert forall|i: int| 0 <= i < 32 implies #[trigger] pair_decodes(b, i) && decoded_pairs(b)[i] == bytes[i] by {
        let hi = h[2 * i];
        let lo = h[2 * i + 1];
        assert(b[2 * i] == hi as u8 && b[2 * i + 1] == lo as u8);
        lemma_hex_digit((bytes[i] / 16) as nat, upper);
        lemma_hex_digit((bytes[i] % 16) as nat, upper);
        assert((2 * i) / 2 == i && (2 * i + 1) / 2 == i);
        assert((2 * i) % 2 == 0 && (2 * i + 1) % 2 == 1);
        assert(hi == hex_digit((bytes[i] / 16) as nat, upper));
        assert(lo == hex_digit((bytes[i] % 16) as nat, upper));
    }
    assert(decoded_pairs(b) =~= bytes);
}

/// The `i`-th two-byte slice of `s`, whose UTF-8 bytes are `b`; both of its ends must be
/// character boundaries (slicing elsewhere panics).
fn seed_pair<'a>(s: &'a str, i: usize, Ghost(b): Ghost<Seq<u8>>) -> (pair: &'a str)
    requires
        vstd::utf8::encode_utf8(s@) == b,
        b.len() == 64,
        i < 32,
        pair_on_char_boundaries(b, i as int),
    ensures
        vstd::utf8::encode_utf8(pair@) == pair_bytes(b, i as int),
{
    let start = i * 2;
    proof {
        vstd::utf8::encode_utf8_valid_utf8(s@);
    }
    let (_, rest) = s.split_at(start);
    let ghost r = vstd::utf8::encode_utf8(rest@);
    assert(r =~= b.subrange(start as int, 64));
    proof {
        vstd::utf8::valid_utf8_split(b, start as int);
        if start + 2 < 64 {
            vstd::utf8::is_char_boundary_iff_not_is_continuation_byte(b, start + 2);
            vstd::utf8::is_char_boundary_iff_not_is_continuation_byte(r, 2);
        } else {
            vstd::utf8::is_char_boundary_start_end_of_seq(r);
        }
    }
    let (pair, _) = rest.split_at(2);
    assert(vstd::utf8::encode_utf8(pair@) =~= pair_bytes(b, i as int));
    pair
}

impl LocalGenesisConfig {
    /// Decode the configured 32-byte seed from a 64-character hex string: each two-byte slice
    /// must be two hex digits.
    pub fn seed_bytes(&self) -> (res: Result<[u8; 32], String>)
        requires
            seed_slices_on_char_boundaries(self.seed@),
        ensures
            res matches Ok(a) ==> seed_decoding(self.seed@) == Ok::<Seq<u8>, Seq<char>>(a@),
            res matches Err(e) ==> seed_decoding(self.seed@) == Err::<Seq<u8>, Seq<char>>(e@),
    {
        let s = str_trim(self.seed.as_str());
        let n = s.as_bytes().len();
        let ghost b = trimmed_seed_bytes(self.seed@);
        if n != 64 {
            return Err(seed_length_error(n));
        }
        let mut out = [0u8; 32];
        let mut i: usize = 0;
        while i < 32
            invariant
                b == trimmed_seed_bytes(self.seed@),
                vstd::utf8::encode_utf8(s@) == b,
                b.len() == 64,
                seed_slices_on_char_boundaries(self.seed@),
                i <= 32,
                pairs_decode_before(b, i as int),
                forall|j: int| 0 <= j < i ==> out@[j] == #[trigger] decoded_pairs(b)[j],
            decreases 32 - i,
        {
            assert(pair_on_char_boundaries(b, i as int));
            let pair = seed_pair(s, i, Ghost(b));
            let digits = pair.as_bytes();
            let parsed = u8_from_str_radix(pair, 16);
            let hex = is_hex_digit(digits[0]) && is_hex_digit(digits[1]);
            proof {
                if hex {
                    radix::lemma_hex_pair_parses(pair_bytes(b, i as int));
                }
            }
            let e = match parsed {
                Ok(v) => {
                    if hex {
                        out[i] = v;
                        i = i + 1;
                        continue;
                    }
                    let detail = "'+' is not a hex digit";
                    proof {
                        reveal_strlit("'+' is not a hex digit");
                    }
                    seed_hex_error(detail)
                },
                Err(text) => seed_hex_error(text.as_str()),
            };
            proof {
                assert(is_first_bad_pair(b, i as int));
                let k = choose|k: int| is_first_bad_pair(b, k);
                lemma_first_bad_pair_unique(b, i as int, k);
            }
            return Err(e);
        }
        assert(out@ =~= decoded_pairs(b));
        Ok(out)
    }

    /// Whether decoding this config's seed slices it only on character boundaries, so that
    /// [`Self::seed_bytes`] and [`Self::to_options`] return instead of panicking.
    pub fn seed_slices_safely(&self) -> (r: bool)
        ensures
            r == seed_slices_on_char_boundaries(self.seed@),
    {
        let s = str_trim(self.seed.as_str());
        let n = s.as_bytes().len();
        let ghost b = trimmed_seed_bytes(self.seed@);
        if n != 64 {
            return true;
        }
        let mut i: usize = 0;
        while i < 32
            invariant
                b == trimmed_seed_bytes(self.seed@),
                vstd::utf8::encode_utf8(s@) == b,
                b.len() == 64,
                i <= 32,
                pairs_decode_before(b, i as int),
                forall|j: int| 0 <= j < i ==> #[trigger] pair_on_char_boundaries(b, j),
            decreases 32 - i,
        {
            let start = i * 2;
            if !s.is_char_boundary(start) || !s.is_char_boundary(start + 2) {
                assert(!pair_on_char_boundaries(b, i as int));
                return false;
            }
            let pair = seed_pair(s, i, Ghost(b));
            let digits = pair.as_bytes();
            if !(is_hex_digit(digits[0]) && is_hex_digit(digits[1])) {
                assert forall|k: int| 0 <= k < 32 && pairs_decode_before(b, k) implies #[trigger] pair_on_char_boundaries(b, k) by {
                    if k > i {
                        assert(pair_decodes(b, i as int));
                    }
                }
                return true;
            }
            i = i + 1;
        }
        true
    }

    /// Build the local-testnet generator options for this config (capped at NU6, one-second
    /// target spacing, the configured tip time as the seeded tip time, and the decoded seed).
    pub fn to_options(&self) -> (res: Result<LocalTestnetGenesisOptions, String>)
        requires
            seed_slices_on_char_boundaries(self.seed@),
        ensures
            (res is Ok) <==> (seed_decoding(self.seed@) is Ok),
            res matches Ok(o) ==> options_from_config(o, *self),
            res matches Ok(o) ==> {
                &&& o.network_name@ == self.network_name@
                &&& o.latest_network_upgrade == NetworkUpgrade::Nu6
                &&& o.disable_pow == self.disable_pow
                &&& o.target_spacing_secs == 1
                &&& o.seeded_tip_time == Some(self.tip_time)
                &&& o.maturity_padding_blocks == self.maturity_padding_blocks
                &&& o.seed matches Some(a) && seed_decoding(self.seed@) == Ok::<Seq<u8>, Seq<char>>(a@)
            },
            res matches Err(e) ==> seed_decoding(self.seed@) == Err::<Seq<u8>, Seq<char>>(e@),
    {
        let seed = match self.seed_bytes() {
            Ok(seed) => seed,
            Err(e) => {
                return Err(e);
            },
        };
        Ok(
            LocalTestnetGenesisOptions {
                network_name: self.network_name.clone(),
                latest_network_upgrade: NetworkUpgrade::Nu6,
                disable_pow: self.disable_pow,
                target_spacing_secs: 1,
                seeded_tip_time: Some(self.tip_time),
                maturity_padding_blocks: self.maturity_padding_blocks,
                seed: Some(seed),
            },
        )
    }
}

} // verus!
