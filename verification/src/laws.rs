//! Properties that hold across the library's functions.

use vstd::prelude::*;

use crate::hex::{hex_char, hex_lower, hex_u64, nibble, nibble_shift};
use crate::operation_subs::{
    attr_value, blake3_digest, completion_suppressed, error_labels, is_excluded,
    metrics_suppressed, metrics_team, operation_labels, parse_payload_policy, parse_subs_mode,
    payload_fields_match, provider_mode, provider_payload_policy, trace_suppressed,
    OperationSubsConfig, PayloadFields, PayloadPolicy, SubsMode,
};
use crate::header_map::{entries_map, has_key_at, keys_distinct};
use crate::presets::{endpoint_or, parse_header_entries, parse_header_entry, with_default_header};
use crate::state_subs::state_labels;
use vstd::arithmetic::div_mod::lemma_div_denominator;
use vstd::arithmetic::power::{lemma_pow_positive, pow};
use vstd::utf8::encode_utf8;
use crate::provider::TelemetryProviderConfig;
use crate::state_subs::{audit_key_hash, fnv1a_64, state_post_suppressed};
use crate::text::{
    ascii_lower, ascii_lower_char, contains_name, first_index, has_char, is_ascii_space,
    is_first_index, split_on, trim_ascii, trim_ascii_end, trim_ascii_start,
};

verus! {

/// With operation subscriptions disabled nothing is emitted for an operation:
/// no requested, completed or error event, no root span, no state post event
/// and no metrics, whatever the operation, status or mode.
pub proof fn law_disabled_emits_nothing(
    config: OperationSubsConfig,
    name: Seq<char>,
    status: Seq<char>,
)
    requires
        !config.enabled,
    ensures
        trace_suppressed(config, name),
        completion_suppressed(config, name, status),
        state_post_suppressed(config, status),
        metrics_suppressed(config, name),
{
}

/// An excluded operation emits no trace event and no root span (requested,
/// completed, or error when the exclusion list names its id) and records no
/// metrics.
pub proof fn law_excluded_emits_nothing(
    config: OperationSubsConfig,
    name: Seq<char>,
    status: Seq<char>,
)
    requires
        is_excluded(config, name),
    ensures
        trace_suppressed(config, name),
        completion_suppressed(config, name, status),
        metrics_suppressed(config, name),
{
}

/// In metrics-only mode no trace event and no root span is emitted, while
/// metrics are still recorded for enabled, non-excluded operations.
pub proof fn law_metrics_only_emits_no_trace_events(
    config: OperationSubsConfig,
    name: Seq<char>,
    status: Seq<char>,
)
    requires
        config.mode == SubsMode::MetricsOnly,
    ensures
        trace_suppressed(config, name),
        completion_suppressed(config, name, status),
        config.enabled && !is_excluded(config, name) ==> !metrics_suppressed(config, name),
{
}

/// In traces-only mode no metrics are recorded, while trace events and root
/// spans still appear for enabled, non-excluded operations.
pub proof fn law_traces_only_records_no_metrics(config: OperationSubsConfig, name: Seq<char>)
    requires
        config.mode == SubsMode::TracesOnly,
    ensures
        metrics_suppressed(config, name),
        config.enabled && !is_excluded(config, name) ==> !trace_suppressed(config, name),
{
}

/// When denied operations are not included, a denied operation emits no
/// completion event while its requested event still fires; any other status
/// still completes.
pub proof fn law_denied_skips_only_completion(
    config: OperationSubsConfig,
    name: Seq<char>,
    status: Seq<char>,
)
    requires
        !config.include_denied,
        !trace_suppressed(config, name),
    ensures
        completion_suppressed(config, name, "denied"@),
        status != "denied"@ ==> !completion_suppressed(config, name, status),
{
}

/// `drop_payloads` forces the payload policy to none, whatever `payload_policy` says.
pub proof fn law_drop_payloads_overrides_policy(config: TelemetryProviderConfig)
    requires
        config.drop_payloads,
    ensures
        provider_payload_policy(config) == PayloadPolicy::NoPayload,
{
}

/// Attribution: an excluded identifier is empty and an included, unhashed one
/// is kept as it is.
pub proof fn law_attribution(value: Seq<char>, should_hash: bool)
    ensures
        attr_value(value, false, should_hash) == Seq::<char>::empty(),
        attr_value(value, true, false) == value,
{
}

proof fn lemma_ascii_lower_idempotent(s: Seq<char>)
    ensures
        ascii_lower(ascii_lower(s)) == ascii_lower(s),
{
    assert forall|i: int| 0 <= i < s.len() implies #[trigger] ascii_lower(ascii_lower(s))[i]
        == ascii_lower(s)[i] by {
        let c = s[i];
        if 'A' <= c && c <= 'Z' {
            assert(ascii_lower_char(c) as int == c as int + 32);
        }
    }
    assert(ascii_lower(ascii_lower(s)) =~= ascii_lower(s));
}

/// Mode and payload-policy names are matched without regard to ASCII case:
/// a name and its lowercase select the same setting.
pub proof fn law_names_ignore_ascii_case(name: Seq<char>)
    ensures
        parse_subs_mode(ascii_lower(name)) == parse_subs_mode(name),
        parse_payload_policy(ascii_lower(name)) == parse_payload_policy(name),
{
    lemma_ascii_lower_idempotent(name);
}

/// A header that is already set is never replaced by a preset's default value
/// (an explicit `Authorization` or `api-key` wins over the secret from the environment).
pub proof fn law_explicit_header_wins(
    headers: Map<Seq<char>, Seq<char>>,
    name: Seq<char>,
    value: Option<Seq<char>>,
)
    requires
        headers.contains_key(name),
    ensures
        with_default_header(headers, name, value) == headers,
{
}

proof fn lemma_hex_char_is_digit(n: int)
    requires
        0 <= n < 16,
    ensures
        ('0' <= hex_char(n) <= '9') || ('a' <= hex_char(n) <= 'f'),
{
}

/// An audit key hash is always sixteen lowercase hexadecimal digits.
pub proof fn law_audit_hash_is_short_hex(key: Seq<char>)
    ensures
        audit_key_hash(key).len() == 16,
        forall|i: int|
            0 <= i < 16 ==> ('0' <= #[trigger] audit_key_hash(key)[i] <= '9') || ('a'
                <= audit_key_hash(key)[i] <= 'f'),
{
    assert forall|i: int| 0 <= i < 16 implies ('0' <= #[trigger] audit_key_hash(key)[i] <= '9')
        || ('a' <= audit_key_hash(key)[i] <= 'f') by {
        let h = crate::state_subs::fnv1a_64(vstd::utf8::encode_utf8(key));
        let k = (15 - i) as nat;
        assert(nibble(h as nat, k) == nibble_shift(h as nat, k) % 16);
        lemma_hex_char_is_digit(nibble(h as nat, k) as int);
    }
}

/// Metric labels always carry the tenant (fourth, after operation, provider and
/// status) and carry the team exactly when one is given.
pub proof fn law_metric_labels_tenant_always_team_optional(
    op_name: Seq<char>,
    provider_type: Seq<char>,
    status: Seq<char>,
    tenant: Seq<char>,
    team: Option<Seq<char>>,
    hash_ids: bool,
)
    ensures
        operation_labels(op_name, provider_type, status, tenant, team, hash_ids)[3] == (
            "greentic.tenant.id"@,
            attr_value(tenant, true, hash_ids),
        ),
        operation_labels(op_name, provider_type, status, tenant, team, hash_ids).len() == if team is Some {
            5int
        } else {
            4int
        },
{
}

/// A preset's secret becomes the auth header whenever the parsed headers do not
/// already name it, whatever other headers they hold: every other header is
/// kept, and the auth header is added with exactly the secret's value. Without
/// a secret the headers are left as parsed.
pub proof fn law_secret_header_added_when_absent(
    headers: Map<Seq<char>, Seq<char>>,
    name: Seq<char>,
    value: Seq<char>,
)
    requires
        !headers.contains_key(name),
    ensures
        with_default_header(headers, name, Some(value)) == headers.insert(name, value),
        with_default_header(headers, name, Some(value)).contains_key(name),
        with_default_header(headers, name, Some(value))[name] == value,
        forall|k: Seq<char>|
            k != name ==> (#[trigger] with_default_header(headers, name, Some(value)).contains_key(k)
                <==> headers.contains_key(k)),
        with_default_header(headers, name, None) == headers,
{
}

/// The audit hash is FNV-1a 64 over every byte, with no bound on the length:
/// the empty key gives the offset basis, and appending one byte xors it into the
/// running hash and multiplies by the FNV prime modulo 2^64.
pub proof fn law_fnv1a_folds_every_byte(bytes: Seq<u8>, b: u8)
    ensures
        fnv1a_64(Seq::<u8>::empty()) == 0xcbf29ce484222325u64,
        fnv1a_64(bytes.push(b)) as nat == (((fnv1a_64(bytes) ^ (b as u64)) as nat)
            * 0x100000001b3nat) % 0x1_0000_0000_0000_0000nat,
{
    assert(bytes.push(b).drop_last() =~= bytes);
    assert(bytes.push(b).last() == b);
}

/// Two byte sequences that agree up to some position and differ in the byte
/// there still differ after hashing their common prefix and that byte: the
/// byte at every position, however far into the key, reaches the hash.
pub proof fn law_fnv1a_last_byte_matters(bytes: Seq<u8>, b1: u8, b2: u8)
    requires
        b1 != b2,
    ensures
        fnv1a_64(bytes.push(b1)) != fnv1a_64(bytes.push(b2)),
{
    law_fnv1a_folds_every_byte(bytes, b1);
    law_fnv1a_folds_every_byte(bytes, b2);
    let h = fnv1a_64(bytes);
    let x1 = h ^ (b1 as u64);
    let x2 = h ^ (b2 as u64);
    assert(x1 != x2) by (bit_vector)
        requires
            x1 == h ^ (b1 as u64),
            x2 == h ^ (b2 as u64),
            b1 != b2,
    ;
    lemma_fnv_prime_injective(x1, x2);
}

proof fn lemma_fnv_prime_cancels(x: u64)
    by (bit_vector)
    ensures
        (((x * 0x100000001b3u64) as u64) * 0xce965057aff6957bu64) as u64 == x,
{
}

proof fn lemma_fnv_prime_injective(x1: u64, x2: u64)
    requires
        x1 != x2,
    ensures
        ((x1 as nat) * 0x100000001b3nat) % 0x1_0000_0000_0000_0000nat != ((x2 as nat)
            * 0x100000001b3nat) % 0x1_0000_0000_0000_0000nat,
{
    // the prime is odd, so multiplying by it is a bijection modulo 2^64
    let y1 = (x1 * 0x100000001b3u64) as u64;
    let y2 = (x2 * 0x100000001b3u64) as u64;
    assert(y1 as int == (x1 * 0x100000001b3u64) % 0x1_0000_0000_0000_0000) by (bit_vector)
        requires
            y1 == (x1 * 0x100000001b3u64) as u64,
    ;
    assert(y2 as int == (x2 * 0x100000001b3u64) % 0x1_0000_0000_0000_0000) by (bit_vector)
        requires
            y2 == (x2 * 0x100000001b3u64) as u64,
    ;
    lemma_fnv_prime_cancels(x1);
    lemma_fnv_prime_cancels(x2);
    if y1 == y2 {
        assert(x1 == x2);
    }
}

/// Mode names: a name whose ASCII lowercase is `metrics_only` selects metrics
/// only, `traces_only` selects traces only, and every other name (among them
/// `metrics_and_traces`, any case variant of it, and unknown names) selects
/// metrics and traces.
pub proof fn law_mode_names(m: Seq<char>)
    ensures
        ascii_lower(m) == "metrics_only"@ ==> parse_subs_mode(m) == SubsMode::MetricsOnly,
        ascii_lower(m) == "traces_only"@ ==> parse_subs_mode(m) == SubsMode::TracesOnly,
        ascii_lower(m) != "metrics_only"@ && ascii_lower(m) != "traces_only"@ ==> parse_subs_mode(m)
            == SubsMode::MetricsAndTraces,
        ascii_lower(m) == "hash_only"@ ==> parse_payload_policy(m) == PayloadPolicy::HashOnly,
        ascii_lower(m) != "hash_only"@ ==> parse_payload_policy(m) == PayloadPolicy::NoPayload,
{
    reveal_strlit("traces_only");
    reveal_strlit("metrics_only");
    assert("traces_only"@.len() != "metrics_only"@.len());
}

/// ASCII lowercasing keeps the length, maps `A`..`Z` to `a`..`z` and leaves
/// every other character unchanged.
pub proof fn law_ascii_lower(s: Seq<char>)
    ensures
        ascii_lower(s).len() == s.len(),
        forall|i: int|
            0 <= i < s.len() ==> {
                &&& ('A' <= s[i] <= 'Z') ==> (#[trigger] ascii_lower(s)[i]) as u32 == s[i] as u32 + 32
                &&& !('A' <= s[i] <= 'Z') ==> ascii_lower(s)[i] == s[i]
            },
{
}

/// An operation is excluded exactly when some entry of the exclusion list, at
/// any position, equals its name; so each listed name suppresses its trace
/// events, and a name that is listed nowhere is not excluded.
pub proof fn law_exclusion_is_membership(config: OperationSubsConfig, name: Seq<char>)
    ensures
        is_excluded(config, name) <==> exists|i: int|
            0 <= i < config.exclude_ops@.len() && config.exclude_ops@[i]@ == name,
        forall|i: int|
            0 <= i < config.exclude_ops@.len() ==> trace_suppressed(
                config,
                #[trigger] config.exclude_ops@[i]@,
            ),
        forall|i: int|
            0 <= i < config.exclude_ops@.len() ==> metrics_suppressed(
                config,
                #[trigger] config.exclude_ops@[i]@,
            ),
{
    assert forall|i: int| 0 <= i < config.exclude_ops@.len() implies trace_suppressed(
        config,
        #[trigger] config.exclude_ops@[i]@,
    ) && metrics_suppressed(config, config.exclude_ops@[i]@) by {
        assert(contains_name(config.exclude_ops@, config.exclude_ops@[i]@));
    }
}

/// A state post event is dropped only when subscriptions are disabled, or for a
/// `denied` status while denied operations are not included: with subscriptions
/// enabled every other status (`ok`, `hit`, `miss`, `err`, ...) is emitted, and
/// with denied operations included every status is emitted.
pub proof fn law_state_post_only_drops_denied(config: OperationSubsConfig, status: Seq<char>)
    ensures
        config.enabled && status != "denied"@ ==> !state_post_suppressed(config, status),
        config.enabled && config.include_denied ==> !state_post_suppressed(config, status),
        !config.enabled ==> state_post_suppressed(config, status),
        !config.include_denied && status == "denied"@ ==> state_post_suppressed(config, status),
{
}

/// A trace event or root span is suppressed exactly when subscriptions are
/// disabled, some entry of the exclusion list equals the name, or the mode is
/// metrics-only; metrics exactly when subscriptions are disabled, the mode is
/// traces-only, or the name is listed; a completion event additionally when its
/// status is `denied` and denied operations are not included.
pub proof fn law_suppression_conditions(
    config: OperationSubsConfig,
    name: Seq<char>,
    status: Seq<char>,
)
    ensures
        trace_suppressed(config, name) <==> (!config.enabled || (exists|i: int|
            0 <= i < config.exclude_ops@.len() && config.exclude_ops@[i]@ == name) || config.mode
            == SubsMode::MetricsOnly),
        metrics_suppressed(config, name) <==> (!config.enabled || config.mode
            == SubsMode::TracesOnly || (exists|i: int|
            0 <= i < config.exclude_ops@.len() && config.exclude_ops@[i]@ == name)),
        completion_suppressed(config, name, status) <==> (trace_suppressed(config, name) || (
        !config.include_denied && status == "denied"@)),
{
}

/// Under no payload policy an event carries no payload data; under hash-only it
/// carries exactly the given size and hash.
pub proof fn law_payload_policy_fields(
    fields: Option<PayloadFields>,
    size: usize,
    hash: Seq<char>,
)
    ensures
        payload_fields_match(PayloadPolicy::NoPayload, fields, size, hash) <==> fields is None,
        payload_fields_match(PayloadPolicy::HashOnly, fields, size, hash) <==> (fields is Some
            && fields->0.size_bytes == size && fields->0.hash@ == hash),
{
}

/// A provider without a mode name selects metrics and traces; with one, the
/// name decides. Without `drop_payloads` a provider without a policy name
/// selects no payload data; with one, the name decides.
pub proof fn law_provider_settings(config: TelemetryProviderConfig)
    ensures
        config.operation_subs_mode is None ==> provider_mode(config) == SubsMode::MetricsAndTraces,
        config.operation_subs_mode is Some ==> provider_mode(config) == parse_subs_mode(
            config.operation_subs_mode->0@,
        ),
        !config.drop_payloads && config.payload_policy is None ==> provider_payload_policy(config)
            == PayloadPolicy::NoPayload,
        !config.drop_payloads && config.payload_policy is Some ==> provider_payload_policy(config)
            == parse_payload_policy(config.payload_policy->0@),
{
}

/// A hashed identifier is the lowercase hex BLAKE3 digest of the identifier's
/// UTF-8 bytes, which is exactly what the hashing call returns for those bytes.
pub proof fn law_hashed_identifier(value: Seq<char>)
    ensures
        attr_value(value, true, true) == hex_lower(blake3_digest(encode_utf8(value))),
{
}

/// Hex encoding gives two characters per byte: the digit of the high nibble,
/// then that of the low nibble; a nibble below ten is the digit `0`..`9`, and
/// from ten on the letter `a`..`f`.
pub proof fn law_hex_encoding(bytes: Seq<u8>, n: int)
    ensures
        hex_lower(bytes).len() == 2 * bytes.len(),
        forall|i: int|
            0 <= i < bytes.len() ==> #[trigger] hex_lower(bytes)[2 * i] == hex_char(bytes[i] as int / 16)
                && hex_lower(bytes)[2 * i + 1] == hex_char(bytes[i] as int % 16),
        0 <= n < 10 ==> hex_char(n) as int == '0' as int + n,
        10 <= n < 16 ==> hex_char(n) as int == 'a' as int + (n - 10),
{
    assert forall|i: int| 0 <= i < bytes.len() implies #[trigger] hex_lower(bytes)[2 * i]
        == hex_char(bytes[i] as int / 16) && hex_lower(bytes)[2 * i + 1] == hex_char(bytes[i] as int % 16) by {
        assert((2 * i) / 2 == i);
        assert((2 * i + 1) / 2 == i);
        assert((2 * i) % 2 == 0);
        assert((2 * i + 1) % 2 == 1);
    }
}

proof fn lemma_nibble_shift_is_division(h: nat, k: nat)
    ensures
        nibble_shift(h, k) == h / (pow(16, k) as nat),
        pow(16, k) > 0,
    decreases k,
{
    reveal(pow);
    lemma_pow_positive(16, k);
    if k > 0 {
        lemma_nibble_shift_is_division(h, (k - 1) as nat);
        let p = pow(16, (k - 1) as nat);
        lemma_div_denominator(h as int, p, 16);
        assert(pow(16, k) == 16 * p);
        assert(p * 16 == 16 * p);
        assert(nibble_shift(h, k) == nibble_shift(h, (k - 1) as nat) / 16);
        assert(nibble_shift(h, (k - 1) as nat) as int == (h as int) / p);
        assert((nibble_shift(h, (k - 1) as nat) / 16) as int == ((h as int) / p) / 16);
        assert(((h as int) / p) / 16 == (h as int) / pow(16, k));
    } else {
        assert(pow(16, 0) == 1);
    }
}

/// The sixteen digits of a 64-bit word are its base-16 digits, most significant
/// first: digit `i` is `(h / 16^(15 - i)) % 16`.
pub proof fn law_hex_u64_digits(h: u64)
    ensures
        hex_u64(h).len() == 16,
        forall|i: int|
            0 <= i < 16 ==> #[trigger] hex_u64(h)[i] == hex_char(
                ((h as nat) / (pow(16, (15 - i) as nat) as nat)) as int % 16,
            ),
{
    assert forall|i: int| 0 <= i < 16 implies #[trigger] hex_u64(h)[i] == hex_char(
        ((h as nat) / (pow(16, (15 - i) as nat) as nat)) as int % 16,
    ) by {
        lemma_nibble_shift_is_division(h as nat, (15 - i) as nat);
    }
}

/// Metric label sets: operation name, provider type, status (or error code),
/// tenant (hashed as requested, always present), then the team exactly when
/// one is given, hashed the same way; the attributed forms give the team
/// exactly when the configuration asks for it in metrics. State labels are the
/// operation then the status.
pub proof fn law_metric_label_sets(
    op_name: Seq<char>,
    provider_type: Seq<char>,
    status: Seq<char>,
    tenant: Seq<char>,
    team: Seq<char>,
    hash_ids: bool,
    config: OperationSubsConfig,
)
    ensures
        operation_labels(op_name, provider_type, status, tenant, None, hash_ids) == seq![
            ("greentic.op.name"@, op_name),
            ("greentic.provider.type"@, provider_type),
            ("greentic.op.status"@, status),
            ("greentic.tenant.id"@, attr_value(tenant, true, hash_ids)),
        ],
        operation_labels(op_name, provider_type, status, tenant, Some(team), hash_ids) == seq![
            ("greentic.op.name"@, op_name),
            ("greentic.provider.type"@, provider_type),
            ("greentic.op.status"@, status),
            ("greentic.tenant.id"@, attr_value(tenant, true, hash_ids)),
            ("greentic.team.id"@, attr_value(team, true, hash_ids)),
        ],
        error_labels(op_name, provider_type, status, tenant, None, hash_ids) == seq![
            ("greentic.op.name"@, op_name),
            ("greentic.provider.type"@, provider_type),
            ("greentic.op.error_code"@, status),
            ("greentic.tenant.id"@, attr_value(tenant, true, hash_ids)),
        ],
        error_labels(op_name, provider_type, status, tenant, Some(team), hash_ids) == seq![
            ("greentic.op.name"@, op_name),
            ("greentic.provider.type"@, provider_type),
            ("greentic.op.error_code"@, status),
            ("greentic.tenant.id"@, attr_value(tenant, true, hash_ids)),
            ("greentic.team.id"@, attr_value(team, true, hash_ids)),
        ],
        metrics_team(config, team) == if config.include_team_in_metrics {
            Some(team)
        } else {
            None::<Seq<char>>
        },
        state_labels(op_name, status) == seq![
            ("greentic.state.op"@, op_name),
            ("greentic.state.status"@, status),
        ],
{
    assert(operation_labels(op_name, provider_type, status, tenant, None, hash_ids) =~= seq![
        ("greentic.op.name"@, op_name),
        ("greentic.provider.type"@, provider_type),
        ("greentic.op.status"@, status),
        ("greentic.tenant.id"@, attr_value(tenant, true, hash_ids)),
    ]);
    assert(operation_labels(op_name, provider_type, status, tenant, Some(team), hash_ids) =~= seq![
        ("greentic.op.name"@, op_name),
        ("greentic.provider.type"@, provider_type),
        ("greentic.op.status"@, status),
        ("greentic.tenant.id"@, attr_value(tenant, true, hash_ids)),
        ("greentic.team.id"@, attr_value(team, true, hash_ids)),
    ]);
    assert(error_labels(op_name, provider_type, status, tenant, None, hash_ids) =~= seq![
        ("greentic.op.name"@, op_name),
        ("greentic.provider.type"@, provider_type),
        ("greentic.op.error_code"@, status),
        ("greentic.tenant.id"@, attr_value(tenant, true, hash_ids)),
    ]);
    assert(error_labels(op_name, provider_type, status, tenant, Some(team), hash_ids) =~= seq![
        ("greentic.op.name"@, op_name),
        ("greentic.provider.type"@, provider_type),
        ("greentic.op.error_code"@, status),
        ("greentic.tenant.id"@, attr_value(tenant, true, hash_ids)),
        ("greentic.team.id"@, attr_value(team, true, hash_ids)),
    ]);
}

/// A set, non-empty endpoint variable is used as it is; an unset or empty one
/// falls back to the preset's default.
pub proof fn law_endpoint_override(env: Option<String>, default: Option<Seq<char>>)
    ensures
        env is Some && env->0@.len() > 0 ==> endpoint_or(env, default) == Some(env->0@),
        env is None ==> endpoint_or(env, default) == default,
        env is Some && env->0@.len() == 0 ==> endpoint_or(env, default) == default,
{
}

/// The pieces joined back together with the separator between them.
pub open spec fn join_with(pieces: Seq<Seq<char>>, sep: char) -> Seq<char>
    decreases pieces.len(),
{
    if pieces.len() == 0 {
        Seq::empty()
    } else if pieces.len() == 1 {
        pieces[0]
    } else {
        join_with(pieces.drop_last(), sep).push(sep) + pieces.last()
    }
}

/// Splitting on a separator loses nothing and cuts at every separator: there is
/// at least one piece, no piece holds the separator, and joining the pieces
/// with the separator gives back the input.
pub proof fn law_split_rejoins(s: Seq<char>, sep: char)
    ensures
        split_on(s, sep).len() >= 1,
        join_with(split_on(s, sep), sep) == s,
        forall|i: int, j: int|
            0 <= i < split_on(s, sep).len() && 0 <= j < split_on(s, sep)[i].len() ==> #[trigger] split_on(
                s,
                sep,
            )[i][j] != sep,
    decreases s.len(),
{
    if s.len() == 0 {
        assert(split_on(s, sep) == seq![Seq::<char>::empty()]);
        assert(s =~= Seq::<char>::empty());
    } else {
        let t = s.drop_last();
        let c = s.last();
        law_split_rejoins(t, sep);
        let init = split_on(t, sep);
        assert(s =~= t.push(c));
        if c == sep {
            let q = init.push(Seq::<char>::empty());
            assert(split_on(s, sep) == q);
            assert(q.drop_last() =~= init);
            assert(join_with(q, sep) == join_with(init, sep).push(sep) + Seq::<char>::empty());
            assert(join_with(q, sep) =~= s);
            assert forall|i: int, j: int|
                0 <= i < q.len() && 0 <= j < q[i].len() implies #[trigger] q[i][j] != sep by {
                assert(i < init.len());
                assert(q[i] == init[i]);
            }
        } else {
            let last = init.len() - 1;
            let q = init.update(last, init.last().push(c));
            assert(split_on(s, sep) == q);
            if init.len() == 1 {
                assert(join_with(q, sep) == q[0]);
                assert(join_with(init, sep) == init[0]);
                assert(join_with(q, sep) =~= s);
            } else {
                assert(q.drop_last() =~= init.drop_last());
                assert(join_with(q, sep) == join_with(init.drop_last(), sep).push(sep) + q.last());
                assert(join_with(init, sep) == join_with(init.drop_last(), sep).push(sep)
                    + init.last());
                assert(join_with(q, sep) =~= s);
            }
            assert forall|i: int, j: int|
                0 <= i < q.len() && 0 <= j < q[i].len() implies #[trigger] q[i][j] != sep by {
                if i == last {
                    if j < init.last().len() {
                        assert(q[i][j] == init[i][j]);
                    } else {
                        assert(q[i][j] == c);
                    }
                } else {
                    assert(q[i] == init[i]);
                }
            }
        }
    }
}

proof fn lemma_trim_start_index(s: Seq<char>) -> (a: int)
    ensures
        0 <= a <= s.len(),
        trim_ascii_start(s) == s.subrange(a, s.len() as int),
        forall|j: int| 0 <= j < a ==> is_ascii_space(#[trigger] s[j]),
        a < s.len() ==> !is_ascii_space(s[a]),
    decreases s.len(),
{
    if s.len() > 0 && is_ascii_space(s[0]) {
        let t = s.drop_first();
        let a1 = lemma_trim_start_index(t);
        assert forall|j: int| 0 <= j < a1 + 1 implies is_ascii_space(#[trigger] s[j]) by {
            if j > 0 {
                assert(s[j] == t[j - 1]);
            }
        }
        if a1 + 1 < s.len() {
            assert(s[a1 + 1] == t[a1]);
        }
        assert(t.subrange(a1, t.len() as int) =~= s.subrange(a1 + 1, s.len() as int));
        a1 + 1
    } else {
        assert(s.subrange(0, s.len() as int) =~= s);
        0
    }
}

proof fn lemma_trim_end_index(s: Seq<char>) -> (b: int)
    ensures
        0 <= b <= s.len(),
        trim_ascii_end(s) == s.subrange(0, b),
        forall|j: int| b <= j < s.len() ==> is_ascii_space(#[trigger] s[j]),
        b > 0 ==> !is_ascii_space(s[b - 1]),
    decreases s.len(),
{
    if s.len() > 0 && is_ascii_space(s.last()) {
        let t = s.drop_last();
        let b1 = lemma_trim_end_index(t);
        assert forall|j: int| b1 <= j < s.len() implies is_ascii_space(#[trigger] s[j]) by {
            if j < t.len() {
                assert(s[j] == t[j]);
            }
        }
        if b1 > 0 {
            assert(s[b1 - 1] == t[b1 - 1]);
        }
        assert(t.subrange(0, b1) =~= s.subrange(0, b1));
        b1
    } else {
        assert(s.subrange(0, s.len() as int) =~= s);
        s.len() as int
    }
}

/// Trimming removes exactly the ASCII whitespace at both ends: the result is a
/// contiguous part `s[a..b]` of the input, everything before `a` and from `b` on
/// is ASCII whitespace, and a non-empty result starts and ends with a character
/// that is not.
pub proof fn law_trim_ascii_removes_only_edge_whitespace(s: Seq<char>)
    ensures
        exists|a: int, b: int|
            #![trigger s.subrange(a, b)]
            {
                &&& 0 <= a <= b <= s.len()
                &&& trim_ascii(s) == s.subrange(a, b)
                &&& forall|j: int| 0 <= j < a ==> is_ascii_space(#[trigger] s[j])
                &&& forall|j: int| b <= j < s.len() ==> is_ascii_space(#[trigger] s[j])
                &&& a < b ==> !is_ascii_space(s[a]) && !is_ascii_space(s[b - 1])
            },
{
    let a = lemma_trim_start_index(s);
    let rest = s.subrange(a, s.len() as int);
    let b1 = lemma_trim_end_index(rest);
    let b = a + b1;
    assert(rest.subrange(0, b1) =~= s.subrange(a, b));
    assert forall|j: int| b <= j < s.len() implies is_ascii_space(#[trigger] s[j]) by {
        assert(s[j] == rest[j - a]);
    }
    if a < b {
        assert(s[a] == rest[0]);
        assert(s[b - 1] == rest[b1 - 1]);
    }
    assert(trim_ascii(s) == s.subrange(a, b));
}

/// A header entry `name=value` (after trimming the entry), whose name holds no
/// `=` and is not blank, sets the trimmed name to the trimmed value; everything
/// after the first `=`, further `=` included, is the value.
pub proof fn law_header_entry_name_value(seg: Seq<char>, k: Seq<char>, v: Seq<char>)
    requires
        trim_ascii(seg) == k + seq!['='] + v,
        !has_char(k, '='),
        trim_ascii(k).len() > 0,
    ensures
        parse_header_entry(seg) == Some(Some((trim_ascii(k), trim_ascii(v)))),
{
    let t = k + seq!['='] + v;
    let p = k.len() as int;
    assert(t[p] == '=');
    assert forall|j: int| 0 <= j < p implies t[j] != '=' by {
        assert(t[j] == k[j]);
        if k[j] == '=' {
            assert(has_char(k, '='));
        }
    }
    assert(is_first_index(t, '=', p));
    assert(has_char(t, '='));
    let q = first_index(t, '=');
    assert(is_first_index(t, '=', q));
    if q < p {
        assert(t[q] != '=');
    } else if p < q {
        assert(t[p] != '=');
    }
    assert(t.take(p) =~= k);
    assert(t.skip(p + 1) =~= v);
}

/// A non-blank header entry without `=`, or whose name is blank, is malformed;
/// a blank entry sets nothing.
pub proof fn law_header_entry_malformed(seg: Seq<char>)
    ensures
        trim_ascii(seg).len() > 0 && !has_char(trim_ascii(seg), '=') ==> parse_header_entry(seg) is None,
        trim_ascii(seg).len() > 0 && has_char(trim_ascii(seg), '=') && trim_ascii(
            trim_ascii(seg).take(first_index(trim_ascii(seg), '=')),
        ).len() == 0 ==> parse_header_entry(seg) is None,
        trim_ascii(seg).len() == 0 ==> parse_header_entry(seg) == Some(
            None::<(Seq<char>, Seq<char>)>,
        ),
{
}

/// One malformed entry anywhere makes the whole headers variable malformed.
pub proof fn law_malformed_entry_rejects_all(segs: Seq<Seq<char>>, i: int)
    requires
        0 <= i < segs.len(),
        parse_header_entry(segs[i]) is None,
    ensures
        parse_header_entries(segs) is None,
    decreases segs.len(),
{
    if i < segs.len() - 1 {
        let init = segs.drop_last();
        assert(init[i] == segs[i]);
        law_malformed_entry_rejects_all(init, i);
    }
}

/// The map that a header list stands for has exactly its keys, each with its
/// own value, when no key occurs twice.
pub proof fn law_header_entries_map(entries: Seq<(String, String)>)
    requires
        keys_distinct(entries),
    ensures
        forall|i: int|
            0 <= i < entries.len() ==> #[trigger] entries_map(entries).contains_key(entries[i].0@)
                && entries_map(entries)[entries[i].0@] == entries[i].1@,
        forall|k: Seq<char>|
            #[trigger] entries_map(entries).contains_key(k) ==> exists|i: int|
                0 <= i < entries.len() && entries[i].0@ == k,
{
    assert forall|i: int| 0 <= i < entries.len() implies #[trigger] entries_map(
        entries,
    ).contains_key(entries[i].0@) && entries_map(entries)[entries[i].0@] == entries[i].1@ by {
        let k = entries[i].0@;
        assert(has_key_at(entries, i, k));
        let j = choose|j: int| #[trigger] has_key_at(entries, j, k);
        assert(has_key_at(entries, j, k));
        if j != i {
            assert(entries[i].0@ != entries[j].0@);
        }
    }
    assert forall|k: Seq<char>| #[trigger] entries_map(entries).contains_key(k) implies exists|i: int|
        0 <= i < entries.len() && entries[i].0@ == k by {
        let j = choose|j: int| #[trigger] has_key_at(entries, j, k);
        assert(has_key_at(entries, j, k));
    }
}

} // verus!
