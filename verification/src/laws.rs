//! Properties that hold across calls: what the circuit breaker, the token
//! buckets, the registry, the configuration overrides and the providers keep,
//! stated over the specifications their functions meet.
use crate::browser::{fresh_policy, outcome_step, request_step, RecyclePolicy};
use crate::circuit_breaker::{
    allow_step, elapsed_secs, failure_step, fresh_circuit, success_step, CircuitState,
    ProviderCircuit,
};
use crate::auth::{auth_decision, AuthDecision};
use crate::config::{
    bool_setting, number_setting, positive_setting, text_setting, AuthConfig, CircuitBreakerConfig,
    RateLimitConfig,
};
use crate::ports::{ArgView, DiagramProvider, OutputFormat, RequestView, StepView};
use crate::providers::{ditaa_start, normalized, replace_escape, Provider};
use crate::rate_limit::{bucket_or_fresh, bucket_wf, ClientAddr, consume_step, fresh_bucket, refilled, retry_secs, TokenBucket, TOKEN};
use crate::capabilities::ProviderMetadata;
use crate::services::RegistryEntry;
use crate::text::{ascii_lowercase, blank, is_ascii_text, lowercase};
use vstd::prelude::*;
use vstd::string::*;

verus! {

/// The circuit after failures recorded at the given times, in order.
pub open spec fn after_failures(c: ProviderCircuit, times: Seq<u64>) -> ProviderCircuit
    decreases times.len(),
{
    if times.len() == 0 {
        c
    } else {
        failure_step(after_failures(c, times.drop_last()), times.last())
    }
}

/// A closed circuit lets every request through and stays as it is.
pub proof fn law_closed_circuit_allows(c: ProviderCircuit, now: u64)
    requires
        c.state == CircuitState::Closed,
    ensures
        allow_step(c, now) == (c, true),
{
}

/// Consecutive failures of a fresh circuit open it exactly when their number
/// reaches the failure threshold; the count saturates at `u32::MAX`.
pub proof fn law_failures_open_at_threshold(config: CircuitBreakerConfig, times: Seq<u64>)
    ensures
        after_failures(fresh_circuit(config), times).state == (if times.len()
            >= fresh_circuit(config).failure_threshold {
            CircuitState::Open
        } else {
            CircuitState::Closed
        }),
        after_failures(fresh_circuit(config), times).consecutive_failures == (if times.len()
            <= u32::MAX {
            times.len()
        } else {
            u32::MAX as nat
        }),
        after_failures(fresh_circuit(config), times).failure_threshold == fresh_circuit(
            config,
        ).failure_threshold,
    decreases times.len(),
{
    if times.len() > 0 {
        law_failures_open_at_threshold(config, times.drop_last());
    }
}

/// A success closes any circuit and clears its failures.
pub proof fn law_success_closes(c: ProviderCircuit)
    ensures
        success_step(c).state == CircuitState::Closed,
        success_step(c).consecutive_failures == 0,
        success_step(c).last_failure_time is None,
        success_step(c).failure_threshold == c.failure_threshold,
        success_step(c).reset_timeout_secs == c.reset_timeout_secs,
{
}

/// A failure of the trial request reopens a half-open circuit, whatever the
/// count of failures.
pub proof fn law_half_open_failure_reopens(c: ProviderCircuit, now: u64)
    requires
        c.state == CircuitState::HalfOpen,
    ensures
        failure_step(c, now).state == CircuitState::Open,
        failure_step(c, now).last_failure_time == Some(now),
{
}

/// An open circuit refuses requests, and stays as it is, until its reset
/// timeout has passed since the last failure.
pub proof fn law_open_refuses_until_timeout(c: ProviderCircuit, last: u64, now: u64)
    requires
        c.state == CircuitState::Open,
        c.last_failure_time == Some(last),
        elapsed_secs(last, now) < c.reset_timeout_secs,
    ensures
        allow_step(c, now) == (c, false),
{
}

/// Once the reset timeout has passed, an open circuit lets one trial request
/// through and turns half-open; a half-open circuit refuses every other
/// request until the trial's outcome is recorded.
pub proof fn law_one_trial_after_timeout(c: ProviderCircuit, last: u64, now: u64, later: u64)
    requires
        c.state == CircuitState::Open,
        c.last_failure_time == Some(last),
        elapsed_secs(last, now) >= c.reset_timeout_secs,
    ensures
        allow_step(c, now).1,
        allow_step(c, now).0.state == CircuitState::HalfOpen,
        !allow_step(allow_step(c, now).0, later).1,
{
}

/// The bucket after `n` requests at the same instant `now`.
pub open spec fn after_requests(b: TokenBucket, n: nat, now: u64) -> TokenBucket
    decreases n,
{
    if n == 0 {
        b
    } else {
        consume_step(after_requests(b, (n - 1) as nat, now), now).0
    }
}

/// Refilling and taking a token keep a bucket within its capacity and keep
/// its capacity and rate.
pub proof fn law_bucket_within_capacity(b: TokenBucket, now: u64)
    requires
        bucket_wf(b),
    ensures
        bucket_wf(consume_step(b, now).0),
        consume_step(b, now).0.tokens <= b.max_tokens,
        consume_step(b, now).0.max_tokens == b.max_tokens,
        consume_step(b, now).0.refill_rate == b.refill_rate,
{
}

/// A fresh bucket admits its whole burst at one instant and refuses the
/// request after it.
pub proof fn law_burst_then_refuse(burst: u32, rate: u32, now: u64, k: nat)
    requires
        k <= burst,
    ensures
        after_requests(fresh_bucket(burst, rate, now), k, now) == (TokenBucket {
            tokens: ((burst - k) * TOKEN) as u64,
            ..fresh_bucket(burst, rate, now)
        }),
        k < burst ==> consume_step(after_requests(fresh_bucket(burst, rate, now), k, now), now).1,
        k == burst ==> !consume_step(
            after_requests(fresh_bucket(burst, rate, now), k, now),
            now,
        ).1,
    decreases k,
{
    let fresh = fresh_bucket(burst, rate, now);
    if k > 0 {
        law_burst_then_refuse(burst, rate, now, (k - 1) as nat);
        let prev = after_requests(fresh, (k - 1) as nat, now);
        lemma_refill_same_instant(prev);
        assert(prev.tokens == (burst - k + 1) * TOKEN);
        assert(after_requests(fresh, k, now) == consume_step(prev, now).0);
    }
    let cur = after_requests(fresh, k, now);
    lemma_refill_same_instant(cur);
}

/// Refilling at the instant of the last refill adds nothing.
proof fn lemma_refill_same_instant(b: TokenBucket)
    requires
        b.tokens <= b.max_tokens,
    ensures
        refilled(b, b.last_refill) == b.tokens,
{
    assert(0 * b.refill_rate == 0);
}

/// The wait a refused client is told is enough: a bucket that can hold a
/// token and lacks one has one again once `retry_secs` whole seconds have
/// passed, and that wait is at least a second.
pub proof fn law_retry_after_suffices(b: TokenBucket, later: u64)
    requires
        bucket_wf(b),
        b.max_tokens >= TOKEN,
        b.tokens < TOKEN,
        later >= b.last_refill,
        later - b.last_refill >= retry_secs(b) * TOKEN,
    ensures
        retry_secs(b) >= 1,
        consume_step(b, later).1,
{
    let missing: int = TOKEN - b.tokens;
    let per_sec: int = b.refill_rate * TOKEN;
    let wait: int = retry_secs(b) as int;
    let elapsed: int = later - b.last_refill;
    assert(wait == (missing + per_sec - 1) / per_sec);
    assert(wait * per_sec >= missing && wait >= 1) by (nonlinear_arith)
        requires
            per_sec >= TOKEN,
            0 < missing <= TOKEN,
            wait == (missing + per_sec - 1) / per_sec,
    ;
    assert(elapsed * b.refill_rate >= wait * per_sec) by (nonlinear_arith)
        requires
            elapsed >= wait * TOKEN,
            per_sec == b.refill_rate * TOKEN,
            b.refill_rate >= 1,
            wait >= 0,
    ;
    assert(refilled(b, later) >= TOKEN);
}

/// Applying the same environment overrides twice gives the settings of
/// applying them once.
pub proof fn law_overrides_idempotent(
    v: Option<String>,
    text: Seq<char>,
    max: nat,
    n: nat,
    flag: bool,
)
    ensures
        text_setting(v, text_setting(v, text)) == text_setting(v, text),
        number_setting(v, max, number_setting(v, max, n)) == number_setting(v, max, n),
        bool_setting(v, bool_setting(v, flag)) == bool_setting(v, flag),
        positive_setting(v, max, positive_setting(v, max, n)) == positive_setting(v, max, n),
{
}

/// An unset variable leaves its setting as it was.
pub proof fn law_unset_variable_keeps_setting(text: Seq<char>, max: nat, n: nat, flag: bool)
    ensures
        text_setting(None, text) == text,
        number_setting(None, max, n) == n,
        bool_setting(None, flag) == flag,
        positive_setting(None, max, n) == n,
{
}

/// A provider registered under a name is found under every spelling of the
/// name with the same lowercase form, and registering it leaves every other
/// name's entry as it was.
pub proof fn law_registry_lookup_ignores_case(
    before: Map<Seq<char>, RegistryEntry>,
    name: Seq<char>,
    spelling: Seq<char>,
    entry: RegistryEntry,
    other: Seq<char>,
)
    requires
        lowercase(spelling) == lowercase(name),
        other != lowercase(name),
    ensures
        before.insert(lowercase(name), entry).contains_key(lowercase(spelling)),
        before.insert(lowercase(name), entry)[lowercase(spelling)] == entry,
        before.insert(lowercase(name), entry).contains_key(other) == before.contains_key(other),
        before.contains_key(other) ==> before.insert(lowercase(name), entry)[other]
            == before[other],
{
}

/// Every provider refuses a source that is empty or only whitespace.
pub proof fn law_blank_source_refused(p: Provider, source: Seq<char>)
    requires
        blank(source),
    ensures
        !p.accepts(source),
{
}

/// The policy after `n` requests, none of which was answered by a recycle.
pub open spec fn after_policy_requests(p: RecyclePolicy, n: nat, threshold: usize) -> RecyclePolicy
    decreases n,
{
    if n == 0 {
        p
    } else {
        request_step(after_policy_requests(p, (n - 1) as nat, threshold), threshold).0
    }
}

/// Without failures, a fresh browser is recycled exactly on the request that
/// reaches its time-to-live, and not before.
pub proof fn law_recycle_at_time_to_live(ttl: usize, threshold: usize, k: nat)
    requires
        threshold >= 1,
        1 <= k <= fresh_policy(ttl).context_ttl_requests,
    ensures
        after_policy_requests(fresh_policy(ttl), (k - 1) as nat, threshold).request_count == k - 1,
        after_policy_requests(fresh_policy(ttl), (k - 1) as nat, threshold).consecutive_failures
            == 0,
        request_step(after_policy_requests(fresh_policy(ttl), (k - 1) as nat, threshold), threshold).1
            == (k == fresh_policy(ttl).context_ttl_requests),
    decreases k,
{
    let p0 = fresh_policy(ttl);
    if k > 1 {
        law_recycle_at_time_to_live(ttl, threshold, (k - 1) as nat);
        let prev = after_policy_requests(p0, (k - 2) as nat, threshold);
        assert(after_policy_requests(p0, (k - 1) as nat, threshold) == request_step(prev, threshold).0);
    }
    let cur = after_policy_requests(p0, (k - 1) as nat, threshold);
    assert(cur.context_ttl_requests == p0.context_ttl_requests) by {
        lemma_policy_requests_keep_ttl(p0, (k - 1) as nat, threshold);
    }
}

proof fn lemma_policy_requests_keep_ttl(p: RecyclePolicy, n: nat, threshold: usize)
    ensures
        after_policy_requests(p, n, threshold).context_ttl_requests == p.context_ttl_requests,
    decreases n,
{
    if n > 0 {
        lemma_policy_requests_keep_ttl(p, (n - 1) as nat, threshold);
    }
}

/// A successful render clears the failure count; a failed one adds to it
/// (wrapping at the counter's maximum).
pub proof fn law_render_outcome_counts(p: RecyclePolicy)
    ensures
        outcome_step(p, true).consecutive_failures == 0,
        p.consecutive_failures < usize::MAX ==> outcome_step(p, false).consecutive_failures
            == p.consecutive_failures + 1,
        outcome_step(p, true).request_count == p.request_count,
{
}

/// Whether no `\` in `s` is directly followed by `letter`.
pub open spec fn no_escape(s: Seq<char>, letter: char) -> bool {
    forall|i: int| 0 <= i < s.len() - 1 ==> !(#[trigger] s[i] == '\\' && s[i + 1] == letter)
}

proof fn lemma_no_escape_tail(s: Seq<char>, letter: char, k: int)
    requires
        no_escape(s, letter),
        0 <= k <= s.len(),
    ensures
        no_escape(s.subrange(k, s.len() as int), letter),
{
    let t = s.subrange(k, s.len() as int);
    assert forall|i: int| 0 <= i < t.len() - 1 implies !(#[trigger] t[i] == '\\' && t[i + 1]
        == letter) by {
        assert(t[i] == s[i + k] && t[i + 1] == s[i + 1 + k]);
    }
}

/// Replacing where nothing matches changes nothing.
proof fn lemma_replace_without_match(s: Seq<char>, letter: char, with: char)
    requires
        no_escape(s, letter),
    ensures
        replace_escape(s, letter, with) == s,
    decreases s.len(),
{
    if s.len() > 0 {
        assert(!(s.len() >= 2 && s[0] == '\\' && s[1] == letter));
        lemma_no_escape_tail(s, letter, 1);
        assert(s.drop_first() =~= s.subrange(1, s.len() as int));
        lemma_replace_without_match(s.drop_first(), letter, with);
        assert(seq![s[0]] + s.drop_first() =~= s);
    }
}

/// Replacing never lengthens a text, and its first character is the
/// replacement when the text starts with the pattern, else the text's own.
proof fn lemma_replace_shape(s: Seq<char>, letter: char, with: char)
    ensures
        replace_escape(s, letter, with).len() <= s.len(),
        s.len() == 0 ==> replace_escape(s, letter, with).len() == 0,
        s.len() > 0 ==> replace_escape(s, letter, with).len() > 0,
        s.len() > 0 ==> replace_escape(s, letter, with)[0] == (if s.len() >= 2 && s[0] == '\\'
            && s[1] == letter {
            with
        } else {
            s[0]
        }),
    decreases s.len(),
{
    if s.len() >= 2 && s[0] == '\\' && s[1] == letter {
        lemma_replace_shape(s.subrange(2, s.len() as int), letter, with);
    } else if s.len() > 0 {
        lemma_replace_shape(s.drop_first(), letter, with);
    }
}

/// After replacing, no pattern is left, and no other escape is created
/// where there was none.
proof fn lemma_replace_clears(s: Seq<char>, letter: char, with: char, other: char)
    requires
        with != '\\',
        with != letter,
        with != other,
    ensures
        no_escape(replace_escape(s, letter, with), letter),
        no_escape(s, other) ==> no_escape(replace_escape(s, letter, with), other),
    decreases s.len(),
{
    let r = replace_escape(s, letter, with);
    if s.len() >= 2 && s[0] == '\\' && s[1] == letter {
        let rest = s.subrange(2, s.len() as int);
        lemma_replace_clears(rest, letter, with, other);
        if no_escape(s, other) {
            lemma_no_escape_tail(s, other, 2);
        }
        let rr = replace_escape(rest, letter, with);
        assert(r == seq![with] + rr);
        assert forall|i: int| 0 <= i < r.len() - 1 implies !(#[trigger] r[i] == '\\' && r[i + 1]
            == letter) by {
            if i > 0 {
                assert(r[i] == rr[i - 1] && r[i + 1] == rr[i]);
            }
        }
        if no_escape(s, other) {
            assert forall|i: int| 0 <= i < r.len() - 1 implies !(#[trigger] r[i] == '\\' && r[i
                + 1] == other) by {
                if i > 0 {
                    assert(r[i] == rr[i - 1] && r[i + 1] == rr[i]);
                }
            }
        }
    } else if s.len() > 0 {
        let t = s.drop_first();
        assert(t =~= s.subrange(1, s.len() as int));
        lemma_replace_clears(t, letter, with, other);
        if no_escape(s, other) {
            lemma_no_escape_tail(s, other, 1);
        }
        lemma_replace_shape(t, letter, with);
        let rt = replace_escape(t, letter, with);
        assert(r == seq![s[0]] + rt);
        assert forall|i: int| 0 <= i < r.len() - 1 implies !(#[trigger] r[i] == '\\' && r[i + 1]
            == letter) by {
            if i > 0 {
                assert(r[i] == rt[i - 1] && r[i + 1] == rt[i]);
            } else {
                assert(r[1] == rt[0]);
            }
        }
        if no_escape(s, other) {
            assert forall|i: int| 0 <= i < r.len() - 1 implies !(#[trigger] r[i] == '\\' && r[i
                + 1] == other) by {
                if i > 0 {
                    assert(r[i] == rt[i - 1] && r[i + 1] == rt[i]);
                } else {
                    assert(r[1] == rt[0]);
                    assert(s[0] == '\\' ==> s[1] != other);
                }
            }
        }
    }
}

/// Replacing an ASCII escape pair by one ASCII character never adds UTF-8 bytes.
proof fn lemma_replace_bytes(s: Seq<char>, letter: char, with: char)
    requires
        (letter as u32) < 128,
        (with as u32) < 128,
    ensures
        vstd::utf8::encode_utf8(replace_escape(s, letter, with)).len()
            <= vstd::utf8::encode_utf8(s).len(),
    decreases s.len(),
{
    let r = replace_escape(s, letter, with);
    if s.len() >= 2 && s[0] == '\\' && s[1] == letter {
        let rest = s.subrange(2, s.len() as int);
        lemma_replace_bytes(rest, letter, with);
        let rr = replace_escape(rest, letter, with);
        assert(r[0] == with && r.drop_first() =~= rr);
        assert(s.drop_first()[0] == letter && s.drop_first().drop_first() =~= rest);
        assert(vstd::utf8::encode_utf8(r) == vstd::utf8::encode_scalar(with as u32)
            + vstd::utf8::encode_utf8(rr));
        assert(vstd::utf8::encode_utf8(s.drop_first()) == vstd::utf8::encode_scalar(letter as u32)
            + vstd::utf8::encode_utf8(rest));
    } else if s.len() > 0 {
        let t = s.drop_first();
        lemma_replace_bytes(t, letter, with);
        let rt = replace_escape(t, letter, with);
        assert(r[0] == s[0] && r.drop_first() =~= rt);
        assert(vstd::utf8::encode_utf8(r) == vstd::utf8::encode_scalar(s[0] as u32)
            + vstd::utf8::encode_utf8(rt));
    }
}

/// Normalising escaped whitespace never makes the text longer in UTF-8
/// bytes, the length `String::len` counts.
pub proof fn law_normalize_not_longer_in_bytes(s: Seq<char>)
    ensures
        vstd::utf8::encode_utf8(normalized(s)).len() <= vstd::utf8::encode_utf8(s).len(),
{
    lemma_replace_bytes(s, 'n', '\n');
    lemma_replace_bytes(replace_escape(s, 'n', '\n'), 't', '\t');
}

/// Normalising escaped whitespace leaves no `\n` or `\t` escape behind, so
/// normalising again changes nothing; a text with no escape, in particular
/// one without a backslash, is left as it is; and no text grows.
pub proof fn law_normalize_idempotent(s: Seq<char>)
    ensures
        no_escape(normalized(s), 'n'),
        no_escape(normalized(s), 't'),
        normalized(normalized(s)) == normalized(s),
        no_escape(s, 'n') && no_escape(s, 't') ==> normalized(s) == s,
        !s.contains('\\') ==> normalized(s) == s,
        normalized(s).len() <= s.len(),
{
    let a = replace_escape(s, 'n', '\n');
    let b = replace_escape(a, 't', '\t');
    lemma_replace_clears(s, 'n', '\n', 't');
    lemma_replace_clears(a, 't', '\t', 'n');
    lemma_replace_without_match(b, 'n', '\n');
    lemma_replace_without_match(b, 't', '\t');
    lemma_replace_shape(s, 'n', '\n');
    lemma_replace_shape(a, 't', '\t');
    if no_escape(s, 'n') && no_escape(s, 't') {
        lemma_replace_without_match(s, 'n', '\n');
        lemma_replace_without_match(s, 't', '\t');
    }
    if !s.contains('\\') {
        assert forall|i: int| 0 <= i < s.len() - 1 implies !(#[trigger] s[i] == '\\' && s[i + 1]
            == 'n') by {
            if s[i] == '\\' {
                assert(s.contains('\\'));
            }
        }
        assert forall|i: int| 0 <= i < s.len() - 1 implies !(#[trigger] s[i] == '\\' && s[i + 1]
            == 't') by {
            if s[i] == '\\' {
                assert(s.contains('\\'));
            }
        }
        lemma_replace_without_match(s, 'n', '\n');
        lemma_replace_without_match(s, 't', '\t');
    }
}

/// Lowercasing an ASCII text gives an ASCII text that lowercasing leaves as
/// it is; so registry keys made from ASCII names are their own lowercase form.
pub proof fn law_lowercase_idempotent_on_ascii(s: Seq<char>)
    requires
        is_ascii_text(s),
    ensures
        is_ascii_text(lowercase(s)),
        lowercase(lowercase(s)) == lowercase(s),
{
    let l = ascii_lowercase(s);
    assert forall|i: int| 0 <= i < l.len() implies (#[trigger] l[i] as u32) < 128 && !('A' <= l[i]
        && l[i] <= 'Z') by {
        let c = s[i];
        if 'A' <= c && c <= 'Z' {
            assert(l[i] == ((c as u32) + 32) as char);
            assert(97 <= (c as u32) + 32 <= 122);
        }
    }
    assert(ascii_lowercase(l) =~= l);
}

/// A text rendered to UTF-8 bytes is valid UTF-8 and decodes back to itself,
/// so a response whose bytes encode a text carries that text through the
/// transport's lossy decoding unchanged.
pub proof fn law_utf8_text_roundtrips(text: Seq<char>)
    ensures
        vstd::utf8::valid_utf8(vstd::utf8::encode_utf8(text)),
        vstd::utf8::decode_utf8(vstd::utf8::encode_utf8(text)) == text,
{
    vstd::utf8::encode_utf8_valid_utf8(text);
    vstd::utf8::encode_utf8_decode_utf8(text);
}

/// Registering metadata adds one entry to what `all` lists, unless an entry
/// under the same lowercased id is replaced; lookups of every id that
/// lowercases to the same key find the new metadata, others are unchanged.
pub proof fn law_capability_register_counts(
    before: Map<Seq<char>, ProviderMetadata>,
    metadata: ProviderMetadata,
    id: Seq<char>,
)
    requires
        before.dom().finite(),
    ensures
        before.insert(lowercase(metadata.provider_id@), metadata).dom().len() == before.dom().len()
            + (if before.contains_key(lowercase(metadata.provider_id@)) {
            0int
        } else {
            1int
        }),
        lowercase(id) == lowercase(metadata.provider_id@) ==> before.insert(
            lowercase(metadata.provider_id@),
            metadata,
        )[lowercase(id)] == metadata,
        lowercase(id) != lowercase(metadata.provider_id@) ==> before.insert(
            lowercase(metadata.provider_id@),
            metadata,
        ).contains_key(lowercase(id)) == before.contains_key(lowercase(id)),
{
    let k = lowercase(metadata.provider_id@);
    if before.contains_key(k) {
        assert(before.insert(k, metadata).dom() =~= before.dom());
    } else {
        assert(before.insert(k, metadata).dom() =~= before.dom().insert(k));
    }
}

/// Every failure, in whatever state the circuit is, becomes its latest
/// failure: the reset timeout is measured from it, so a circuit the failure
/// leaves open refuses every request until the timeout has passed since that
/// failure, and lets the trial through once it has.
pub proof fn law_failure_restarts_reset_timeout(c: ProviderCircuit, now: u64, later: u64)
    ensures
        failure_step(c, now).last_failure_time == Some(now),
        failure_step(c, now).state == CircuitState::Open && elapsed_secs(now, later)
            < c.reset_timeout_secs ==> !allow_step(failure_step(c, now), later).1,
        failure_step(c, now).state == CircuitState::Open && elapsed_secs(now, later)
            >= c.reset_timeout_secs ==> allow_step(failure_step(c, now), later).1,
        failure_step(c, now).reset_timeout_secs == c.reset_timeout_secs,
{
}

/// With authentication on, a presented key is allowed exactly when some
/// configured entry, at any position, has that key; a missing key is never
/// allowed. With authentication off every request is allowed.
pub proof fn law_auth_allows_exactly_configured_keys(config: AuthConfig, key: Seq<char>)
    ensures
        config.enabled ==> (auth_decision(config, Some(key)) == AuthDecision::Allow <==> exists|i: int|
            0 <= i < config.api_keys@.len() && #[trigger] config.api_keys@[i].key@ == key),
        config.enabled ==> auth_decision(config, Some(key)) != AuthDecision::MissingKey,
        config.enabled ==> auth_decision(config, None) == AuthDecision::MissingKey,
        !config.enabled ==> auth_decision(config, Some(key)) == AuthDecision::Allow,
        !config.enabled ==> auth_decision(config, None) == AuthDecision::Allow,
{
}

/// A switch variable set to `true` or `false` sets its setting to that
/// value whatever it was before; any other text leaves it unchanged.
pub proof fn law_switch_override_is_the_value(v: String, old: bool)
    ensures
        v@ == "false"@ ==> bool_setting(Some(v), old) == false,
        v@ == "true"@ ==> bool_setting(Some(v), old) == true,
        v@ != "true"@ && v@ != "false"@ ==> bool_setting(Some(v), old) == old,
        bool_setting(Some(v), true) == bool_setting(Some(v), false) || v@ != "true"@ && v@
            != "false"@,
{
    reveal_strlit("true");
    reveal_strlit("false");
    assert("true"@.len() != "false"@.len());
}

/// Ditaa is asked for SVG with the `--svg` flag before the input and output
/// paths and writes `diagram.svg`; for PNG it gets only the two paths and
/// writes `diagram.png`. The input file holds the source.
pub proof fn law_ditaa_svg_flag(binary: Seq<char>, default_ms: u64, req: RequestView)
    requires
        !blank(req.source),
    ensures
        req.output_format == OutputFormat::Svg ==> (ditaa_start(binary, default_ms, req) matches Ok(
            StepView::Run { stage, invocation },
        ) && stage == 0 && invocation.program == binary && invocation.args.len() == 3
            && invocation.args[0] == ArgView::Text("--svg"@) && invocation.args[1]
            == ArgView::InputPath && invocation.args[2] == ArgView::OutputPath
            && invocation.output_file == Some("diagram.svg"@) && invocation.input_file == Some(
            ("diagram.ditaa"@, vstd::utf8::encode_utf8(req.source)),
        )),
        req.output_format == OutputFormat::Png ==> (ditaa_start(binary, default_ms, req) matches Ok(
            StepView::Run { stage, invocation },
        ) && stage == 0 && invocation.args == seq![ArgView::InputPath, ArgView::OutputPath]
            && invocation.output_file == Some("diagram.png"@)),
{
}

/// A client the limiter has not seen gets a full bucket of `burst_size`
/// tokens refilled at `requests_per_second` (at least 1): at one instant it
/// is admitted exactly `burst_size` times and refused on the next request.
pub proof fn law_new_client_gets_its_burst(
    table: Map<ClientAddr, TokenBucket>,
    config: RateLimitConfig,
    client: ClientAddr,
    now: u64,
    k: nat,
)
    requires
        !table.contains_key(client),
        k <= config.burst_size,
    ensures
        bucket_or_fresh(table, config, client, now).max_tokens == config.burst_size * TOKEN,
        bucket_or_fresh(table, config, client, now).tokens == config.burst_size * TOKEN,
        bucket_or_fresh(table, config, client, now).refill_rate == (if config.requests_per_second
            >= 1 {
            config.requests_per_second as u64
        } else {
            1
        }),
        k < config.burst_size ==> consume_step(
            after_requests(bucket_or_fresh(table, config, client, now), k, now),
            now,
        ).1,
        k == config.burst_size ==> !consume_step(
            after_requests(bucket_or_fresh(table, config, client, now), k, now),
            now,
        ).1,
{
    law_burst_then_refuse(config.burst_size, config.requests_per_second, now, k);
}

} // verus!
