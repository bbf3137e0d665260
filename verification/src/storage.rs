//! Object-storage settings and the storage-side rules that do not need a
//! connection: which presigned headers a browser may send, how deletions are
//! batched, how failures are summarised, and how readiness is polled.

use vstd::prelude::*;
use vstd::string::*;
use crate::config_error::{ConfigError, ConfigErrorView};
use crate::text::{
    ascii_lowercase, chars_have_prefix, chars_of, decimal, has_prefix, is_blank, is_blank_str,
    lowercase_ascii_chars,
};

verus! {

#[derive(Clone)]
pub struct StorageConfig {
    pub endpoint_url: String,
    pub public_endpoint_url: Option<String>,
    pub access_key: String,
    pub secret_key: String,
    pub bucket_name: String,
    pub region: String,
    pub force_path_style: bool,
    pub presigned_url_ttl_seconds: u64,
}

impl StorageConfig {
    pub const MAX_PRESIGNED_URL_TTL_SECONDS: u64 = 604_800;

    pub fn default_region() -> (r: String)
        ensures
            r@ == "us-east-1"@,
    {
        String::from_str("us-east-1")
    }

    pub fn default_force_path_style() -> (r: bool)
        ensures
            r,
    {
        true
    }

    pub fn default_presigned_url_ttl_seconds() -> (r: u64)
        ensures
            r == 604_800,
    {
        604_800
    }

    /// The first rule the settings break: a configured public endpoint must not
    /// be blank, and the presigned-URL lifetime must lie in `1..=604800`.
    pub open spec fn rejection(self) -> Option<ConfigErrorView> {
        if self.public_endpoint_url is Some && is_blank(self.public_endpoint_url->0@) {
            Some(ConfigErrorView::EmptyWhenConfigured { field: "storage.public_endpoint_url"@ })
        } else if !(1 <= self.presigned_url_ttl_seconds <= Self::MAX_PRESIGNED_URL_TTL_SECONDS) {
            Some(
                ConfigErrorView::OutsideRange {
                    field: "s3_presigned_url_ttl_seconds"@,
                    lowest: 1,
                    highest: Self::MAX_PRESIGNED_URL_TTL_SECONDS as nat,
                },
            )
        } else {
            None
        }
    }

    pub fn validate(&self) -> (r: Result<(), ConfigError>)
        ensures
            r is Ok <==> self.rejection() is None,
            r matches Err(e) ==> Some(e@) == self.rejection(),
    {
        if let Some(public_endpoint_url) = &self.public_endpoint_url {
            if is_blank_str(public_endpoint_url.as_str()) {
                return Err(
                    ConfigError::EmptyWhenConfigured {
                        field: String::from_str("storage.public_endpoint_url"),
                    },
                );
            }
        }
        if !(1 <= self.presigned_url_ttl_seconds && self.presigned_url_ttl_seconds
            <= Self::MAX_PRESIGNED_URL_TTL_SECONDS) {
            return Err(
                ConfigError::OutsideRange {
                    field: String::from_str("s3_presigned_url_ttl_seconds"),
                    lowest: 1,
                    highest: Self::MAX_PRESIGNED_URL_TTL_SECONDS,
                },
            );
        }
        Ok(())
    }
}

#[derive(Clone, Debug, PartialEq, Eq)]
pub struct PresignedHeader {
    pub name: String,
    pub value: String,
}

#[derive(Clone, Debug, PartialEq, Eq)]
pub struct PresignedUploadPart {
    pub url: String,
    pub method: String,
    pub headers: Vec<PresignedHeader>,
    pub expected_content_length: i64,
}

#[derive(Clone, Debug, PartialEq, Eq)]
pub struct CompletedUploadPart {
    pub part_number: i32,
    pub e_tag: String,
}

#[derive(Clone, Debug, PartialEq, Eq)]
pub struct StoredObjectMetadata {
    pub content_length: i64,
    pub content_type: String,
}

#[derive(Clone, Copy, Debug, PartialEq, Eq, Structural)]
pub enum MultipartUploadCompleteOutcome {
    Completed,
    UploadNotFound,
}

#[derive(Clone, Copy, Debug, PartialEq, Eq, Structural)]
pub enum MultipartUploadAbortOutcome {
    Aborted,
    UploadNotFound,
}

/// Request headers that browsers refuse to let scripts set (the Fetch
/// standard's forbidden request-header names), lower-cased.
pub open spec fn forbidden_header_names() -> Seq<Seq<char>> {
    seq![
        "accept-charset"@,
        "accept-encoding"@,
        "access-control-request-headers"@,
        "access-control-request-method"@,
        "connection"@,
        "content-length"@,
        "cookie"@,
        "date"@,
        "dnt"@,
        "expect"@,
        "host"@,
        "keep-alive"@,
        "origin"@,
        "permissions-policy"@,
        "referer"@,
        "te"@,
        "trailer"@,
        "transfer-encoding"@,
        "upgrade"@,
        "user-agent"@,
        "via"@,
    ]
}

/// A browser script may send a header of this name: after ASCII lower-casing
/// it neither starts with `proxy-` or `sec-` nor is a forbidden name.
pub open spec fn browser_settable(name: Seq<char>) -> bool {
    let lower = ascii_lowercase(name);
    !has_prefix(lower, "proxy-"@) && !has_prefix(lower, "sec-"@)
        && !forbidden_header_names().contains(lower)
}

/// A browser script may never set one of the Fetch standard's forbidden
/// request-header names, whatever the ASCII case in which it is written.
pub proof fn law_forbidden_header_names_are_refused(name: Seq<char>, lower: Seq<char>)
    requires
        lower == ascii_lowercase(name),
        lower == "accept-charset"@
            || lower == "accept-encoding"@
            || lower == "access-control-request-headers"@
            || lower == "access-control-request-method"@
            || lower == "connection"@
            || lower == "content-length"@
            || lower == "cookie"@
            || lower == "date"@
            || lower == "dnt"@
            || lower == "expect"@
            || lower == "host"@
            || lower == "keep-alive"@
            || lower == "origin"@
            || lower == "permissions-policy"@
            || lower == "referer"@
            || lower == "te"@
            || lower == "trailer"@
            || lower == "transfer-encoding"@
            || lower == "upgrade"@
            || lower == "user-agent"@
            || lower == "via"@,
    ensures
        !browser_settable(name),
{
    assert(forbidden_header_names()[0] == "accept-charset"@);
    assert(forbidden_header_names()[1] == "accept-encoding"@);
    assert(forbidden_header_names()[2] == "access-control-request-headers"@);
    assert(forbidden_header_names()[3] == "access-control-request-method"@);
    assert(forbidden_header_names()[4] == "connection"@);
    assert(forbidden_header_names()[5] == "content-length"@);
    assert(forbidden_header_names()[6] == "cookie"@);
    assert(forbidden_header_names()[7] == "date"@);
    assert(forbidden_header_names()[8] == "dnt"@);
    assert(forbidden_header_names()[9] == "expect"@);
    assert(forbidden_header_names()[10] == "host"@);
    assert(forbidden_header_names()[11] == "keep-alive"@);
    assert(forbidden_header_names()[12] == "origin"@);
    assert(forbidden_header_names()[13] == "permissions-policy"@);
    assert(forbidden_header_names()[14] == "referer"@);
    assert(forbidden_header_names()[15] == "te"@);
    assert(forbidden_header_names()[16] == "trailer"@);
    assert(forbidden_header_names()[17] == "transfer-encoding"@);
    assert(forbidden_header_names()[18] == "upgrade"@);
    assert(forbidden_header_names()[19] == "user-agent"@);
    assert(forbidden_header_names()[20] == "via"@);
}

/// Exactly these headers are closed to browser scripts: a name is settable
/// if and only if, after ASCII lower-casing, it starts with neither `proxy-`
/// nor `sec-` and is none of the Fetch standard's forbidden request-header
/// names listed here.
pub proof fn law_settable_headers_are_exactly_the_unforbidden(name: Seq<char>, lower: Seq<char>)
    requires
        lower == ascii_lowercase(name),
    ensures
        browser_settable(name) <==> !has_prefix(lower, "proxy-"@) && !has_prefix(lower, "sec-"@)
            && !(lower == "accept-charset"@
            || lower == "accept-encoding"@
            || lower == "access-control-request-headers"@
            || lower == "access-control-request-method"@
            || lower == "connection"@
            || lower == "content-length"@
            || lower == "cookie"@
            || lower == "date"@
            || lower == "dnt"@
            || lower == "expect"@
            || lower == "host"@
            || lower == "keep-alive"@
            || lower == "origin"@
            || lower == "permissions-policy"@
            || lower == "referer"@
            || lower == "te"@
            || lower == "trailer"@
            || lower == "transfer-encoding"@
            || lower == "upgrade"@
            || lower == "user-agent"@
            || lower == "via"@),
{
    assert(forbidden_header_names()[0] == "accept-charset"@);
    assert(forbidden_header_names()[1] == "accept-encoding"@);
    assert(forbidden_header_names()[2] == "access-control-request-headers"@);
    assert(forbidden_header_names()[3] == "access-control-request-method"@);
    assert(forbidden_header_names()[4] == "connection"@);
    assert(forbidden_header_names()[5] == "content-length"@);
    assert(forbidden_header_names()[6] == "cookie"@);
    assert(forbidden_header_names()[7] == "date"@);
    assert(forbidden_header_names()[8] == "dnt"@);
    assert(forbidden_header_names()[9] == "expect"@);
    assert(forbidden_header_names()[10] == "host"@);
    assert(forbidden_header_names()[11] == "keep-alive"@);
    assert(forbidden_header_names()[12] == "origin"@);
    assert(forbidden_header_names()[13] == "permissions-policy"@);
    assert(forbidden_header_names()[14] == "referer"@);
    assert(forbidden_header_names()[15] == "te"@);
    assert(forbidden_header_names()[16] == "trailer"@);
    assert(forbidden_header_names()[17] == "transfer-encoding"@);
    assert(forbidden_header_names()[18] == "upgrade"@);
    assert(forbidden_header_names()[19] == "user-agent"@);
    assert(forbidden_header_names()[20] == "via"@);
    assert(forbidden_header_names().len() == 21);
    if forbidden_header_names().contains(lower) {
        let k = choose|k: int|
            0 <= k < forbidden_header_names().len() && forbidden_header_names()[k] == lower;
        assert((lower == "accept-charset"@
            || lower == "accept-encoding"@
            || lower == "access-control-request-headers"@
            || lower == "access-control-request-method"@
            || lower == "connection"@
            || lower == "content-length"@
            || lower == "cookie"@
            || lower == "date"@
            || lower == "dnt"@
            || lower == "expect"@
            || lower == "host"@
            || lower == "keep-alive"@
            || lower == "origin"@
            || lower == "permissions-policy"@
            || lower == "referer"@
            || lower == "te"@
            || lower == "trailer"@
            || lower == "transfer-encoding"@
            || lower == "upgrade"@
            || lower == "user-agent"@
            || lower == "via"@));
    }
}

/// Nor may it set any header whose lower-cased name starts with `proxy-` or
/// `sec-`.
pub proof fn law_proxy_and_sec_headers_are_refused(name: Seq<char>)
    requires
        has_prefix(ascii_lowercase(name), "proxy-"@) || has_prefix(ascii_lowercase(name), "sec-"@),
    ensures
        !browser_settable(name),
{
}

fn chars_equal_str(a: &Vec<char>, b: &str) -> (r: bool)
    ensures
        r == (a@ == b@),
{
    let bc = chars_of(b);
    if a.len() != bc.len() {
        return false;
    }
    let mut i: usize = 0;
    while i < a.len()
        invariant
            i <= a.len() == bc.len(),
            bc@ == b@,
            forall|j: int| 0 <= j < i ==> a@[j] == bc@[j],
        decreases a.len() - i,
    {
        if a[i] != bc[i] {
            return false;
        }
        i = i + 1;
    }
    assert(a@ =~= bc@);
    true
}

fn forbidden_header_list() -> (v: Vec<&'static str>)
    ensures
        v@.len() == forbidden_header_names().len(),
        forall|i: int| 0 <= i < v@.len() ==> #[trigger] v@[i]@ == forbidden_header_names()[i],
{
    let v = vec![
        "accept-charset",
        "accept-encoding",
        "access-control-request-headers",
        "access-control-request-method",
        "connection",
        "content-length",
        "cookie",
        "date",
        "dnt",
        "expect",
        "host",
        "keep-alive",
        "origin",
        "permissions-policy",
        "referer",
        "te",
        "trailer",
        "transfer-encoding",
        "upgrade",
        "user-agent",
        "via",
    ];
    v
}

/// Whether a presigned-request header may be handed to a browser to send.
pub fn browser_can_set_header(name: &str) -> (r: bool)
    ensures
        r == browser_settable(name@),
{
    let lower = lowercase_ascii_chars(name);
    if chars_have_prefix(&lower, "proxy-") || chars_have_prefix(&lower, "sec-") {
        return false;
    }
    let forbidden = forbidden_header_list();
    let mut i: usize = 0;
    while i < forbidden.len()
        invariant
            i <= forbidden@.len() == forbidden_header_names().len(),
            lower@ == ascii_lowercase(name@),
            forall|k: int| 0 <= k < forbidden@.len() ==> #[trigger] forbidden@[k]@
                == forbidden_header_names()[k],
            forall|k: int| 0 <= k < i ==> forbidden_header_names()[k] != lower@,
        decreases forbidden.len() - i,
    {
        if chars_equal_str(&lower, forbidden[i]) {
            assert(forbidden_header_names()[i as int] == lower@);
            return false;
        }
        i = i + 1;
    }
    assert(!forbidden_header_names().contains(lower@)) by {
        if forbidden_header_names().contains(lower@) {
            let k = choose|k: int|
                0 <= k < forbidden_header_names().len() && forbidden_header_names()[k] == lower@;
            assert(forbidden_header_names()[k] != lower@);
        }
    }
    true
}

/// S3 accepts at most this many keys in one multi-object delete request.
pub const MAX_DELETE_OBJECTS_PER_REQUEST: usize = 1000;

/// The keys in consecutive batches of `size`, the last one possibly shorter.
pub open spec fn batches_of<T>(items: Seq<T>, size: nat) -> Seq<Seq<T>>
    decreases items.len(),
{
    if items.len() == 0 || size == 0 {
        seq![]
    } else if items.len() <= size {
        seq![items]
    } else {
        seq![items.take(size as int)] + batches_of(items.skip(size as int), size)
    }
}

pub open spec fn batch_views(batches: Seq<Vec<String>>) -> Seq<Seq<String>> {
    batches.map_values(|b: Vec<String>| b@)
}

/// Splits storage keys into the batches of at most
/// [`MAX_DELETE_OBJECTS_PER_REQUEST`] keys that S3 accepts, in order.
pub fn storage_key_delete_batches(storage_keys: &Vec<String>) -> (batches: Vec<Vec<String>>)
    ensures
        batch_views(batches@) == batches_of(storage_keys@, MAX_DELETE_OBJECTS_PER_REQUEST as nat),
{
    let ghost size = MAX_DELETE_OBJECTS_PER_REQUEST as nat;
    let mut batches: Vec<Vec<String>> = Vec::new();
    let mut start: usize = 0;
    let n = storage_keys.len();
    assert(storage_keys@.skip(0) =~= storage_keys@);
    assert(batch_views(batches@) =~= seq![]);
    while start < n
        invariant
            start <= n == storage_keys@.len(),
            size == MAX_DELETE_OBJECTS_PER_REQUEST as nat,
            batch_views(batches@) + batches_of(storage_keys@.skip(start as int), size)
                == batches_of(storage_keys@, size),
        decreases n - start,
    {
        let end = if n - start <= MAX_DELETE_OBJECTS_PER_REQUEST {
            n
        } else {
            start + MAX_DELETE_OBJECTS_PER_REQUEST
        };
        let mut batch: Vec<String> = Vec::new();
        let mut j: usize = start;
        while j < end
            invariant
                start <= j <= end <= n == storage_keys@.len(),
                batch@ == storage_keys@.subrange(start as int, j as int),
            decreases end - j,
        {
            batch.push(storage_keys[j].clone());
            j = j + 1;
            assert(storage_keys@.subrange(start as int, j as int) == storage_keys@.subrange(
                start as int,
                j - 1,
            ).push(storage_keys@[j - 1]));
        }
        let ghost rest = storage_keys@.skip(start as int);
        let ghost before = batch_views(batches@);
        proof {
            if rest.len() <= size {
                assert(batch@ =~= rest);
                assert(storage_keys@.skip(end as int) =~= seq![]);
                assert(batches_of(rest, size) == seq![batch@]);
            } else {
                assert(batch@ =~= rest.take(size as int));
                assert(rest.skip(size as int) =~= storage_keys@.skip(end as int));
                assert(batches_of(rest, size) == seq![batch@] + batches_of(
                    storage_keys@.skip(end as int),
                    size,
                ));
            }
        }
        batches.push(batch);
        proof {
            assert(batch_views(batches@) =~= before.push(batch@));
            assert(before + batches_of(rest, size) =~= before.push(batch@) + batches_of(
                storage_keys@.skip(end as int),
                size,
            ));
        }
        start = end;
    }
    assert(storage_keys@.skip(n as int) =~= seq![]);
    assert(batch_views(batches@) + batches_of(storage_keys@.skip(n as int), size) =~= batch_views(
        batches@,
    ));
    batches
}

/// Concatenation of batches, in order.
pub open spec fn flatten<T>(batches: Seq<Seq<T>>) -> Seq<T>
    decreases batches.len(),
{
    if batches.len() == 0 {
        seq![]
    } else {
        batches[0] + flatten(batches.drop_first())
    }
}

/// Splitting into delete batches loses, adds and reorders nothing, and every
/// batch holds between 1 and `size` keys.
pub proof fn law_delete_batches_partition_keys<T>(items: Seq<T>, size: nat)
    requires
        size > 0,
    ensures
        flatten(batches_of(items, size)) == items,
        forall|i: int|
            0 <= i < batches_of(items, size).len() ==> 0 < (#[trigger] batches_of(items, size)[i]).len()
                <= size,
    decreases items.len(),
{
    if items.len() == 0 {
    } else if items.len() <= size {
        let b = batches_of(items, size);
        assert(b.drop_first() =~= Seq::<Seq<T>>::empty());
        assert(flatten(b.drop_first()) == Seq::<T>::empty());
        assert(flatten(b) == b[0] + flatten(b.drop_first()));
        assert(flatten(b) =~= items);
    } else {
        let rest = items.skip(size as int);
        law_delete_batches_partition_keys(rest, size);
        let b = batches_of(items, size);
        assert(b.drop_first() =~= batches_of(rest, size));
        assert(flatten(b) =~= items.take(size as int) + rest);
        assert(items.take(size as int) + rest =~= items);
        assert forall|i: int| 0 <= i < b.len() implies 0 < (#[trigger] b[i]).len() <= size by {
            if i > 0 {
                assert(b[i] == batches_of(rest, size)[i - 1]);
            }
        }
    }
}

/// One key that a multi-object delete did not remove, as storage reported it.
pub struct DeleteObjectFailure {
    pub key: Option<String>,
    pub code: Option<String>,
    pub message: Option<String>,
}

pub open spec fn text_or(o: Option<String>, fallback: Seq<char>) -> Seq<char> {
    match o {
        Some(s) => s@,
        None => fallback,
    }
}

/// How one failure reads: `key: code`, then ` (message)` when there is one.
pub open spec fn failure_detail(f: DeleteObjectFailure) -> Seq<char> {
    text_or(f.key, "<unknown key>"@) + ": "@ + text_or(f.code, "unknown error"@) + match f.message {
        Some(m) => " ("@ + m@ + ")"@,
        None => seq![],
    }
}

/// The details of the first `count` failures, joined with `; `.
pub open spec fn joined_details(failures: Seq<DeleteObjectFailure>, count: nat) -> Seq<char>
    decreases count,
{
    if count == 0 {
        seq![]
    } else if count == 1 {
        failure_detail(failures[0])
    } else {
        joined_details(failures, (count - 1) as nat) + "; "@ + failure_detail(
            failures[count - 1],
        )
    }
}

/// At most this many failures are detailed in a summary.
pub const DETAILED_DELETE_FAILURES: usize = 3;

pub open spec fn delete_failures_message(failures: Seq<DeleteObjectFailure>) -> Seq<char> {
    let shown = if failures.len() < DETAILED_DELETE_FAILURES {
        failures.len()
    } else {
        DETAILED_DELETE_FAILURES as nat
    };
    "S3 reported "@ + decimal(failures.len()) + " failed object delete(s): "@ + joined_details(
        failures,
        shown,
    )
}

fn append_failure_detail(s: &mut String, f: &DeleteObjectFailure)
    ensures
        final(s)@ == old(s)@ + failure_detail(*f),
{
    let ghost start = s@;
    match &f.key {
        Some(k) => s.append(k.as_str()),
        None => s.append("<unknown key>"),
    }
    s.append(": ");
    match &f.code {
        Some(c) => s.append(c.as_str()),
        None => s.append("unknown error"),
    }
    match &f.message {
        Some(m) => {
            s.append(" (");
            s.append(m.as_str());
            s.append(")");
        },
        None => {},
    }
    assert(s@ =~= start + failure_detail(*f));
}

/// Summarises the keys a multi-object delete failed to remove: their count
/// and the details of the first three. `None` when nothing failed.
pub fn delete_failures_summary(failures: &Vec<DeleteObjectFailure>) -> (r: Option<String>)
    ensures
        failures@.len() == 0 ==> r is None,
        failures@.len() > 0 ==> (r matches Some(m) && m@ == delete_failures_message(failures@)),
{
    let n = failures.len();
    if n == 0 {
        return None;
    }
    let shown = if n < DETAILED_DELETE_FAILURES {
        n
    } else {
        DETAILED_DELETE_FAILURES
    };
    let mut details = String::new();
    let mut i: usize = 0;
    while i < shown
        invariant
            i <= shown <= n == failures@.len(),
            details@ == joined_details(failures@, i as nat),
        decreases shown - i,
    {
        if i > 0 {
            details.append("; ");
        }
        append_failure_detail(&mut details, &failures[i]);
        i = i + 1;
    }
    let mut message = String::from_str("S3 reported ");
    crate::text::append_unsigned(&mut message, n as u64);
    message.append(" failed object delete(s): ");
    message.append(details.as_str());
    Some(message)
}

/// How long the first readiness retry waits: 250 ms.
pub const READINESS_FIRST_DELAY_NANOS: u64 = 250_000_000;

/// The longest readiness retry wait: 5 s.
pub const READINESS_MAX_DELAY_NANOS: u64 = 5_000_000_000;

/// The wait after `failures` failed readiness probes: doubling from 250 ms,
/// capped at 5 s.
pub open spec fn backoff_delay(failures: nat) -> int
    decreases failures,
{
    if failures == 0 {
        READINESS_FIRST_DELAY_NANOS as int
    } else {
        let previous = backoff_delay((failures - 1) as nat);
        if 2 * previous < READINESS_MAX_DELAY_NANOS {
            2 * previous
        } else {
            READINESS_MAX_DELAY_NANOS as int
        }
    }
}

proof fn lemma_backoff_bounded(failures: nat)
    ensures
        0 < backoff_delay(failures) <= READINESS_MAX_DELAY_NANOS,
    decreases failures,
{
    if failures > 0 {
        lemma_backoff_bounded((failures - 1) as nat);
    }
}

/// The backoff in closed form: `min(250 ms * 2^n, 5 s)` after `n` failures.
pub proof fn law_backoff_doubles_up_to_cap(failures: nat)
    ensures
        backoff_delay(failures) == (if READINESS_FIRST_DELAY_NANOS * vstd::arithmetic::power2::pow2(
            failures,
        ) < READINESS_MAX_DELAY_NANOS {
            READINESS_FIRST_DELAY_NANOS * vstd::arithmetic::power2::pow2(failures)
        } else {
            READINESS_MAX_DELAY_NANOS as int
        }),
    decreases failures,
{
    if failures == 0 {
        vstd::arithmetic::power2::lemma2_to64();
    } else {
        law_backoff_doubles_up_to_cap((failures - 1) as nat);
        vstd::arithmetic::power2::lemma_pow2_unfold(failures);
    }
}

/// What a readiness wait does after a failed probe.
#[derive(Clone, Copy, Debug, PartialEq, Eq, Structural)]
pub enum ReadinessStep {
    /// Sleep this many nanoseconds, then probe again.
    Sleep(u64),
    /// The time is up: give up with the last probe's error.
    GiveUp,
}

/// Waiting for storage to become ready: probes are retried with a doubling
/// delay (250 ms, capped at 5 s), never sleeping past the timeout.
pub struct ReadinessWait {
    timeout_nanos: u64,
    retry_delay_nanos: u64,
    failures: Ghost<nat>,
}

impl ReadinessWait {
    pub closed spec fn timeout(&self) -> int {
        self.timeout_nanos as int
    }

    /// The number of failed probes so far.
    pub closed spec fn failures(&self) -> nat {
        self.failures@
    }

    pub closed spec fn well_formed(&self) -> bool {
        self.retry_delay_nanos == backoff_delay(self.failures@)
    }

    /// Starts waiting, for at most `timeout_nanos` nanoseconds.
    pub fn new(timeout_nanos: u64) -> (w: Self)
        ensures
            w.well_formed(),
            w.timeout() == timeout_nanos,
            w.failures() == 0,
    {
        ReadinessWait {
            timeout_nanos,
            retry_delay_nanos: READINESS_FIRST_DELAY_NANOS,
            failures: Ghost(0),
        }
    }

    /// Decides what follows a failed probe made `elapsed_nanos` after the
    /// wait began: give up once the timeout has passed, otherwise sleep for
    /// the current delay (but no longer than the time left) and double the
    /// delay, up to 5 s.
    pub fn after_failure(&mut self, elapsed_nanos: u64) -> (step: ReadinessStep)
        requires
            old(self).well_formed(),
        ensures
            final(self).well_formed(),
            final(self).timeout() == old(self).timeout(),
            elapsed_nanos >= old(self).timeout() ==> (step == ReadinessStep::GiveUp
                && final(self).failures() == old(self).failures()),
            elapsed_nanos < old(self).timeout() ==> ({
                &&& final(self).failures() == old(self).failures() + 1
                &&& step matches ReadinessStep::Sleep(d) && d == (if backoff_delay(
                    old(self).failures(),
                ) < old(self).timeout() - elapsed_nanos {
                    backoff_delay(old(self).failures())
                } else {
                    old(self).timeout() - elapsed_nanos
                })
            }),
    {
        if elapsed_nanos >= self.timeout_nanos {
            return ReadinessStep::GiveUp;
        }
        let remaining = self.timeout_nanos - elapsed_nanos;
        let sleep = if self.retry_delay_nanos < remaining {
            self.retry_delay_nanos
        } else {
            remaining
        };
        proof {
            lemma_backoff_bounded(self.failures@);
        }
        let doubled = self.retry_delay_nanos * 2;
        self.retry_delay_nanos = if doubled < READINESS_MAX_DELAY_NANOS {
            doubled
        } else {
            READINESS_MAX_DELAY_NANOS
        };
        self.failures = Ghost(self.failures@ + 1);
        ReadinessStep::Sleep(sleep)
    }
}

} // verus!
