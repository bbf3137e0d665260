//! Policy knobs for object uploads and storage maintenance, and the part
//! arithmetic of multipart uploads.

use vstd::prelude::*;
use vstd::string::*;
use crate::config_error::{ConfigError, ConfigErrorView};
use crate::outbox::OutboxRetryConfig;

verus! {

#[derive(Clone, Debug)]
pub struct ObjectLifecycleConfig {
    pub pending_upload_timeout_seconds: i64,
    pub upload_max_file_size_bytes: i64,
    pub upload_part_size_bytes: i64,
    pub upload_max_part_count: i32,
    pub upload_session_ttl_seconds: i64,
    pub upload_session_cleanup_retry_seconds: i64,
    pub upload_session_cleanup_lease_seconds: i64,
    pub upload_session_cleanup_max_attempts: i32,
    pub upload_session_cleanup_batch_size: i64,
    pub storage_deletion_retry_seconds: i64,
    pub storage_deletion_lease_seconds: i64,
    pub maintenance_interval_seconds: i64,
    pub storage_deletion_batch_size: i64,
    pub storage_deletion_max_attempts: i32,
}

/// Integer division rounding toward zero (Rust's `/`), for a non-negative
/// dividend.
pub open spec fn div_toward_zero(a: int, b: int) -> int {
    if b > 0 {
        a / b
    } else {
        -(a / (-b))
    }
}

/// Number of equal parts (the last possibly shorter) needed to cover
/// `file_size` bytes at `part_size` bytes per part.
pub open spec fn part_count_of(file_size: int, part_size: int) -> int {
    div_toward_zero(file_size - 1, part_size) + 1
}

/// Byte length of the 1-based part `part_number` of a `file_size`-byte upload
/// split at `part_size` (the final part is whatever remains).
pub open spec fn part_length_of(file_size: int, part_size: int, part_number: int) -> int {
    let start = (part_number - 1) * part_size;
    if part_size <= file_size - start {
        part_size
    } else {
        file_size - start
    }
}

fn div_rounding_toward_zero(a: i64, b: i64) -> (q: i64)
    requires
        a >= 0,
        b != 0,
    ensures
        q == div_toward_zero(a as int, b as int),
{
    if b > 0 {
        a / b
    } else if b == i64::MIN {
        0
    } else {
        -(a / (-b))
    }
}

/// Number of parts needed to cover `file_size_bytes` at `part_size_bytes`.
///
/// Callers layer their own cap on top: the configuration enforces the
/// operator's `upload_max_part_count` when a session is created, and the
/// session path enforces the fixed S3 limit when it completes.
pub(crate) fn part_count(file_size_bytes: i64, part_size_bytes: i64) -> (count: i64)
    requires
        file_size_bytes > 0,
        part_size_bytes != 0,
    ensures
        count == part_count_of(file_size_bytes as int, part_size_bytes as int),
{
    div_rounding_toward_zero(file_size_bytes - 1, part_size_bytes) + 1
}

proof fn lemma_part_start_within_file(file_size: int, part_size: int, part_number: int)
    requires
        file_size > 0,
        part_size > 0,
        1 <= part_number <= part_count_of(file_size, part_size),
    ensures
        0 <= (part_number - 1) * part_size <= file_size - 1,
{
    let q = (file_size - 1) / part_size;
    assert(q * part_size <= file_size - 1) by (nonlinear_arith)
        requires
            q == (file_size - 1) / part_size,
            file_size - 1 >= 0,
            part_size > 0,
    ;
    assert(0 <= (part_number - 1) * part_size <= q * part_size) by (nonlinear_arith)
        requires
            0 <= part_number - 1 <= q,
            part_size > 0,
    ;
}

/// The bytes covered by parts `1..=n`.
pub open spec fn parts_total(file_size: int, part_size: int, n: nat) -> int
    decreases n,
{
    if n == 0 {
        0
    } else {
        parts_total(file_size, part_size, (n - 1) as nat) + part_length_of(file_size, part_size, n as int)
    }
}

proof fn lemma_full_parts(file_size: int, part_size: int, n: nat)
    requires
        file_size > 0,
        part_size > 0,
        n * part_size <= file_size,
    ensures
        parts_total(file_size, part_size, n) == n * part_size,
        forall|k: int| 1 <= k <= n ==> #[trigger] part_length_of(file_size, part_size, k) == part_size,
    decreases n,
{
    if n > 0 {
        assert((n - 1) * part_size + part_size == n * part_size) by (nonlinear_arith);
        assert((n - 1) * part_size <= n * part_size) by (nonlinear_arith)
            requires
                part_size > 0,
        ;
        lemma_full_parts(file_size, part_size, (n - 1) as nat);
        assert(part_length_of(file_size, part_size, n as int) == part_size);
    } else {
        assert(n * part_size == 0) by (nonlinear_arith)
            requires
                n == 0,
        ;
    }
}

/// Each retry policy is made of its own knobs, field for field: the
/// storage-deletion policy of the `storage_deletion_*` settings and the
/// session-cleanup policy of the `upload_session_cleanup_*` settings, so that
/// no retry delay is taken for a lease or one outbox's setting for the other.
pub proof fn law_retry_policies_use_their_own_settings(config: ObjectLifecycleConfig)
    ensures
        config.spec_storage_deletion().retry_seconds == config.storage_deletion_retry_seconds,
        config.spec_storage_deletion().lease_seconds == config.storage_deletion_lease_seconds,
        config.spec_storage_deletion().batch_size == config.storage_deletion_batch_size,
        config.spec_storage_deletion().max_attempts == config.storage_deletion_max_attempts,
        config.spec_upload_session_cleanup().retry_seconds
            == config.upload_session_cleanup_retry_seconds,
        config.spec_upload_session_cleanup().lease_seconds
            == config.upload_session_cleanup_lease_seconds,
        config.spec_upload_session_cleanup().batch_size
            == config.upload_session_cleanup_batch_size,
        config.spec_upload_session_cleanup().max_attempts
            == config.upload_session_cleanup_max_attempts,
{
}

/// The parts of an upload tile the file: every part but the last has the
/// full part size, the last is non-empty and no longer, and together they
/// cover exactly the file's bytes.
pub proof fn law_parts_cover_the_file(file_size: int, part_size: int)
    requires
        file_size > 0,
        part_size > 0,
    ensures
        part_count_of(file_size, part_size) >= 1,
        forall|k: int|
            1 <= k < part_count_of(file_size, part_size) ==> #[trigger] part_length_of(
                file_size,
                part_size,
                k,
            ) == part_size,
        0 < part_length_of(file_size, part_size, part_count_of(file_size, part_size)) <= part_size,
        parts_total(file_size, part_size, part_count_of(file_size, part_size) as nat) == file_size,
{
    let q = (file_size - 1) / part_size;
    assert(q >= 0 && q * part_size <= file_size - 1 && file_size - 1 < (q + 1) * part_size)
        by (nonlinear_arith)
        requires
            q == (file_size - 1) / part_size,
            file_size - 1 >= 0,
            part_size > 0,
    ;
    assert(part_count_of(file_size, part_size) == q + 1);
    assert((q + 1) * part_size == q * part_size + part_size) by (nonlinear_arith);
    lemma_full_parts(file_size, part_size, q as nat);
    assert(parts_total(file_size, part_size, (q + 1) as nat) == parts_total(
        file_size,
        part_size,
        q as nat,
    ) + part_length_of(file_size, part_size, q + 1));
}

/// Byte length of the 1-based `part_number` of a `file_size_bytes` upload.
pub(crate) fn part_length(file_size_bytes: i64, part_size_bytes: i64, part_number: i32) -> (len: i64)
    requires
        file_size_bytes > 0,
        part_size_bytes != 0,
        1 <= part_number <= part_count_of(file_size_bytes as int, part_size_bytes as int),
    ensures
        len == part_length_of(file_size_bytes as int, part_size_bytes as int, part_number as int),
{
    let preceding: i64 = (part_number - 1) as i64;
    proof {
        if part_size_bytes > 0 {
            lemma_part_start_within_file(
                file_size_bytes as int,
                part_size_bytes as int,
                part_number as int,
            );
            assert(0 <= preceding * part_size_bytes <= file_size_bytes - 1);
        } else {
            assert(div_toward_zero(file_size_bytes - 1, part_size_bytes as int) <= 0);
            assert(preceding == 0);
            assert(preceding * part_size_bytes == 0);
        }
    }
    let part_start = preceding * part_size_bytes;
    let remaining = file_size_bytes - part_start;
    if part_size_bytes <= remaining {
        part_size_bytes
    } else {
        remaining
    }
}

impl ObjectLifecycleConfig {
    pub const S3_MAX_MULTIPART_PART_COUNT: i32 = 10_000;

    pub const S3_MAX_OBJECT_SIZE_BYTES: i64 = 5 * 1024 * 1024 * 1024 * 1024;

    pub const S3_MIN_MULTIPART_PART_SIZE_BYTES: i64 = 5 * 1024 * 1024;

    pub fn default_pending_upload_timeout_seconds() -> (r: i64)
        ensures
            r == 3600,
    {
        3600
    }

    pub fn default_upload_max_file_size_bytes() -> (r: i64)
        ensures
            r == 1024 * 1024 * 1024,
    {
        1024 * 1024 * 1024
    }

    pub fn default_upload_part_size_bytes() -> (r: i64)
        ensures
            r == 8 * 1024 * 1024,
    {
        8 * 1024 * 1024
    }

    pub fn default_upload_max_part_count() -> (r: i32)
        ensures
            r == Self::S3_MAX_MULTIPART_PART_COUNT,
    {
        Self::S3_MAX_MULTIPART_PART_COUNT
    }

    pub fn default_upload_session_ttl_seconds() -> (r: i64)
        ensures
            r == 3600,
    {
        3600
    }

    pub fn default_upload_session_cleanup_retry_seconds() -> (r: i64)
        ensures
            r == 60,
    {
        60
    }

    pub fn default_upload_session_cleanup_lease_seconds() -> (r: i64)
        ensures
            r == 300,
    {
        300
    }

    pub fn default_upload_session_cleanup_max_attempts() -> (r: i32)
        ensures
            r == 10,
    {
        10
    }

    pub fn default_upload_session_cleanup_batch_size() -> (r: i64)
        ensures
            r == 1000,
    {
        1000
    }

    pub fn default_storage_deletion_retry_seconds() -> (r: i64)
        ensures
            r == 60,
    {
        60
    }

    pub fn default_storage_deletion_lease_seconds() -> (r: i64)
        ensures
            r == 300,
    {
        300
    }

    pub fn default_maintenance_interval_seconds() -> (r: i64)
        ensures
            r == 30,
    {
        30
    }

    /// Default claim size. The storage layer chunks deletions to S3's
    /// per-request limit itself, so any positive value works; 1000 matches that
    /// limit, so a typical claim fires exactly one storage request.
    pub fn default_storage_deletion_batch_size() -> (r: i64)
        ensures
            r == 1000,
    {
        1000
    }

    pub fn default_storage_deletion_max_attempts() -> (r: i32)
        ensures
            r == 10,
    {
        10
    }

    /// The configuration every field of which has its default.
    pub open spec fn spec_default() -> ObjectLifecycleConfig {
        ObjectLifecycleConfig {
            pending_upload_timeout_seconds: 3600,
            upload_max_file_size_bytes: 1073741824,
            upload_part_size_bytes: 8388608,
            upload_max_part_count: 10_000,
            upload_session_ttl_seconds: 3600,
            upload_session_cleanup_retry_seconds: 60,
            upload_session_cleanup_lease_seconds: 300,
            upload_session_cleanup_max_attempts: 10,
            upload_session_cleanup_batch_size: 1000,
            storage_deletion_retry_seconds: 60,
            storage_deletion_lease_seconds: 300,
            maintenance_interval_seconds: 30,
            storage_deletion_batch_size: 1000,
            storage_deletion_max_attempts: 10,
        }
    }

    /// Lease/retry policy for the storage-deletion outbox.
    pub open spec fn spec_storage_deletion(self) -> OutboxRetryConfig {
        OutboxRetryConfig {
            retry_seconds: self.storage_deletion_retry_seconds,
            lease_seconds: self.storage_deletion_lease_seconds,
            batch_size: self.storage_deletion_batch_size,
            max_attempts: self.storage_deletion_max_attempts,
        }
    }

    /// Lease/retry policy for the expired-upload-session cleanup.
    pub open spec fn spec_upload_session_cleanup(self) -> OutboxRetryConfig {
        OutboxRetryConfig {
            retry_seconds: self.upload_session_cleanup_retry_seconds,
            lease_seconds: self.upload_session_cleanup_lease_seconds,
            batch_size: self.upload_session_cleanup_batch_size,
            max_attempts: self.upload_session_cleanup_max_attempts,
        }
    }

    /// Number of parts of an upload of `file_size` bytes, or why that size is
    /// refused.
    pub open spec fn total_parts_for(self, file_size: int) -> Result<int, ConfigErrorView> {
        if file_size <= 0 {
            Err(ConfigErrorView::NotPositive { field: "file_size_bytes"@ })
        } else if file_size > self.upload_max_file_size_bytes {
            Err(
                ConfigErrorView::AboveMaximum {
                    field: "file_size_bytes"@,
                    max: self.upload_max_file_size_bytes as int,
                },
            )
        } else {
            let count = part_count_of(file_size, self.upload_part_size_bytes as int);
            if count > self.upload_max_part_count {
                Err(
                    ConfigErrorView::TooManyParts {
                        required: count,
                        limit: self.upload_max_part_count as int,
                    },
                )
            } else if count < i32::MIN {
                Err(ConfigErrorView::PartCountOverflow)
            } else {
                Ok(count)
            }
        }
    }

    /// Expected byte length of `part_number` of an upload of `file_size`
    /// bytes, or why it is refused.
    pub open spec fn part_size_for(self, file_size: int, part_number: int) -> Result<
        int,
        ConfigErrorView,
    > {
        match self.total_parts_for(file_size) {
            Err(e) => Err(e),
            Ok(total) => if 1 <= part_number <= total {
                Ok(part_length_of(file_size, self.upload_part_size_bytes as int, part_number))
            } else {
                Err(ConfigErrorView::PartNumberOutOfRange { total_parts: total })
            },
        }
    }

    /// The first rule the configuration breaks, in the order they are checked.
    pub open spec fn rejection(self) -> Option<ConfigErrorView> {
        if self.pending_upload_timeout_seconds <= 0 {
            Some(ConfigErrorView::NotPositive { field: "pending_upload_timeout_seconds"@ })
        } else if self.upload_max_file_size_bytes <= 0 {
            Some(ConfigErrorView::NotPositive { field: "upload_max_file_size_bytes"@ })
        } else if self.upload_max_file_size_bytes > Self::S3_MAX_OBJECT_SIZE_BYTES {
            Some(
                ConfigErrorView::AboveMaximum {
                    field: "upload_max_file_size_bytes"@,
                    max: Self::S3_MAX_OBJECT_SIZE_BYTES as int,
                },
            )
        } else if self.upload_part_size_bytes < Self::S3_MIN_MULTIPART_PART_SIZE_BYTES {
            Some(
                ConfigErrorView::BelowMinimum {
                    field: "upload_part_size_bytes"@,
                    min: Self::S3_MIN_MULTIPART_PART_SIZE_BYTES as int,
                },
            )
        } else if self.upload_max_part_count <= 0 {
            Some(ConfigErrorView::NotPositive { field: "upload_max_part_count"@ })
        } else if self.upload_max_part_count > Self::S3_MAX_MULTIPART_PART_COUNT {
            Some(
                ConfigErrorView::AboveMaximum {
                    field: "upload_max_part_count"@,
                    max: Self::S3_MAX_MULTIPART_PART_COUNT as int,
                },
            )
        } else if self.upload_session_ttl_seconds <= 0 {
            Some(ConfigErrorView::NotPositive { field: "upload_session_ttl_seconds"@ })
        } else if self.spec_upload_session_cleanup().rejection("upload_session_cleanup"@) is Some {
            self.spec_upload_session_cleanup().rejection("upload_session_cleanup"@)
        } else if self.total_parts_for(self.upload_max_file_size_bytes as int) is Err {
            Some(self.total_parts_for(self.upload_max_file_size_bytes as int)->Err_0)
        } else if self.maintenance_interval_seconds <= 0 {
            Some(ConfigErrorView::NotPositive { field: "maintenance_interval_seconds"@ })
        } else {
            self.spec_storage_deletion().rejection("storage_deletion"@)
        }
    }

    /// The configuration is accepted by `validate`.
    pub open spec fn is_valid(self) -> bool {
        self.rejection() is None
    }

    pub fn validate(&self) -> (r: Result<(), ConfigError>)
        ensures
            r is Ok <==> self.is_valid(),
            r matches Err(e) ==> Some(e@) == self.rejection(),
    {
        if self.pending_upload_timeout_seconds <= 0 {
            return Err(
                ConfigError::NotPositive {
                    field: String::from_str("pending_upload_timeout_seconds"),
                },
            );
        }
        if self.upload_max_file_size_bytes <= 0 {
            return Err(
                ConfigError::NotPositive { field: String::from_str("upload_max_file_size_bytes") },
            );
        }
        if self.upload_max_file_size_bytes > Self::S3_MAX_OBJECT_SIZE_BYTES {
            return Err(
                ConfigError::AboveMaximum {
                    field: String::from_str("upload_max_file_size_bytes"),
                    max: Self::S3_MAX_OBJECT_SIZE_BYTES,
                },
            );
        }
        if self.upload_part_size_bytes < Self::S3_MIN_MULTIPART_PART_SIZE_BYTES {
            return Err(
                ConfigError::BelowMinimum {
                    field: String::from_str("upload_part_size_bytes"),
                    min: Self::S3_MIN_MULTIPART_PART_SIZE_BYTES,
                },
            );
        }
        if self.upload_max_part_count <= 0 {
            return Err(
                ConfigError::NotPositive { field: String::from_str("upload_max_part_count") },
            );
        }
        if self.upload_max_part_count > Self::S3_MAX_MULTIPART_PART_COUNT {
            return Err(
                ConfigError::AboveMaximum {
                    field: String::from_str("upload_max_part_count"),
                    max: Self::S3_MAX_MULTIPART_PART_COUNT as i64,
                },
            );
        }
        if self.upload_session_ttl_seconds <= 0 {
            return Err(
                ConfigError::NotPositive { field: String::from_str("upload_session_ttl_seconds") },
            );
        }
        self.upload_session_cleanup().validate("upload_session_cleanup")?;
        self.upload_session_total_parts(self.upload_max_file_size_bytes)?;
        if self.maintenance_interval_seconds <= 0 {
            return Err(
                ConfigError::NotPositive {
                    field: String::from_str("maintenance_interval_seconds"),
                },
            );
        }
        self.storage_deletion().validate("storage_deletion")?;
        Ok(())
    }

    /// Lease/retry policy for the storage-deletion outbox, as a runtime view.
    pub fn storage_deletion(&self) -> (r: OutboxRetryConfig)
        ensures
            r == self.spec_storage_deletion(),
            r.retry_seconds == self.storage_deletion_retry_seconds,
            r.lease_seconds == self.storage_deletion_lease_seconds,
            r.batch_size == self.storage_deletion_batch_size,
            r.max_attempts == self.storage_deletion_max_attempts,
    {
        OutboxRetryConfig {
            retry_seconds: self.storage_deletion_retry_seconds,
            lease_seconds: self.storage_deletion_lease_seconds,
            batch_size: self.storage_deletion_batch_size,
            max_attempts: self.storage_deletion_max_attempts,
        }
    }

    /// Lease/retry policy for the expired-upload-session cleanup, as a runtime view.
    pub fn upload_session_cleanup(&self) -> (r: OutboxRetryConfig)
        ensures
            r == self.spec_upload_session_cleanup(),
            r.retry_seconds == self.upload_session_cleanup_retry_seconds,
            r.lease_seconds == self.upload_session_cleanup_lease_seconds,
            r.batch_size == self.upload_session_cleanup_batch_size,
            r.max_attempts == self.upload_session_cleanup_max_attempts,
    {
        OutboxRetryConfig {
            retry_seconds: self.upload_session_cleanup_retry_seconds,
            lease_seconds: self.upload_session_cleanup_lease_seconds,
            batch_size: self.upload_session_cleanup_batch_size,
            max_attempts: self.upload_session_cleanup_max_attempts,
        }
    }

    /// Number of parts an upload of `file_size_bytes` is split into.
    pub fn upload_session_total_parts(&self, file_size_bytes: i64) -> (r: Result<i32, ConfigError>)
        requires
            self.upload_part_size_bytes != 0,
        ensures
            match r {
                Ok(n) => self.total_parts_for(file_size_bytes as int) == Ok::<int, ConfigErrorView>(
                    n as int,
                ),
                Err(e) => self.total_parts_for(file_size_bytes as int) == Err::<int, ConfigErrorView>(
                    e@,
                ),
            },
    {
        if file_size_bytes <= 0 {
            return Err(ConfigError::NotPositive { field: String::from_str("file_size_bytes") });
        }
        if file_size_bytes > self.upload_max_file_size_bytes {
            return Err(
                ConfigError::AboveMaximum {
                    field: String::from_str("file_size_bytes"),
                    max: self.upload_max_file_size_bytes,
                },
            );
        }
        let count = part_count(file_size_bytes, self.upload_part_size_bytes);
        if count > self.upload_max_part_count as i64 {
            return Err(
                ConfigError::TooManyParts { required: count, limit: self.upload_max_part_count },
            );
        }
        if count < i32::MIN as i64 {
            return Err(ConfigError::PartCountOverflow);
        }
        Ok(count as i32)
    }

    /// Expected byte length of part `part_number` of an upload of
    /// `file_size_bytes`.
    pub fn upload_session_expected_part_size_bytes(
        &self,
        file_size_bytes: i64,
        part_number: i32,
    ) -> (r: Result<i64, ConfigError>)
        requires
            self.upload_part_size_bytes != 0,
        ensures
            match r {
                Ok(n) => self.part_size_for(file_size_bytes as int, part_number as int) == Ok::<
                    int,
                    ConfigErrorView,
                >(n as int),
                Err(e) => self.part_size_for(file_size_bytes as int, part_number as int) == Err::<
                    int,
                    ConfigErrorView,
                >(e@),
            },
    {
        let total_parts = self.upload_session_total_parts(file_size_bytes)?;
        if !(1 <= part_number && part_number <= total_parts) {
            return Err(ConfigError::PartNumberOutOfRange { total_parts });
        }
        Ok(part_length(file_size_bytes, self.upload_part_size_bytes, part_number))
    }

    /// Returns the configuration itself if `validate` accepts it.
    pub fn validated(self) -> (r: Result<Self, ConfigError>)
        ensures
            r is Ok <==> self.is_valid(),
            r matches Ok(c) ==> c == self,
            r matches Err(e) ==> Some(e@) == self.rejection(),
    {
        self.validate()?;
        Ok(self)
    }

    /// Seconds between maintenance passes.
    pub fn worker_interval_seconds(&self) -> (s: u64)
        ensures
            s == self.maintenance_interval_seconds as u64,
    {
        self.maintenance_interval_seconds as u64
    }
}

impl Default for ObjectLifecycleConfig {
    fn default() -> (c: Self)
        ensures
            c == Self::spec_default(),
    {
        ObjectLifecycleConfig {
            pending_upload_timeout_seconds: Self::default_pending_upload_timeout_seconds(),
            upload_max_file_size_bytes: Self::default_upload_max_file_size_bytes(),
            upload_part_size_bytes: Self::default_upload_part_size_bytes(),
            upload_max_part_count: Self::default_upload_max_part_count(),
            upload_session_ttl_seconds: Self::default_upload_session_ttl_seconds(),
            upload_session_cleanup_retry_seconds:
                Self::default_upload_session_cleanup_retry_seconds(),
            upload_session_cleanup_lease_seconds:
                Self::default_upload_session_cleanup_lease_seconds(),
            upload_session_cleanup_max_attempts:
                Self::default_upload_session_cleanup_max_attempts(),
            upload_session_cleanup_batch_size: Self::default_upload_session_cleanup_batch_size(),
            storage_deletion_retry_seconds: Self::default_storage_deletion_retry_seconds(),
            storage_deletion_lease_seconds: Self::default_storage_deletion_lease_seconds(),
            maintenance_interval_seconds: Self::default_maintenance_interval_seconds(),
            storage_deletion_batch_size: Self::default_storage_deletion_batch_size(),
            storage_deletion_max_attempts: Self::default_storage_deletion_max_attempts(),
        }
    }
}

} // verus!
