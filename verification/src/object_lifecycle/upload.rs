//! Checks applied to multipart-upload requests: object names and types, the
//! part numbers a client asks to presign, the parts it reports as completed,
//! and the metadata of the finished object.

use vstd::prelude::*;
use vstd::string::*;
use crate::errors::{AppError, AppErrorView};
use crate::object_lifecycle::config::{ObjectLifecycleConfig, part_count, part_count_of, part_length, part_length_of};
use crate::storage::{
    CompletedUploadPart, MultipartUploadAbortOutcome, MultipartUploadCompleteOutcome,
    StoredObjectMetadata,
};
use crate::text::{
    append_signed, append_unsigned, decimal, is_ascii_alphanumeric, is_blank, is_blank_str,
    random_alphanumeric, signed_decimal, str_eq,
};

verus! {

/// `jiff::Timestamp`, an instant in time, declared so that sessions can carry
/// their expiry. Nothing inside it is read by the logic here.
#[verifier::external_type_specification]
#[verifier::external_body]
pub struct ExTimestamp(jiff::Timestamp);

/// An in-progress multipart upload, as recorded when the session was created.
///
/// Sessions are created only for sizes that passed the configuration's part
/// policy, so both sizes are positive (see [`ObjectUploadSession::well_formed`]).
pub struct ObjectUploadSession {
    pub object_id: i64,
    pub storage_key: String,
    pub upload_id: String,
    pub content_type: String,
    pub file_size_bytes: i64,
    pub part_size_bytes: i64,
    pub expires_at: jiff::Timestamp,
}

impl ObjectUploadSession {
    pub open spec fn well_formed(&self) -> bool {
        self.file_size_bytes > 0 && self.part_size_bytes > 0
    }

    /// Number of parts of the session's upload, or why it exceeds what S3
    /// accepts.
    pub open spec fn total_parts(&self) -> Result<int, AppErrorView> {
        let count = part_count_of(self.file_size_bytes as int, self.part_size_bytes as int);
        if count > ObjectLifecycleConfig::S3_MAX_MULTIPART_PART_COUNT {
            Err(AppErrorView::Validation(too_many_session_parts_message(count)))
        } else {
            Ok(count)
        }
    }
}

pub open spec fn too_many_session_parts_message(count: int) -> Seq<char> {
    "upload session requires "@ + signed_decimal(count)
        + " parts, exceeding S3 multipart limit 10000"@
}

pub open spec fn part_number_range_message(total: int) -> Seq<char> {
    "part_number must be between 1 and "@ + signed_decimal(total)
}

pub open spec fn duplicate_part_number_message(part_number: int) -> Seq<char> {
    "part_number "@ + signed_decimal(part_number) + " was requested more than once"@
}

pub open spec fn too_many_part_numbers_message(max: nat) -> Seq<char> {
    "part_numbers may contain at most "@ + decimal(max) + " entries"@
}

pub open spec fn completed_count_message(total: int) -> Seq<char> {
    "completed parts must contain exactly "@ + signed_decimal(total) + " entries"@
}

pub open spec fn missing_etag_message(part_number: int) -> Seq<char> {
    "completed part "@ + signed_decimal(part_number) + " must include a non-empty ETag"@
}

pub open spec fn completed_sequence_message(total: int) -> Seq<char> {
    "completed parts must include every part number from 1 to "@ + signed_decimal(total)
        + " exactly once"@
}

/// An object name is accepted unless it is blank.
pub fn validate_upload_name(name: &str) -> (r: Result<(), AppError>)
    ensures
        r is Ok <==> !is_blank(name@),
        r matches Err(e) ==> e@ == AppErrorView::Validation("Object name must not be empty"@),
{
    if is_blank_str(name) {
        return Err(AppError::Validation(String::from_str("Object name must not be empty")));
    }
    Ok(())
}

/// A content type is accepted when it is one of `allowed_mime_types`.
pub fn validate_upload_content_type(content_type: &str, allowed_mime_types: &[&str]) -> (r: Result<
    (),
    AppError,
>)
    ensures
        r is Ok <==> exists|i: int|
            0 <= i < allowed_mime_types@.len() && #[trigger] allowed_mime_types@[i]@
                == content_type@,
        r matches Err(e) ==> e@ == AppErrorView::Validation(
            "Unsupported file type: "@ + content_type@,
        ),
{
    let mut i: usize = 0;
    while i < allowed_mime_types.len()
        invariant
            i <= allowed_mime_types@.len(),
            forall|j: int| 0 <= j < i ==> allowed_mime_types@[j]@ != content_type@,
        decreases allowed_mime_types.len() - i,
    {
        if str_eq(allowed_mime_types[i], content_type) {
            return Ok(());
        }
        i = i + 1;
    }
    Err(AppError::Validation(String::from_str("Unsupported file type: ").concat(content_type)))
}

/// Number of parts of the session's upload; S3 accepts at most 10000.
pub fn upload_session_total_parts(session: &ObjectUploadSession) -> (r: Result<i32, AppError>)
    requires
        session.well_formed(),
    ensures
        match r {
            Ok(n) => session.total_parts() == Ok::<int, AppErrorView>(n as int),
            Err(e) => session.total_parts() == Err::<int, AppErrorView>(e@),
        },
{
    let count = part_count(session.file_size_bytes, session.part_size_bytes);
    if count > ObjectLifecycleConfig::S3_MAX_MULTIPART_PART_COUNT as i64 {
        let mut m = String::from_str("upload session requires ");
        append_signed(&mut m, count);
        let m = m.concat(" parts, exceeding S3 multipart limit 10000");
        return Err(AppError::Validation(m));
    }
    Ok(count as i32)
}

fn part_number_range_error(total_parts: i32) -> (e: AppError)
    ensures
        e@ == AppErrorView::Validation(part_number_range_message(total_parts as int)),
{
    let mut m = String::from_str("part_number must be between 1 and ");
    append_signed(&mut m, total_parts as i64);
    AppError::Validation(m)
}

/// Expected byte length of `part_number` of the session's upload.
pub fn upload_session_part_size(session: &ObjectUploadSession, part_number: i32) -> (r: Result<
    i64,
    AppError,
>)
    requires
        session.well_formed(),
    ensures
        match session.total_parts() {
            Err(e) => r matches Err(x) && x@ == e,
            Ok(total) => if 1 <= part_number <= total {
                r == Ok::<i64, AppError>(
                    part_length_of(
                        session.file_size_bytes as int,
                        session.part_size_bytes as int,
                        part_number as int,
                    ) as i64,
                )
            } else {
                r matches Err(x) && x@ == AppErrorView::Validation(
                    part_number_range_message(total),
                )
            },
        },
{
    let total_parts = upload_session_total_parts(session)?;
    if !(1 <= part_number && part_number <= total_parts) {
        return Err(part_number_range_error(total_parts));
    }
    Ok(part_length(session.file_size_bytes, session.part_size_bytes, part_number))
}

/// The first requested part number, from index `i` on, that is out of range
/// or repeats an earlier one, with its message.
pub open spec fn first_bad_part_number(part_numbers: Seq<i32>, total: int, i: int) -> Option<
    AppErrorView,
>
    decreases part_numbers.len() - i,
{
    if i < 0 || i >= part_numbers.len() {
        None
    } else if !(1 <= part_numbers[i] <= total) {
        Some(AppErrorView::Validation(part_number_range_message(total)))
    } else if part_numbers.take(i).contains(part_numbers[i]) {
        Some(AppErrorView::Validation(duplicate_part_number_message(part_numbers[i] as int)))
    } else {
        first_bad_part_number(part_numbers, total, i + 1)
    }
}

/// Why a presign request for `part_numbers` is refused, if it is.
pub open spec fn part_numbers_rejection(
    session: ObjectUploadSession,
    part_numbers: Seq<i32>,
    max_per_request: nat,
) -> Option<AppErrorView> {
    if part_numbers.len() == 0 {
        Some(AppErrorView::Validation("part_numbers must not be empty"@))
    } else if part_numbers.len() > max_per_request {
        Some(AppErrorView::Validation(too_many_part_numbers_message(max_per_request)))
    } else {
        match session.total_parts() {
            Err(e) => Some(e),
            Ok(total) => first_bad_part_number(part_numbers, total, 0),
        }
    }
}

/// A presign request must name between one and `max_per_request` distinct
/// part numbers, each within the session's parts.
pub fn validate_part_numbers(
    session: &ObjectUploadSession,
    part_numbers: &[i32],
    max_per_request: usize,
) -> (r: Result<(), AppError>)
    requires
        session.well_formed(),
    ensures
        r is Ok <==> part_numbers_rejection(*session, part_numbers@, max_per_request as nat) is None,
        r matches Err(e) ==> Some(e@) == part_numbers_rejection(
            *session,
            part_numbers@,
            max_per_request as nat,
        ),
{
    if part_numbers.len() == 0 {
        return Err(AppError::Validation(String::from_str("part_numbers must not be empty")));
    }
    if part_numbers.len() > max_per_request {
        let mut m = String::from_str("part_numbers may contain at most ");
        append_unsigned(&mut m, max_per_request as u64);
        return Err(AppError::Validation(m.concat(" entries")));
    }
    let total_parts = upload_session_total_parts(session)?;
    let ghost pns = part_numbers@;
    let mut seen: Vec<bool> = Vec::new();
    let mut k: i32 = 0;
    while k <= total_parts
        invariant
            0 <= k <= total_parts + 1,
            total_parts <= 10000,
            seen@.len() == k,
            forall|v: int| 0 <= v < k ==> !#[trigger] seen@[v],
        decreases total_parts + 1 - k,
    {
        seen.push(false);
        k = k + 1;
    }
    let mut i: usize = 0;
    while i < part_numbers.len()
        invariant
            i <= pns.len(),
            pns == part_numbers@,
            0 < pns.len() <= max_per_request,
            1 <= total_parts <= 10000,
            session.total_parts() == Ok::<int, AppErrorView>(total_parts as int),
            seen@.len() == total_parts + 1,
            forall|v: int| 1 <= v <= total_parts ==> (#[trigger] seen@[v] <==> pns.take(
                i as int,
            ).contains(v as i32)),
            first_bad_part_number(pns, total_parts as int, 0) == first_bad_part_number(
                pns,
                total_parts as int,
                i as int,
            ),
        decreases pns.len() - i,
    {
        let part_number = part_numbers[i];
        if !(1 <= part_number && part_number <= total_parts) {
            assert(first_bad_part_number(pns, total_parts as int, i as int) == Some(
                AppErrorView::Validation(part_number_range_message(total_parts as int)),
            ));
            return Err(part_number_range_error(total_parts));
        }
        if seen[part_number as usize] {
            assert(pns.take(i as int).contains(part_number));
            assert(first_bad_part_number(pns, total_parts as int, i as int) == Some(
                AppErrorView::Validation(duplicate_part_number_message(part_number as int)),
            ));
            let mut m = String::from_str("part_number ");
            append_signed(&mut m, part_number as i64);
            return Err(AppError::Validation(m.concat(" was requested more than once")));
        }
        assert(!pns.take(i as int).contains(part_number)) by {
            assert(pns.take(i as int).contains(part_number) ==> seen@[part_number as int]);
        }
        seen.set(part_number as usize, true);
        proof {
            let prev = pns.take(i as int);
            let next = pns.take(i + 1);
            assert(next =~= prev.push(part_number));
            assert forall|v: int| 1 <= v <= total_parts implies (#[trigger] seen@[v]
                <==> next.contains(v as i32)) by {
                if v == part_number as int {
                    assert(next[i as int] == part_number);
                } else {
                    if next.contains(v as i32) {
                        let k = choose|k: int| 0 <= k < next.len() && #[trigger] next[k] == v as i32;
                        assert(k < i);
                        assert(prev[k] == v as i32);
                    }
                    if prev.contains(v as i32) {
                        let k = choose|k: int| 0 <= k < prev.len() && #[trigger] prev[k] == v as i32;
                        assert(next[k] == v as i32);
                    }
                }
            }
        }
        i = i + 1;
    }
    Ok(())
}

/// Inserts `x` into the part-number-sorted `sorted` after every part whose
/// number is not larger (so equal numbers keep their arrival order).
pub open spec fn insert_by_part_number(
    sorted: Seq<CompletedUploadPart>,
    x: CompletedUploadPart,
) -> Seq<CompletedUploadPart>
    decreases sorted.len(),
{
    if sorted.len() == 0 || sorted.last().part_number <= x.part_number {
        sorted.push(x)
    } else {
        insert_by_part_number(sorted.drop_last(), x).push(sorted.last())
    }
}

/// `parts` stably sorted by part number (what `sort_by_key` yields).
pub open spec fn sorted_by_part_number(parts: Seq<CompletedUploadPart>) -> Seq<CompletedUploadPart>
    decreases parts.len(),
{
    if parts.len() == 0 {
        parts
    } else {
        insert_by_part_number(sorted_by_part_number(parts.drop_last()), parts.last())
    }
}

/// The first position, from `i` on, of a sorted part list whose ETag is blank
/// or whose number is not its 1-based position.
pub open spec fn first_bad_completed_part(sorted: Seq<CompletedUploadPart>, i: int) -> Option<int>
    decreases sorted.len() - i,
{
    if i < 0 || i >= sorted.len() {
        None
    } else if is_blank(sorted[i].e_tag@) || sorted[i].part_number != i + 1 {
        Some(i)
    } else {
        first_bad_completed_part(sorted, i + 1)
    }
}

/// The parts sorted by number when they are exactly parts `1..=total` of
/// the session, each with an ETag; otherwise why they are refused.
pub open spec fn completed_parts_outcome(
    session: ObjectUploadSession,
    parts: Seq<CompletedUploadPart>,
) -> Result<Seq<CompletedUploadPart>, AppErrorView> {
    match session.total_parts() {
        Err(e) => Err(e),
        Ok(total) => if parts.len() != total {
            Err(AppErrorView::Validation(completed_count_message(total)))
        } else {
            let sorted = sorted_by_part_number(parts);
            match first_bad_completed_part(sorted, 0) {
                None => Ok(sorted),
                Some(i) => if is_blank(sorted[i].e_tag@) {
                    Err(AppErrorView::Validation(missing_etag_message(sorted[i].part_number as int)))
                } else {
                    Err(AppErrorView::Validation(completed_sequence_message(total)))
                },
            }
        },
    }
}

proof fn lemma_insert_position(sorted: Seq<CompletedUploadPart>, x: CompletedUploadPart, j: int)
    requires
        0 <= j <= sorted.len(),
        forall|k: int| j <= k < sorted.len() ==> #[trigger] sorted[k].part_number > x.part_number,
        j == 0 || sorted[j - 1].part_number <= x.part_number,
    ensures
        insert_by_part_number(sorted, x) == sorted.take(j).push(x) + sorted.skip(j),
    decreases sorted.len(),
{
    if sorted.len() == 0 || sorted.last().part_number <= x.part_number {
        assert(j == sorted.len());
        assert(sorted.take(j) =~= sorted);
        assert(sorted.skip(j) =~= seq![]);
        assert(sorted.take(j).push(x) + sorted.skip(j) =~= sorted.push(x));
    } else {
        let init = sorted.drop_last();
        assert forall|k: int| j <= k < init.len() implies #[trigger] init[k].part_number
            > x.part_number by {
            assert(init[k] == sorted[k]);
        }
        lemma_insert_position(init, x, j);
        assert(init.take(j) =~= sorted.take(j));
        assert(init.skip(j).push(sorted.last()) =~= sorted.skip(j));
        assert((init.take(j).push(x) + init.skip(j)).push(sorted.last()) =~= sorted.take(j).push(x)
            + sorted.skip(j));
    }
}

proof fn lemma_insert_len(sorted: Seq<CompletedUploadPart>, x: CompletedUploadPart)
    ensures
        insert_by_part_number(sorted, x).len() == sorted.len() + 1,
    decreases sorted.len(),
{
    if !(sorted.len() == 0 || sorted.last().part_number <= x.part_number) {
        lemma_insert_len(sorted.drop_last(), x);
    }
}

proof fn lemma_sorted_len(parts: Seq<CompletedUploadPart>)
    ensures
        sorted_by_part_number(parts).len() == parts.len(),
    decreases parts.len(),
{
    if parts.len() > 0 {
        lemma_sorted_len(parts.drop_last());
        lemma_insert_len(sorted_by_part_number(parts.drop_last()), parts.last());
    }
}

/// Stable insertion sort of the parts by part number.
fn sort_by_part_number(parts: Vec<CompletedUploadPart>) -> (sorted: Vec<CompletedUploadPart>)
    ensures
        sorted@ == sorted_by_part_number(parts@),
{
    let mut sorted: Vec<CompletedUploadPart> = Vec::new();
    let mut pending = parts;
    let ghost all = pending@;
    let n = pending.len();
    let mut rest: Vec<CompletedUploadPart> = Vec::new();
    while pending.len() > 0
        invariant
            pending@.len() + rest@.len() == n == all.len(),
            pending@ == all.take(pending@.len() as int),
            forall|k: int| 0 <= k < rest@.len() ==> #[trigger] rest@[k] == all[n - 1 - k],
        decreases pending@.len(),
    {
        let x = pending.pop().unwrap();
        rest.push(x);
        assert(pending@ =~= all.take(pending@.len() as int));
    }
    let mut taken: usize = 0;
    assert(sorted@ =~= sorted_by_part_number(all.take(0)));
    while taken < n
        invariant
            taken <= n == all.len(),
            rest@.len() == n - taken,
            forall|k: int| 0 <= k < rest@.len() ==> #[trigger] rest@[k] == all[n - 1 - k],
            sorted@ == sorted_by_part_number(all.take(taken as int)),
        decreases n - taken,
    {
        let x = rest.pop().unwrap();
        assert(x == all[taken as int]);
        let mut j: usize = sorted.len();
        while j > 0 && sorted[j - 1].part_number > x.part_number
            invariant
                j <= sorted@.len(),
                forall|k: int| j <= k < sorted@.len() ==> #[trigger] sorted@[k].part_number
                    > x.part_number,
            decreases j,
        {
            j = j - 1;
        }
        proof {
            lemma_insert_position(sorted@, x, j as int);
            assert(all.take(taken + 1).drop_last() =~= all.take(taken as int));
            assert(all.take(taken + 1).last() == x);
        }
        sorted.insert(j, x);
        assert(sorted@ =~= insert_by_part_number(sorted_by_part_number(all.take(taken as int)), x));
        taken = taken + 1;
    }
    assert(all.take(n as int) =~= all);
    sorted
}

fn completed_count_error(total_parts: i32) -> (e: AppError)
    ensures
        e@ == AppErrorView::Validation(completed_count_message(total_parts as int)),
{
    let mut m = String::from_str("completed parts must contain exactly ");
    append_signed(&mut m, total_parts as i64);
    AppError::Validation(m.concat(" entries"))
}

fn missing_etag_error(part_number: i32) -> (e: AppError)
    ensures
        e@ == AppErrorView::Validation(missing_etag_message(part_number as int)),
{
    let mut m = String::from_str("completed part ");
    append_signed(&mut m, part_number as i64);
    AppError::Validation(m.concat(" must include a non-empty ETag"))
}

fn completed_sequence_error(total_parts: i32) -> (e: AppError)
    ensures
        e@ == AppErrorView::Validation(completed_sequence_message(total_parts as int)),
{
    let mut m = String::from_str("completed parts must include every part number from 1 to ");
    append_signed(&mut m, total_parts as i64);
    AppError::Validation(m.concat(" exactly once"))
}

/// Checks the parts a client reports as uploaded: exactly parts
/// `1..=total_parts`, each once and each with an ETag. Returns them sorted by
/// part number.
pub fn validate_completed_parts(
    session: &ObjectUploadSession,
    completed_parts: Vec<CompletedUploadPart>,
) -> (r: Result<Vec<CompletedUploadPart>, AppError>)
    requires
        session.well_formed(),
    ensures
        match r {
            Ok(v) => completed_parts_outcome(*session, completed_parts@) == Ok::<
                Seq<CompletedUploadPart>,
                AppErrorView,
            >(v@),
            Err(e) => completed_parts_outcome(*session, completed_parts@) == Err::<
                Seq<CompletedUploadPart>,
                AppErrorView,
            >(e@),
        },
{
    let total_parts = upload_session_total_parts(session)?;
    if completed_parts.len() != total_parts as usize {
        return Err(completed_count_error(total_parts));
    }
    let ghost received = completed_parts@;
    let sorted = sort_by_part_number(completed_parts);
    proof {
        lemma_sorted_len(received);
    }
    let mut index: usize = 0;
    while index < sorted.len()
        invariant
            index <= sorted@.len() == total_parts <= 10000,
            received.len() == total_parts,
            received == completed_parts@,
            session.total_parts() == Ok::<int, AppErrorView>(total_parts as int),
            sorted@ == sorted_by_part_number(received),
            first_bad_completed_part(sorted@, 0) == first_bad_completed_part(
                sorted@,
                index as int,
            ),
        decreases sorted.len() - index,
    {
        let part = &sorted[index];
        if is_blank_str(part.e_tag.as_str()) {
            assert(first_bad_completed_part(sorted@, index as int) == Some(index as int));
            return Err(missing_etag_error(part.part_number));
        }
        if part.part_number as i64 != index as i64 + 1 {
            assert(first_bad_completed_part(sorted@, index as int) == Some(index as int));
            return Err(completed_sequence_error(total_parts));
        }
        assert(first_bad_completed_part(sorted@, index as int) == first_bad_completed_part(
            sorted@,
            index + 1,
        ));
        index = index + 1;
    }
    Ok(sorted)
}

/// Why the stored object does not match what the session declared, if it
/// does not: size is checked before content type.
pub open spec fn metadata_mismatch(
    session: ObjectUploadSession,
    metadata: StoredObjectMetadata,
) -> Option<Seq<char>> {
    if metadata.content_length != session.file_size_bytes {
        Some("Completed upload size did not match declared file size"@)
    } else if metadata.content_type@ != session.content_type@ {
        Some("Completed upload content type did not match declared content type"@)
    } else {
        None
    }
}

pub fn completed_upload_metadata_error(
    session: &ObjectUploadSession,
    metadata: &StoredObjectMetadata,
) -> (r: Option<String>)
    ensures
        match r {
            Some(m) => metadata_mismatch(*session, *metadata) == Some(m@),
            None => metadata_mismatch(*session, *metadata) is None,
        },
{
    if metadata.content_length != session.file_size_bytes {
        return Some(String::from_str("Completed upload size did not match declared file size"));
    }
    if metadata.content_type != session.content_type {
        return Some(
            String::from_str("Completed upload content type did not match declared content type"),
        );
    }
    None
}

proof fn lemma_insert_keeps_parts(sorted: Seq<CompletedUploadPart>, x: CompletedUploadPart)
    ensures
        insert_by_part_number(sorted, x).to_multiset() =~= sorted.to_multiset().insert(x),
    decreases sorted.len(),
{
    broadcast use vstd::seq_lib::group_to_multiset_ensures;

    if sorted.len() == 0 || sorted.last().part_number <= x.part_number {
    } else {
        lemma_insert_keeps_parts(sorted.drop_last(), x);
        assert(sorted == sorted.drop_last().push(sorted.last()));
    }
}

proof fn lemma_sorting_keeps_parts(parts: Seq<CompletedUploadPart>)
    ensures
        sorted_by_part_number(parts).to_multiset() =~= parts.to_multiset(),
    decreases parts.len(),
{
    broadcast use vstd::seq_lib::group_to_multiset_ensures;

    if parts.len() > 0 {
        lemma_sorting_keeps_parts(parts.drop_last());
        lemma_insert_keeps_parts(sorted_by_part_number(parts.drop_last()), parts.last());
        assert(parts == parts.drop_last().push(parts.last()));
    }
}

proof fn lemma_no_bad_part(sorted: Seq<CompletedUploadPart>, i: int)
    requires
        0 <= i <= sorted.len(),
        first_bad_completed_part(sorted, i) is None,
    ensures
        forall|j: int|
            i <= j < sorted.len() ==> (#[trigger] sorted[j]).part_number == j + 1 && !is_blank(
                sorted[j].e_tag@,
            ),
    decreases sorted.len() - i,
{
    if i < sorted.len() {
        lemma_no_bad_part(sorted, i + 1);
    }
}

/// Accepted completed parts are exactly parts `1..=total` of the session, in
/// order, each with a non-blank ETag, and they are the parts the client sent,
/// reordered: none is lost, added or changed.
pub proof fn law_accepted_parts_are_one_through_total(
    session: ObjectUploadSession,
    parts: Seq<CompletedUploadPart>,
)
    requires
        completed_parts_outcome(session, parts) is Ok,
    ensures
        ({
            let accepted = completed_parts_outcome(session, parts)->Ok_0;
            &&& session.total_parts() == Ok::<int, AppErrorView>(accepted.len() as int)
            &&& accepted.len() == parts.len()
            &&& forall|i: int|
                0 <= i < accepted.len() ==> (#[trigger] accepted[i]).part_number == i + 1
                    && !is_blank(accepted[i].e_tag@)
            &&& accepted.to_multiset() == parts.to_multiset()
        }),
{
    broadcast use vstd::seq_lib::group_to_multiset_ensures;

    let sorted = sorted_by_part_number(parts);
    lemma_sorting_keeps_parts(parts);
    lemma_no_bad_part(sorted, 0);
    assert(sorted.len() == sorted.to_multiset().len());
}

pub open spec fn nondecreasing(s: Seq<CompletedUploadPart>) -> bool {
    forall|i: int, j: int| 0 <= i <= j < s.len() ==> s[i].part_number <= s[j].part_number
}

proof fn lemma_insert_bounded(sorted: Seq<CompletedUploadPart>, x: CompletedUploadPart, bound: i32)
    requires
        forall|i: int| 0 <= i < sorted.len() ==> sorted[i].part_number <= bound,
        x.part_number <= bound,
    ensures
        forall|i: int|
            0 <= i < insert_by_part_number(sorted, x).len() ==> insert_by_part_number(
                sorted,
                x,
            )[i].part_number <= bound,
    decreases sorted.len(),
{
    let result = insert_by_part_number(sorted, x);
    if sorted.len() == 0 || sorted.last().part_number <= x.part_number {
        assert forall|i: int| 0 <= i < result.len() implies result[i].part_number <= bound by {
            if i < sorted.len() {
                assert(result[i] == sorted[i]);
            }
        }
    } else {
        let init = sorted.drop_last();
        lemma_insert_bounded(init, x, bound);
        let r = insert_by_part_number(init, x);
        assert(result == r.push(sorted.last()));
        assert(sorted.last().part_number <= bound) by {
            assert(sorted.last() == sorted[sorted.len() - 1]);
        }
        assert forall|i: int| 0 <= i < result.len() implies result[i].part_number <= bound by {
            if i < r.len() {
                assert(result[i] == r[i]);
            }
        }
    }
}

proof fn lemma_insert_nondecreasing(sorted: Seq<CompletedUploadPart>, x: CompletedUploadPart)
    requires
        nondecreasing(sorted),
    ensures
        nondecreasing(insert_by_part_number(sorted, x)),
    decreases sorted.len(),
{
    if sorted.len() == 0 || sorted.last().part_number <= x.part_number {
    } else {
        let init = sorted.drop_last();
        let last = sorted.last();
        lemma_insert_nondecreasing(init, x);
        lemma_insert_bounded(init, x, last.part_number);
        let r = insert_by_part_number(init, x);
        assert(insert_by_part_number(sorted, x) == r.push(last));
    }
}

proof fn lemma_sorting_nondecreasing(parts: Seq<CompletedUploadPart>)
    ensures
        nondecreasing(sorted_by_part_number(parts)),
    decreases parts.len(),
{
    if parts.len() > 0 {
        lemma_sorting_nondecreasing(parts.drop_last());
        lemma_insert_nondecreasing(sorted_by_part_number(parts.drop_last()), parts.last());
    }
}

proof fn lemma_increasing_fills_range(s: Seq<CompletedUploadPart>)
    requires
        forall|i: int, j: int| 0 <= i < j < s.len() ==> s[i].part_number < s[j].part_number,
        forall|i: int| 0 <= i < s.len() ==> 1 <= #[trigger] s[i].part_number <= s.len(),
    ensures
        forall|i: int| 0 <= i < s.len() ==> #[trigger] s[i].part_number == i + 1,
{
    assert forall|i: int| 0 <= i < s.len() implies #[trigger] s[i].part_number >= i + 1 by {
        lemma_increasing_lower(s, i);
    }
    assert forall|i: int| 0 <= i < s.len() implies #[trigger] s[i].part_number <= i + 1 by {
        lemma_increasing_upper(s, i);
    }
}

proof fn lemma_increasing_lower(s: Seq<CompletedUploadPart>, i: int)
    requires
        0 <= i < s.len(),
        forall|a: int, b: int| 0 <= a < b < s.len() ==> s[a].part_number < s[b].part_number,
        forall|a: int| 0 <= a < s.len() ==> 1 <= #[trigger] s[a].part_number,
    ensures
        s[i].part_number >= i + 1,
    decreases i,
{
    if i > 0 {
        lemma_increasing_lower(s, i - 1);
    }
}

proof fn lemma_increasing_upper(s: Seq<CompletedUploadPart>, i: int)
    requires
        0 <= i < s.len(),
        forall|a: int, b: int| 0 <= a < b < s.len() ==> s[a].part_number < s[b].part_number,
        forall|a: int| 0 <= a < s.len() ==> #[trigger] s[a].part_number <= s.len(),
    ensures
        s[i].part_number <= i + 1,
    decreases s.len() - i,
{
    if i < s.len() - 1 {
        lemma_increasing_upper(s, i + 1);
    }
}

proof fn lemma_good_parts_pass(sorted: Seq<CompletedUploadPart>, i: int)
    requires
        0 <= i <= sorted.len(),
        forall|j: int|
            i <= j < sorted.len() ==> (#[trigger] sorted[j]).part_number == j + 1 && !is_blank(
                sorted[j].e_tag@,
            ),
    ensures
        first_bad_completed_part(sorted, i) is None,
    decreases sorted.len() - i,
{
    if i < sorted.len() {
        lemma_good_parts_pass(sorted, i + 1);
    }
}

/// The parts are exactly parts `1..=n`: `n` of them, each numbered within
/// `1..=n`, no number twice, and each with a non-blank ETag.
pub open spec fn exact_parts(parts: Seq<CompletedUploadPart>, n: int) -> bool {
    &&& parts.len() == n
    &&& forall|i: int|
        0 <= i < n ==> 1 <= (#[trigger] parts[i]).part_number <= n && !is_blank(parts[i].e_tag@)
    &&& forall|i: int, j: int|
        0 <= i < j < n ==> (#[trigger] parts[i]).part_number != (#[trigger] parts[j]).part_number
}

/// Completed parts that are exactly parts `1..=total` of the session, in any
/// order, are accepted.
pub proof fn law_exact_parts_are_accepted(
    session: ObjectUploadSession,
    parts: Seq<CompletedUploadPart>,
)
    requires
        session.total_parts() is Ok,
        exact_parts(parts, session.total_parts()->Ok_0),
    ensures
        completed_parts_outcome(session, parts) is Ok,
{
    broadcast use vstd::seq_lib::group_to_multiset_ensures;

    let n = session.total_parts()->Ok_0;
    let sorted = sorted_by_part_number(parts);
    lemma_sorted_len(parts);
    lemma_sorting_keeps_parts(parts);
    lemma_sorting_nondecreasing(parts);
    assert(parts.no_duplicates()) by {
        assert forall|i: int, j: int|
            0 <= i < parts.len() && 0 <= j < parts.len() && i != j implies parts[i] != parts[j] by {
            if i < j {
                assert(parts[i].part_number != parts[j].part_number);
            } else {
                assert(parts[j].part_number != parts[i].part_number);
            }
        }
    }
    parts.lemma_multiset_has_no_duplicates();
    sorted.lemma_multiset_has_no_duplicates_conv();
    // Every sorted part is one of the parts sent.
    assert forall|i: int| 0 <= i < sorted.len() implies exists|a: int|
        0 <= a < parts.len() && parts[a] == #[trigger] sorted[i] by {
        assert(sorted.to_multiset().count(sorted[i]) > 0);
        assert(parts.contains(sorted[i]));
    }
    assert forall|i: int, j: int| 0 <= i < j < sorted.len() implies sorted[i].part_number
        < sorted[j].part_number by {
        let a = choose|a: int| 0 <= a < parts.len() && parts[a] == sorted[i];
        let b = choose|b: int| 0 <= b < parts.len() && parts[b] == sorted[j];
        assert(sorted[i] != sorted[j]);
        assert(a != b);
        if a < b {
            assert(parts[a].part_number != parts[b].part_number);
        } else {
            assert(parts[b].part_number != parts[a].part_number);
        }
    }
    assert forall|i: int| 0 <= i < sorted.len() implies 1 <= #[trigger] sorted[i].part_number
        <= sorted.len() && !is_blank(sorted[i].e_tag@) by {
        let a = choose|a: int| 0 <= a < parts.len() && parts[a] == sorted[i];
        assert(parts[a] == sorted[i]);
    }
    lemma_increasing_fills_range(sorted);
    lemma_good_parts_pass(sorted, 0);
}

/// The number of random characters in a storage key.
pub const STORAGE_KEY_RANDOM_LENGTH: usize = 40;

/// A fresh, unguessable storage key, used directly in presigned URLs:
/// `objects/` followed by 40 ASCII letters and digits drawn from a
/// cryptographically secure generator.
pub fn generate_storage_key() -> (key: String)
    ensures
        key@.len() == 8 + STORAGE_KEY_RANDOM_LENGTH,
        key@.take(8) == "objects/"@,
        forall|i: int| 8 <= i < key@.len() ==> is_ascii_alphanumeric(#[trigger] key@[i]),
{
    let suffix = random_alphanumeric(STORAGE_KEY_RANDOM_LENGTH);
    let key = String::from_str("objects/").concat(suffix.as_str());
    proof {
        reveal_strlit("objects/");
        assert(key@.take(8) =~= "objects/"@);
        assert forall|i: int| 8 <= i < key@.len() implies is_ascii_alphanumeric(#[trigger] key@[i]) by {
            assert(key@[i] == suffix@[i - 8]);
        }
    }
    key
}

/// SQLSTATE of a unique-constraint violation.
pub const UNIQUE_VIOLATION: &'static str = "23505";

/// The constraints that keep object names unique.
pub open spec fn name_constraint(constraint: Seq<char>) -> bool {
    constraint == "objects_active_name_key"@ || constraint == "objects_name_key"@
}

/// Whether a database error with SQLSTATE `code` on `constraint` says the
/// name is taken.
pub open spec fn names_duplicate(code: Option<&str>, constraint: Option<&str>) -> bool {
    match (code, constraint) {
        (Some(c), Some(k)) => c@ == UNIQUE_VIOLATION@ && name_constraint(k@),
        _ => false,
    }
}

/// The error answered when inserting an object named `name` failed: a
/// unique-constraint violation (SQLSTATE `23505`) on a name constraint means
/// the name is taken; anything else is internal, carrying `db_message`.
/// `code` and `constraint` are those of the database error, when it is one.
pub fn object_insert_error(
    code: Option<&str>,
    constraint: Option<&str>,
    name: &str,
    db_message: &str,
) -> (e: AppError)
    ensures
        e@ == (if names_duplicate(code, constraint) {
            AppErrorView::Validation("Object named '"@ + name@ + "' already exists"@)
        } else {
            AppErrorView::Internal(db_message@)
        }),
{
    let mut duplicate = false;
    if let Some(c) = code {
        if str_eq(c, UNIQUE_VIOLATION) {
            if let Some(k) = constraint {
                duplicate = str_eq(k, "objects_active_name_key") || str_eq(k, "objects_name_key");
            }
        }
    }
    if duplicate {
        AppError::Validation(
            String::from_str("Object named '").concat(name).concat("' already exists"),
        )
    } else {
        AppError::Internal(String::from_str(db_message))
    }
}

/// What `str::parse::<jiff::Timestamp>` gives for `s`: the instant as whole
/// seconds since the Unix epoch and the nanoseconds within that second
/// (`Timestamp::as_second`, `Timestamp::subsec_nanosecond`), or the `Display`
/// text of its error when it refuses `s`.
pub uninterp spec fn timestamp_parse(s: Seq<char>) -> Result<(i64, i32), Seq<char>>;

/// `str::parse::<jiff::Timestamp>` (jiff's RFC 3339 / Temporal parser), with
/// the instant handed back as seconds and nanoseconds and the error rendered
/// by `Display`. The parser reads the text alone (an offset in it, never a
/// time-zone database), so its outcome is named as a function of `s`.
#[verifier::external_body]
fn parse_timestamp(s: &str) -> (r: Result<(i64, i32), String>)
    ensures
        match r {
            Ok(t) => timestamp_parse(s@) == Ok::<(i64, i32), Seq<char>>(t),
            Err(m) => timestamp_parse(s@) == Err::<(i64, i32), Seq<char>>(m@),
        },
{
    s.parse::<jiff::Timestamp>().map(|t| (t.as_second(), t.subsec_nanosecond())).map_err(
        |e| e.to_string(),
    )
}

/// The capture time an upload gets from the parser's outcome on its text:
/// the parsed instant, or `Invalid timestamp format: ...` with the parser's
/// message.
pub fn made_on_from_parsed(parsed: Result<(i64, i32), String>) -> (r: Result<
    Option<(i64, i32)>,
    AppError,
>)
    ensures
        match parsed {
            Ok(t) => r == Ok::<Option<(i64, i32)>, AppError>(Some(t)),
            Err(m) => r matches Err(e) && e@ == AppErrorView::Validation(
                "Invalid timestamp format: "@ + m@,
            ),
        },
{
    match parsed {
        Ok(t) => Ok(Some(t)),
        Err(m) => Err(
            AppError::Validation(String::from_str("Invalid timestamp format: ").concat(m.as_str())),
        ),
    }
}

/// Parses the optional capture time of an upload into seconds since the Unix
/// epoch and nanoseconds; text that is not a timestamp is refused as
/// `Invalid timestamp format: ...`.
pub fn parse_made_on(made_on: Option<String>) -> (r: Result<Option<(i64, i32)>, AppError>)
    ensures
        match made_on {
            None => r == Ok::<Option<(i64, i32)>, AppError>(None),
            Some(s) => match timestamp_parse(s@) {
                Ok(t) => r == Ok::<Option<(i64, i32)>, AppError>(Some(t)),
                Err(m) => r matches Err(e) && e@ == AppErrorView::Validation(
                    "Invalid timestamp format: "@ + m,
                ),
            },
        },
{
    match made_on {
        None => Ok(None),
        Some(text) => made_on_from_parsed(parse_timestamp(text.as_str())),
    }
}

/// Whether an upload carries a position: latitude and longitude are given
/// together or omitted together; one without the other is refused.
pub fn coordinates_given(latitude_given: bool, longitude_given: bool) -> (r: Result<bool, AppError>)
    ensures
        if latitude_given == longitude_given {
            r == Ok::<bool, AppError>(latitude_given)
        } else {
            r matches Err(e) && e@ == AppErrorView::Validation(
                "latitude and longitude must both be provided or both omitted"@,
            )
        },
{
    if latitude_given == longitude_given {
        Ok(latitude_given)
    } else {
        Err(
            AppError::Validation(
                String::from_str("latitude and longitude must both be provided or both omitted"),
            ),
        )
    }
}

/// What happens to an upload's records once storage was asked to abort it.
#[derive(Clone, Copy, Debug, PartialEq, Eq, Structural)]
pub enum AbortCleanup {
    /// Nothing is stored: delete the pending object's metadata.
    DeletePendingMetadata,
    /// The upload completed after all: queue the stored object for deletion.
    EnqueueStorageCleanup,
}

/// The cleanup after an abort. When storage no longer knows the upload, the
/// object may have been completed meanwhile; `object_stored` says whether it
/// exists (it is consulted only then).
pub fn abort_cleanup(outcome: MultipartUploadAbortOutcome, object_stored: bool) -> (c: AbortCleanup)
    ensures
        c == (match outcome {
            MultipartUploadAbortOutcome::Aborted => AbortCleanup::DeletePendingMetadata,
            MultipartUploadAbortOutcome::UploadNotFound => if object_stored {
                AbortCleanup::EnqueueStorageCleanup
            } else {
                AbortCleanup::DeletePendingMetadata
            },
        }),
{
    match outcome {
        MultipartUploadAbortOutcome::Aborted => AbortCleanup::DeletePendingMetadata,
        MultipartUploadAbortOutcome::UploadNotFound => {
            if object_stored {
                AbortCleanup::EnqueueStorageCleanup
            } else {
                AbortCleanup::DeletePendingMetadata
            }
        },
    }
}

/// What to do once storage has been asked to complete an upload and the
/// stored object's metadata has been read.
pub enum CompletionStep {
    /// The object matches the session: finalize it.
    Finalize,
    /// The object does not match: queue it for deletion and refuse the
    /// upload with this validation message.
    Reject(String),
}

pub enum CompletionStepView {
    Finalize,
    Reject(Seq<char>),
}

impl View for CompletionStep {
    type V = CompletionStepView;

    open spec fn view(&self) -> CompletionStepView {
        match self {
            CompletionStep::Finalize => CompletionStepView::Finalize,
            CompletionStep::Reject(m) => CompletionStepView::Reject(m@),
        }
    }
}

/// The step after completing a multipart upload, given what storage said of
/// the upload and the stored object's metadata (`None` when no object is
/// stored). A completed upload whose object is missing is an internal error;
/// an upload storage no longer knows and no object means it is not found.
pub fn completion_step(
    session: &ObjectUploadSession,
    outcome: MultipartUploadCompleteOutcome,
    stored: Option<StoredObjectMetadata>,
) -> (r: Result<CompletionStep, AppError>)
    ensures
        match stored {
            None => r matches Err(e) && e@ == (match outcome {
                MultipartUploadCompleteOutcome::Completed => AppErrorView::Internal(
                    "Failed to verify completed object metadata"@,
                ),
                MultipartUploadCompleteOutcome::UploadNotFound => AppErrorView::NotFound(
                    "Multipart upload not found"@,
                ),
            }),
            Some(m) => r matches Ok(step) && step@ == (match metadata_mismatch(*session, m) {
                None => CompletionStepView::Finalize,
                Some(message) => CompletionStepView::Reject(message),
            }),
        },
{
    match stored {
        None => match outcome {
            MultipartUploadCompleteOutcome::Completed => Err(
                AppError::Internal(String::from_str("Failed to verify completed object metadata")),
            ),
            MultipartUploadCompleteOutcome::UploadNotFound => Err(
                AppError::NotFound(String::from_str("Multipart upload not found")),
            ),
        },
        Some(m) => match completed_upload_metadata_error(session, &m) {
            None => Ok(CompletionStep::Finalize),
            Some(message) => Ok(CompletionStep::Reject(message)),
        },
    }
}

} // verus!
