//! Personal-data export requests: a user asks for an export, an operator stores
//! it encrypted, the user reads it back and can check it against its digest; an
//! audit trail per user records every request. Account addresses are held as
//! their text form; the caller's authorization and the ledger time come from the host.
use vstd::prelude::*;
use crate::table::Table;

verus! {

/// Seconds for which audit records are kept visible.
pub const AUDIT_RETENTION_SECONDS: u64 = 31_536_000u64;

/// Seconds after which an unfinished export expires.
pub const EXPORT_EXPIRATION_SECONDS: u64 = 2_073_600u64;

/// Version tag of the encryption scheme of stored exports.
pub const ENCRYPTION_VERSION: u32 = 1u32;

/// The SHA-256 digest of a byte string.
pub uninterp spec fn sha256_spec(data: Seq<u8>) -> Seq<u8>;

/// SHA-256 of `data`, by the `sha2` crate.
#[verifier::external_body]
fn sha256_digest(data: &[u8]) -> (r: [u8; 32])
    ensures
        r@ == sha256_spec(data@),
{
    <sha2::Sha256 as sha2::Digest>::digest(data).into()
}

/// What can go wrong with export requests.
#[derive(Clone, Copy, Debug, PartialEq, Eq, Structural)]
pub enum GdprError {
    AlreadyInitialized,
    NotInitialized,
    Unauthorized,
    ExportRequestNotFound,
    ExportNotReady,
    ExportExpired,
    InvalidRequestId,
    DataRetrievalFailed,
    RateLimitExceeded,
}

/// Progress of an export request.
#[derive(Clone, Copy, Debug, PartialEq, Eq, Structural)]
pub enum ExportStatus {
    Pending,
    Processing,
    Ready,
    Delivered,
    Expired,
}

/// An export as stored by the operator, encrypted.
#[derive(Clone, Debug, PartialEq, Eq)]
pub struct EncryptedExport {
    pub salt: [u8; 32],
    pub key_verification_hash: [u8; 32],
    pub data: Vec<u8>,
    pub data_hash: [u8; 32],
    pub encryption_version: u32,
}

impl EncryptedExport {
    /// Two exports agree field by field, their data byte by byte.
    pub open spec fn same_as(&self, other: &EncryptedExport) -> bool {
        &&& self.salt == other.salt
        &&& self.key_verification_hash == other.key_verification_hash
        &&& self.data@ == other.data@
        &&& self.data_hash == other.data_hash
        &&& self.encryption_version == other.encryption_version
    }

    /// A copy of this export.
    pub fn copied(&self) -> (r: EncryptedExport)
        ensures
            r.same_as(self),
    {
        EncryptedExport {
            salt: self.salt,
            key_verification_hash: self.key_verification_hash,
            data: crate::text::copy_bytes(&self.data),
            data_hash: self.data_hash,
            encryption_version: self.encryption_version,
        }
    }
}

/// A request for an export.
#[derive(Clone, Debug, PartialEq, Eq)]
pub struct ExportRequest {
    pub request_id: u64,
    pub user: String,
    pub requested_at: u64,
    pub status: ExportStatus,
    pub has_data: bool,
    pub data_hash: [u8; 32],
    pub has_hash: bool,
    pub encrypted_export: EncryptedExport,
}

/// One line of a user's audit trail.
#[derive(Clone, Copy, Debug, PartialEq, Eq)]
pub struct ExportRecord {
    pub request_id: u64,
    pub requested_at: u64,
    pub delivered_at: u64,
    pub data_hash: [u8; 32],
}

/// Community activity included in a user's export.
#[derive(Clone, Copy, Debug, PartialEq, Eq, Structural)]
pub struct CommunityExport {
    pub posts_count: u32,
    pub replies_count: u32,
    pub solutions_count: u32,
    pub reputation_score: u32,
}

/// Gamification standing included in a user's export.
#[derive(Clone, Copy, Debug, PartialEq, Eq, Structural)]
pub struct GamificationExport {
    pub xp_total: u64,
    pub level: u32,
    pub achievements_count: u32,
    pub guild_id: u64,
    pub has_guild: bool,
    pub endorsements_count: u32,
}

/// The persisted state of the export contract.
pub struct GdprState {
    pub admin: Option<String>,
    pub initialized: bool,
    pub request_counter: u64,
    pub encryption_key: [u8; 32],
    pub progress_contract: Option<String>,
    pub certificate_contract: Option<String>,
    pub assessment_contract: Option<String>,
    pub analytics_contract: Option<String>,
    pub community_contract: Option<String>,
    pub gamification_contract: Option<String>,
    pub requests: Vec<ExportRequest>,
    pub audit_trails: Table<Vec<ExportRecord>>,
}

/// Thirty-two zero bytes.
pub open spec fn zero_bytes() -> Seq<u8> {
    Seq::new(32, |i: int| 0u8)
}

/// The request stored under `id`; the latest one wins.
pub open spec fn request_with_id(l: Seq<ExportRequest>, id: u64) -> Option<ExportRequest>
    decreases l.len(),
{
    if l.len() == 0 {
        None
    } else if l.last().request_id == id {
        Some(l.last())
    } else {
        request_with_id(l.drop_last(), id)
    }
}

/// What asking for the status of export `id` as `user` at `now` gives.
pub open spec fn export_status_outcome(l: Seq<ExportRequest>, user: Seq<char>, id: u64, now: u64) -> Result<
    ExportStatus,
    GdprError,
> {
    match request_with_id(l, id) {
        None => Err(GdprError::ExportRequestNotFound),
        Some(q) => if q.user@ != user {
            Err(GdprError::Unauthorized)
        } else if expired_while_processing(q, now) {
            Ok(ExportStatus::Expired)
        } else {
            Ok(q.status)
        },
    }
}

/// Why fetching export `id` as `user` at `now` fails, or `None` when it
/// hands out the stored export.
pub open spec fn export_fetch_error(l: Seq<ExportRequest>, user: Seq<char>, id: u64, now: u64) -> Option<GdprError> {
    match request_with_id(l, id) {
        None => Some(GdprError::ExportRequestNotFound),
        Some(q) => if q.user@ != user {
            Some(GdprError::Unauthorized)
        } else if expired_while_processing(q, now) {
            Some(GdprError::ExportExpired)
        } else if q.status != ExportStatus::Ready {
            Some(GdprError::ExportNotReady)
        } else if q.encrypted_export.data@.len() == 0 {
            Some(GdprError::DataRetrievalFailed)
        } else {
            None
        },
    }
}

/// What checking the integrity of export `id` for `user` gives: the request must
/// exist, belong to `user` and hold a digest and data; the answer is whether the
/// digest is the data's SHA-256.
pub open spec fn integrity_outcome(l: Seq<ExportRequest>, user: Seq<char>, id: u64) -> Result<bool, GdprError> {
    match request_with_id(l, id) {
        None => Err(GdprError::ExportRequestNotFound),
        Some(q) => if q.user@ != user {
            Err(GdprError::Unauthorized)
        } else if !q.has_hash || q.encrypted_export.data@.len() == 0 {
            Err(GdprError::DataRetrievalFailed)
        } else {
            Ok(q.encrypted_export.data_hash@ == sha256_spec(q.encrypted_export.data@))
        },
    }
}

/// The audit records of a user, none if nothing was recorded.
pub open spec fn trail_of(t: Map<Seq<char>, Vec<ExportRecord>>, user: Seq<char>) -> Seq<ExportRecord> {
    if t.contains_key(user) {
        t[user]@
    } else {
        Seq::empty()
    }
}

/// `after` is `before` with the first record of request `id` replaced by `f` of it,
/// or `before` itself when no record has that id.
pub open spec fn first_record_updated(
    before: Seq<ExportRecord>,
    after: Seq<ExportRecord>,
    id: u64,
    f: spec_fn(ExportRecord) -> ExportRecord,
) -> bool {
    ||| (forall|k: int| 0 <= k < before.len() ==> (#[trigger] before[k]).request_id != id) && after == before
    ||| exists|j: int|
        #![trigger before[j]]
        0 <= j < before.len() && before[j].request_id == id && (forall|k: int|
            0 <= k < j ==> (#[trigger] before[k]).request_id != id) && after == before.update(j, f(before[j]))
}

/// The export of a request that the operator has not stored yet.
pub open spec fn is_empty_export(e: EncryptedExport) -> bool {
    &&& e.salt@ == zero_bytes()
    &&& e.key_verification_hash@ == zero_bytes()
    &&& e.data@.len() == 0
    &&& e.data_hash@ == zero_bytes()
    &&& e.encryption_version == 0
}

/// The request is past its expiry time while still being processed.
pub open spec fn expired_while_processing(r: ExportRequest, now: u64) -> bool {
    r.status == ExportStatus::Processing && now > r.requested_at + EXPORT_EXPIRATION_SECONDS
}

/// Index of the latest request with id `id`.
fn find_request(l: &Vec<ExportRequest>, id: u64) -> (r: Option<usize>)
    ensures
        match r {
            Some(i) => i < l@.len() && l@[i as int].request_id == id && request_with_id(l@, id) == Some(
                l@[i as int],
            ) && forall|k: int|
                i < k < l@.len() ==> (#[trigger] l@[k]).request_id != id,
            None => request_with_id(l@, id) is None,
        },
{
    let mut i: usize = l.len();
    assert(l@.subrange(0, i as int) =~= l@);
    while i > 0
        invariant
            i <= l@.len(),
            request_with_id(l@.subrange(0, i as int), id) == request_with_id(l@, id),
            forall|k: int| i <= k < l@.len() ==> (#[trigger] l@[k]).request_id != id,
        decreases i,
    {
        assert(l@.subrange(0, i as int).drop_last() =~= l@.subrange(0, i - 1));
        if l[i - 1].request_id == id {
            assert(l@.subrange(0, i as int).last() == l@[i - 1]);
            return Some(i - 1);
        }
        i -= 1;
    }
    None
}

/// Replacing the latest request of an id by another with that id is what lookups see.
proof fn lemma_request_replaced(l: Seq<ExportRequest>, i: int, x: ExportRequest, m: u64)
    requires
        0 <= i < l.len(),
        x.request_id == l[i].request_id,
        forall|k: int| i < k < l.len() ==> (#[trigger] l[k]).request_id != l[i].request_id,
    ensures
        request_with_id(l.update(i, x), m) == if m == x.request_id {
            Some(x)
        } else {
            request_with_id(l, m)
        },
    decreases l.len(),
{
    if i < l.len() - 1 {
        assert(l.update(i, x).drop_last() =~= l.drop_last().update(i, x));
        assert(l[l.len() - 1].request_id != l[i].request_id);
        lemma_request_replaced(l.drop_last(), i, x, m);
    } else {
        assert(l.update(i, x).drop_last() =~= l.drop_last());
    }
}

/// Entry points of the export contract.
pub struct GdprContract;

impl GdprContract {
    /// A state in which nothing has happened yet.
    pub fn new_state() -> (st: GdprState)
        ensures
            st.audit_trails.wf(),
            !st.initialized,
            st.requests@.len() == 0,
            st.request_counter == 0,
            st.audit_trails@ == Map::<Seq<char>, Vec<ExportRecord>>::empty(),
            st.admin is None,
            st.encryption_key@ == zero_bytes(),
            st.progress_contract is None,
            st.certificate_contract is None,
            st.assessment_contract is None,
            st.analytics_contract is None,
            st.community_contract is None,
            st.gamification_contract is None,
    {
        GdprState {
            admin: None,
            initialized: false,
            request_counter: 0,
            encryption_key: [0u8; 32],
            progress_contract: None,
            certificate_contract: None,
            assessment_contract: None,
            analytics_contract: None,
            community_contract: None,
            gamification_contract: None,
            requests: Vec::new(),
            audit_trails: Table::new(),
        }
    }

    /// Sets up the contract once.
    pub fn initialize(st: &mut GdprState, admin: String) -> (r: Result<(), GdprError>)
        ensures
            old(st).initialized ==> r == Err::<(), GdprError>(GdprError::AlreadyInitialized) && *final(st)
                == *old(st),
            !old(st).initialized ==> r is Ok && *final(st) == (GdprState {
                admin: Some(admin),
                initialized: true,
                request_counter: 0,
                encryption_key: final(st).encryption_key,
                ..*old(st)
            }) && final(st).encryption_key@ == zero_bytes(),
    {
        if st.initialized {
            return Err(GdprError::AlreadyInitialized);
        }
        st.admin = Some(admin);
        st.initialized = true;
        st.request_counter = 0;
        st.encryption_key = [0u8; 32];
        assert(st.encryption_key@ =~= zero_bytes());
        Ok(())
    }

    /// Replaces the encryption key.
    pub fn set_encryption_key(st: &mut GdprState, key: [u8; 32]) -> (r: Result<(), GdprError>)
        ensures
            r is Ok,
            *final(st) == (GdprState { encryption_key: key, ..*old(st) }),
    {
        st.encryption_key = key;
        Ok(())
    }

    /// Records the contracts that hold the user's data.
    pub fn set_data_contracts(
        st: &mut GdprState,
        progress: String,
        certificate: String,
        assessment: String,
        analytics: String,
        community: String,
        gamification: String,
    ) -> (r: Result<(), GdprError>)
        ensures
            r is Ok,
            *final(st) == (GdprState {
                progress_contract: Some(progress),
                certificate_contract: Some(certificate),
                assessment_contract: Some(assessment),
                analytics_contract: Some(analytics),
                community_contract: Some(community),
                gamification_contract: Some(gamification),
                ..*old(st)
            }),
    {
        st.progress_contract = Some(progress);
        st.certificate_contract = Some(certificate);
        st.assessment_contract = Some(assessment);
        st.analytics_contract = Some(analytics);
        st.community_contract = Some(community);
        st.gamification_contract = Some(gamification);
        Ok(())
    }

    /// Opens a new export request in processing and records it in the user's audit trail.
    pub fn request_export(st: &mut GdprState, user: &String, now: u64) -> (r: Result<u64, GdprError>)
        requires
            old(st).audit_trails.wf(),
            old(st).request_counter < u64::MAX,
        ensures
            final(st).audit_trails.wf(),
            ({
                let id = (old(st).request_counter + 1) as u64;
                &&& r == Ok::<u64, GdprError>(id)
                &&& final(st).request_counter == id
                &&& final(st).requests@.len() == old(st).requests@.len() + 1
                &&& final(st).requests@.drop_last() == old(st).requests@
                &&& final(st).requests@.last().request_id == id
                &&& final(st).requests@.last().user == *user
                &&& final(st).requests@.last().requested_at == now
                &&& final(st).requests@.last().status == ExportStatus::Processing
                &&& !final(st).requests@.last().has_data
                &&& !final(st).requests@.last().has_hash
                &&& final(st).requests@.last().data_hash@ == zero_bytes()
                &&& is_empty_export(final(st).requests@.last().encrypted_export)
                &&& final(st).audit_trails@.remove(user@) == old(st).audit_trails@.remove(user@)
                &&& final(st).audit_trails@.contains_key(user@)
                &&& final(st).audit_trails@[user@]@.len() == trail_of(old(st).audit_trails@, user@).len() + 1
                &&& final(st).audit_trails@[user@]@.drop_last() == trail_of(old(st).audit_trails@, user@)
                &&& final(st).audit_trails@[user@]@.last().request_id == id
                &&& final(st).audit_trails@[user@]@.last().requested_at == now
                &&& final(st).audit_trails@[user@]@.last().delivered_at == 0
                &&& final(st).audit_trails@[user@]@.last().data_hash@ == zero_bytes()
                &&& *final(st) == (GdprState {
                    request_counter: final(st).request_counter,
                    requests: final(st).requests,
                    audit_trails: final(st).audit_trails,
                    ..*old(st)
                })
            }),
    {
        let next_id = st.request_counter + 1;
        st.request_counter = next_id;
        let request = ExportRequest {
            request_id: next_id,
            user: user.clone(),
            requested_at: now,
            status: ExportStatus::Processing,
            has_data: false,
            data_hash: [0u8; 32],
            has_hash: false,
            encrypted_export: EncryptedExport {
                salt: [0u8; 32],
                key_verification_hash: [0u8; 32],
                data: Vec::new(),
                data_hash: [0u8; 32],
                encryption_version: 0,
            },
        };
        assert(request.data_hash@ =~= zero_bytes());
        assert(request.encrypted_export.salt@ =~= zero_bytes());
        st.requests.push(request);
        assert(st.requests@.drop_last() =~= old(st).requests@);
        let mut trail = match st.audit_trails.take(user) {
            Some(t) => t,
            None => Vec::new(),
        };
        let ghost before = trail@;
        let record = ExportRecord { request_id: next_id, requested_at: now, delivered_at: 0, data_hash: [0u8; 32] };
        assert(record.data_hash@ =~= zero_bytes());
        trail.push(record);
        assert(trail@.drop_last() =~= before);
        st.audit_trails.insert(user.clone(), trail);
        assert(st.audit_trails@.remove(user@) =~= old(st).audit_trails@.remove(user@));
        Ok(next_id)
    }

    /// Status of a request as its owner sees it; a request still processing past
    /// its expiry reads as expired.
    pub fn get_export_status(st: &GdprState, user: &String, request_id: u64, now: u64) -> (r: Result<
        ExportStatus,
        GdprError,
    >)
        requires
            request_with_id(st.requests@, request_id) matches Some(q) ==> q.requested_at
                <= u64::MAX - EXPORT_EXPIRATION_SECONDS,
        ensures
            r == export_status_outcome(st.requests@, user@, request_id, now),
    {
        let i = match find_request(&st.requests, request_id) {
            Some(i) => i,
            None => {
                return Err(GdprError::ExportRequestNotFound);
            },
        };
        let request = &st.requests[i];
        if request.user != *user {
            return Err(GdprError::Unauthorized);
        }
        if request.status == ExportStatus::Processing {
            let expiration = request.requested_at + EXPORT_EXPIRATION_SECONDS;
            if now > expiration {
                return Ok(ExportStatus::Expired);
            }
        }
        Ok(request.status)
    }

    /// The stored export, for its owner, once ready.
    pub fn get_encrypted_export(st: &GdprState, user: &String, request_id: u64, now: u64) -> (r: Result<
        EncryptedExport,
        GdprError,
    >)
        requires
            request_with_id(st.requests@, request_id) matches Some(q) ==> q.requested_at
                <= u64::MAX - EXPORT_EXPIRATION_SECONDS,
        ensures
            match export_fetch_error(st.requests@, user@, request_id, now) {
                Some(e) => r == Err::<EncryptedExport, GdprError>(e),
                None => r matches Ok(e) && e.same_as(&request_with_id(st.requests@, request_id)->0.encrypted_export),
            },
    {
        let i = match find_request(&st.requests, request_id) {
            Some(i) => i,
            None => {
                return Err(GdprError::ExportRequestNotFound);
            },
        };
        let request = &st.requests[i];
        if request.user != *user {
            return Err(GdprError::Unauthorized);
        }
        if request.status == ExportStatus::Processing {
            let expiration = request.requested_at + EXPORT_EXPIRATION_SECONDS;
            if now > expiration {
                return Err(GdprError::ExportExpired);
            }
        }
        if request.status != ExportStatus::Ready {
            return Err(GdprError::ExportNotReady);
        }
        if request.encrypted_export.data.len() == 0 {
            return Err(GdprError::DataRetrievalFailed);
        }
        Ok(request.encrypted_export.copied())
    }

    /// Stores the encrypted export of a request still processing and marks it ready;
    /// a request past its expiry is marked expired instead.
    pub fn store_encrypted_export(
        st: &mut GdprState,
        request_id: u64,
        salt: [u8; 32],
        key_verification_hash: [u8; 32],
        encrypted_data: Vec<u8>,
        data_hash: [u8; 32],
        now: u64,
    ) -> (r: Result<(), GdprError>)
        requires
            old(st).audit_trails.wf(),
            request_with_id(old(st).requests@, request_id) matches Some(q) ==> q.requested_at
                <= u64::MAX - EXPORT_EXPIRATION_SECONDS,
        ensures
            final(st).audit_trails.wf(),
            match request_with_id(old(st).requests@, request_id) {
                None => r == Err::<(), GdprError>(GdprError::ExportRequestNotFound) && *final(st) == *old(st),
                Some(q) => if q.status != ExportStatus::Processing {
                    r == Err::<(), GdprError>(GdprError::ExportNotReady) && *final(st) == *old(st)
                } else if now > q.requested_at + EXPORT_EXPIRATION_SECONDS {
                    &&& r == Err::<(), GdprError>(GdprError::ExportExpired)
                    &&& request_with_id(final(st).requests@, request_id) == Some(
                        ExportRequest { status: ExportStatus::Expired, ..q },
                    )
                    &&& forall|m: u64| m != request_id ==> request_with_id(final(st).requests@, m)
                        == request_with_id(old(st).requests@, m)
                    &&& *final(st) == (GdprState { requests: final(st).requests, ..*old(st) })
                } else {
                    &&& r is Ok
                    &&& request_with_id(final(st).requests@, request_id) == Some(
                        ExportRequest {
                            encrypted_export: EncryptedExport {
                                salt,
                                key_verification_hash,
                                data: encrypted_data,
                                data_hash,
                                encryption_version: ENCRYPTION_VERSION,
                            },
                            has_hash: true,
                            status: ExportStatus::Ready,
                            ..q
                        },
                    )
                    &&& forall|m: u64| m != request_id ==> request_with_id(final(st).requests@, m)
                        == request_with_id(old(st).requests@, m)
                    &&& final(st).audit_trails@.remove(q.user@) == old(st).audit_trails@.remove(q.user@)
                    &&& final(st).audit_trails@.contains_key(q.user@)
                    &&& first_record_updated(
                        trail_of(old(st).audit_trails@, q.user@),
                        final(st).audit_trails@[q.user@]@,
                        request_id,
                        |x: ExportRecord| ExportRecord { delivered_at: 0, data_hash, ..x },
                    )
                    &&& *final(st) == (GdprState {
                        requests: final(st).requests,
                        audit_trails: final(st).audit_trails,
                        ..*old(st)
                    })
                },
            },
    {
        let i = match find_request(&st.requests, request_id) {
            Some(i) => i,
            None => {
                return Err(GdprError::ExportRequestNotFound);
            },
        };
        if st.requests[i].status != ExportStatus::Processing {
            return Err(GdprError::ExportNotReady);
        }
        let ghost q = st.requests@[i as int];
        let mut request = st.requests.remove(i);
        let expiration = request.requested_at + EXPORT_EXPIRATION_SECONDS;
        if now > expiration {
            request.status = ExportStatus::Expired;
            let ghost x = request;
            st.requests.insert(i, request);
            proof {
                assert(st.requests@ =~= old(st).requests@.update(i as int, x));
                assert forall|m: u64| true implies request_with_id(st.requests@, m) == if m == request_id {
                    Some(x)
                } else {
                    request_with_id(old(st).requests@, m)
                } by {
                    lemma_request_replaced(old(st).requests@, i as int, x, m);
                }
            }
            return Err(GdprError::ExportExpired);
        }
        request.encrypted_export = EncryptedExport {
            salt,
            key_verification_hash,
            data: encrypted_data,
            data_hash,
            encryption_version: ENCRYPTION_VERSION,
        };
        request.has_hash = true;
        request.status = ExportStatus::Ready;
        let owner = request.user.clone();
        let ghost x = request;
        st.requests.insert(i, request);
        proof {
            assert(st.requests@ =~= old(st).requests@.update(i as int, x));
            assert forall|m: u64| true implies request_with_id(st.requests@, m) == if m == request_id {
                Some(x)
            } else {
                request_with_id(old(st).requests@, m)
            } by {
                lemma_request_replaced(old(st).requests@, i as int, x, m);
            }
        }
        update_audit_trail_with_hash(&mut st.audit_trails, &owner, request_id, data_hash);
        Ok(())
    }

    /// Whether the stored export matches its recorded digest, for its owner.
    pub fn verify_export_integrity(st: &GdprState, user: &String, request_id: u64) -> (r: Result<
        bool,
        GdprError,
    >)
        ensures
            r == integrity_outcome(st.requests@, user@, request_id),
    {
        let i = match find_request(&st.requests, request_id) {
            Some(i) => i,
            None => {
                return Err(GdprError::ExportRequestNotFound);
            },
        };
        let request = &st.requests[i];
        if request.user != *user {
            return Err(GdprError::Unauthorized);
        }
        if !request.has_hash || request.encrypted_export.data.len() == 0 {
            return Err(GdprError::DataRetrievalFailed);
        }
        let computed = sha256_digest(request.encrypted_export.data.as_slice());
        Ok(same_digest(&request.encrypted_export.data_hash, &computed))
    }

    /// The salt of the stored export, for its owner.
    pub fn get_export_salt(st: &GdprState, user: &String, request_id: u64) -> (r: Result<[u8; 32], GdprError>)
        ensures
            match request_with_id(st.requests@, request_id) {
                None => r == Err::<[u8; 32], GdprError>(GdprError::ExportRequestNotFound),
                Some(q) => if q.user@ != user@ {
                    r == Err::<[u8; 32], GdprError>(GdprError::Unauthorized)
                } else {
                    r == Ok::<[u8; 32], GdprError>(q.encrypted_export.salt)
                },
            },
    {
        let i = match find_request(&st.requests, request_id) {
            Some(i) => i,
            None => {
                return Err(GdprError::ExportRequestNotFound);
            },
        };
        let request = &st.requests[i];
        if request.user != *user {
            return Err(GdprError::Unauthorized);
        }
        Ok(request.encrypted_export.salt)
    }

    /// The user's audit records requested within the retention period, oldest first.
    pub fn get_audit_trail(st: &GdprState, user: &String, now: u64) -> (r: Result<Vec<ExportRecord>, GdprError>)
        requires
            st.audit_trails.wf(),
        ensures
            r matches Ok(v) && v@ == trail_of(st.audit_trails@, user@).filter(
                |x: ExportRecord| x.requested_at >= retention_cutoff(now),
            ),
    {
        let cutoff = now.saturating_sub(AUDIT_RETENTION_SECONDS);
        let mut filtered: Vec<ExportRecord> = Vec::new();
        match st.audit_trails.get(user) {
            None => {
                proof {
                    reveal(Seq::filter);
                }
                assert(Seq::<ExportRecord>::empty().filter(|x: ExportRecord| x.requested_at >= cutoff)
                    =~= Seq::<ExportRecord>::empty());
            },
            Some(all) => {
                let ghost s = all@;
                let mut i: usize = 0;
                while i < all.len()
                    invariant
                        i <= s.len(),
                        all@ == s,
                        cutoff == retention_cutoff(now),
                        filtered@ == s.subrange(0, i as int).filter(|x: ExportRecord| x.requested_at >= cutoff),
                    decreases s.len() - i,
                {
                    let rec = all[i];
                    proof {
                        reveal(Seq::filter);
                    }
                    assert(s.subrange(0, i + 1).drop_last() =~= s.subrange(0, i as int));
                    if rec.requested_at >= cutoff {
                        filtered.push(rec);
                    }
                    i += 1;
                }
                assert(s.subrange(0, s.len() as int) =~= s);
            },
        }
        Ok(filtered)
    }
}

/// Earliest request time still shown in an audit trail.
pub open spec fn retention_cutoff(now: u64) -> u64 {
    if now >= AUDIT_RETENTION_SECONDS { (now - AUDIT_RETENTION_SECONDS) as u64 } else { 0 }
}

/// Whether two digests are equal.
fn same_digest(a: &[u8; 32], b: &[u8; 32]) -> (r: bool)
    ensures
        r == (a@ == b@),
{
    let mut i: usize = 0;
    while i < 32
        invariant
            i <= 32,
            a@.len() == 32,
            b@.len() == 32,
            forall|j: int| 0 <= j < i ==> a@[j] == b@[j],
        decreases 32 - i,
    {
        if a[i] != b[i] {
            return false;
        }
        i += 1;
    }
    assert(a@ =~= b@);
    true
}

/// Index of the first record of request `id`.
fn first_record_index(l: &Vec<ExportRecord>, id: u64) -> (r: Option<usize>)
    ensures
        match r {
            Some(j) => j < l@.len() && l@[j as int].request_id == id && forall|k: int|
                0 <= k < j ==> (#[trigger] l@[k]).request_id != id,
            None => forall|k: int| 0 <= k < l@.len() ==> (#[trigger] l@[k]).request_id != id,
        },
{
    let mut i: usize = 0;
    while i < l.len()
        invariant
            i <= l@.len(),
            forall|k: int| 0 <= k < i ==> (#[trigger] l@[k]).request_id != id,
        decreases l@.len() - i,
    {
        if l[i].request_id == id {
            return Some(i);
        }
        i += 1;
    }
    None
}

/// Replaces, in the first audit record of the request, the digest and clears its delivery time.
fn update_audit_trail_with_hash(t: &mut Table<Vec<ExportRecord>>, user: &String, request_id: u64, data_hash: [u8; 32])
    requires
        old(t).wf(),
    ensures
        final(t).wf(),
        final(t)@.remove(user@) == old(t)@.remove(user@),
        final(t)@.contains_key(user@),
        first_record_updated(
            trail_of(old(t)@, user@),
            final(t)@[user@]@,
            request_id,
            |x: ExportRecord| ExportRecord { delivered_at: 0, data_hash, ..x },
        ),
{
    let mut trail = match t.take(user) {
        Some(l) => l,
        None => Vec::new(),
    };
    let ghost before = trail@;
    match first_record_index(&trail, request_id) {
        Some(i) => {
            let old_rec = trail[i];
            let _ = trail.remove(i);
            trail.insert(
                i,
                ExportRecord {
                    request_id: old_rec.request_id,
                    requested_at: old_rec.requested_at,
                    delivered_at: 0,
                    data_hash,
                },
            );
            assert(trail@ =~= before.update(i as int, ExportRecord { delivered_at: 0, data_hash, ..before[i as int] }));
        },
        None => {},
    }
    t.insert(user.clone(), trail);
    assert(t@.remove(user@) =~= old(t)@.remove(user@));
}

/// Sets, in the first audit record of the request, the delivery time to `now`.
fn update_audit_trail_delivered(t: &mut Table<Vec<ExportRecord>>, user: &String, request_id: u64, now: u64)
    requires
        old(t).wf(),
    ensures
        final(t).wf(),
        final(t)@.remove(user@) == old(t)@.remove(user@),
        final(t)@.contains_key(user@),
        first_record_updated(
            trail_of(old(t)@, user@),
            final(t)@[user@]@,
            request_id,
            |x: ExportRecord| ExportRecord { delivered_at: now, ..x },
        ),
{
    let mut trail = match t.take(user) {
        Some(l) => l,
        None => Vec::new(),
    };
    let ghost before = trail@;
    match first_record_index(&trail, request_id) {
        Some(i) => {
            let old_rec = trail[i];
            let _ = trail.remove(i);
            trail.insert(
                i,
                ExportRecord {
                    request_id: old_rec.request_id,
                    requested_at: old_rec.requested_at,
                    delivered_at: now,
                    data_hash: old_rec.data_hash,
                },
            );
            assert(trail@ =~= before.update(i as int, ExportRecord { delivered_at: now, ..before[i as int] }));
        },
        None => {},
    }
    t.insert(user.clone(), trail);
    assert(t@.remove(user@) =~= old(t)@.remove(user@));
}

} // verus!
