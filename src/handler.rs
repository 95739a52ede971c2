//! Classification of keys, derivation of settlement files, and copy requests.

use crate::patterns::{
    dir_rule, extension_of, extension_rule, has_extension, has_tenant_prefix, is_excluded_dir,
    is_streamable, pattern_compiles, pattern_is_match, streamable_rule, tenant_of, tenant_rule,
    Pattern,
};
use crate::types::{tag_name, tag_value, Cli, Metadata, SettlementFile};
use uuid::Uuid;
use vstd::prelude::*;
use vstd::string::{StrSliceExecFns, StringExecFns};

verus! {

/// `p` occurs in `s` at index `i`.
pub open spec fn occurs_at(s: Seq<char>, p: Seq<char>, i: int) -> bool {
    0 <= i && i + p.len() <= s.len() && s.subrange(i, i + p.len()) == p
}

/// The first index at or after `i` where `p` occurs in `s`.
pub open spec fn first_occurrence_from(s: Seq<char>, p: Seq<char>, i: int) -> Option<int>
    decreases s.len() + 1 - i,
{
    if i < 0 || i + p.len() > s.len() {
        None
    } else if occurs_at(s, p, i) {
        Some(i)
    } else {
        first_occurrence_from(s, p, i + 1)
    }
}

/// `s` with the first occurrence of `p` taken out.
pub open spec fn remove_first_spec(s: Seq<char>, p: Seq<char>) -> Seq<char> {
    match first_occurrence_from(s, p, 0) {
        Some(i) => s.subrange(0, i) + s.subrange(i + p.len(), s.len() as int),
        None => s,
    }
}

/// The backup name: the extension's first occurrence removed, then suffix and extension appended.
pub open spec fn backup_name(k: Seq<char>, suffix: Seq<char>) -> Seq<char> {
    remove_first_spec(k, extension_of(k)) + suffix + extension_of(k)
}

/// A key passes the three structural gates.
pub open spec fn structurally_eligible(k: Seq<char>) -> bool {
    has_extension(k) && has_tenant_prefix(k) && !is_excluded_dir(k)
}

/// A key passes the structural gates and, when one is given, the user's pattern.
pub open spec fn eligible(k: Seq<char>, user: Option<Seq<char>>) -> bool {
    structurally_eligible(k) && match user {
        None => true,
        Some(p) => pattern_compiles(p) && pattern_is_match(p, k),
    }
}

/// The text of an optional string.
pub open spec fn opt_view(o: Option<String>) -> Option<Seq<char>> {
    match o {
        Some(s) => Some(s@),
        None => None,
    }
}

/// `true` or `false`, as text.
pub open spec fn bool_text(b: bool) -> Seq<char> {
    if b {
        "true"@
    } else {
        "false"@
    }
}

/// Relies on uuid::Uuid::new_v4 and its hyphenated text form, 36 characters long.
#[verifier::external_body]
fn new_correlation_id() -> (r: String)
    ensures
        r@.len() == 36,
{
    Uuid::new_v4().to_string()
}

fn occurs_at_exec(s: &str, p: &str, i: usize, n: usize, m: usize) -> (r: bool)
    requires
        n == s@.len(),
        m == p@.len(),
        m <= n,
        i <= n - m,
    ensures
        r == occurs_at(s@, p@, i as int),
{
    let mut j: usize = 0;
    while j < m
        invariant
            j <= m,
            m <= n,
            i <= n - m,
            n == s@.len(),
            m == p@.len(),
            forall|jj: int| 0 <= jj < j ==> s@[i + jj] == p@[jj],
        decreases m - j,
    {
        if s.get_char(i + j) != p.get_char(j) {
            assert(s@.subrange(i as int, i + m)[j as int] != p@[j as int]);
            return false;
        }
        j += 1;
    }
    assert(s@.subrange(i as int, i + m) =~= p@);
    true
}

/// `s` with the first occurrence of `p` taken out; `s` itself where `p` does not occur.
pub fn remove_first(s: &str, p: &str) -> (r: String)
    ensures
        r@ == remove_first_spec(s@, p@),
{
    let n = s.unicode_len();
    let m = p.unicode_len();
    if m > n {
        return String::from_str(s);
    }
    let mut i: usize = 0;
    loop
        invariant
            m <= n,
            n == s@.len(),
            m == p@.len(),
            i <= n - m,
            first_occurrence_from(s@, p@, 0) == first_occurrence_from(s@, p@, i as int),
        ensures
            first_occurrence_from(s@, p@, 0) is None,
        decreases n - m - i,
    {
        if occurs_at_exec(s, p, i, n, m) {
            let head = s.substring_char(0, i);
            let tail = s.substring_char(i + m, n);
            return String::from_str(head).concat(tail);
        }
        if i == n - m {
            assert(first_occurrence_from(s@, p@, i + 1) is None);
            assert(first_occurrence_from(s@, p@, i as int) == first_occurrence_from(
                s@,
                p@,
                i + 1,
            ));
            break;
        }
        i += 1;
    }
    String::from_str(s)
}

/// Classifies keys and derives what the copy of each eligible one needs.
pub struct Handler {
    file_suffix: String,
    page_size: i32,
    extension_pattern: Pattern,
    tenant_pattern: Pattern,
    streamable_pattern: Pattern,
    dir_pattern: Pattern,
}

impl Handler {
    /// The four compiled patterns are the structural rules.
    pub closed spec fn wf(&self) -> bool {
        &&& self.extension_pattern.source() == extension_rule()
        &&& self.tenant_pattern.source() == tenant_rule()
        &&& self.streamable_pattern.source() == streamable_rule()
        &&& self.dir_pattern.source() == dir_rule()
        &&& self.page_size == 10
    }

    /// The suffix put before the extension of each backup name.
    pub closed spec fn suffix(&self) -> Seq<char> {
        self.file_suffix@
    }

    /// Compiles the structural rules; backup names get `file_suffix`.
    pub fn new(file_suffix: &str) -> (r: Handler)
        ensures
            r.wf(),
            r.suffix() == file_suffix@,
    {
        proof {
            reveal_strlit("\\..{3}$");
            reveal_strlit("(?i)^tn-[^/]+");
            reveal_strlit("(?i).*(baseii|t112|t120|t470|t464).*");
            reveal_strlit(".*/&");
            assert("\\..{3}$"@ =~= extension_rule());
            assert("(?i)^tn-[^/]+"@ =~= tenant_rule());
            assert("(?i).*(baseii|t112|t120|t470|t464).*"@ =~= streamable_rule());
            assert(".*/&"@ =~= dir_rule());
        }
        Handler {
            file_suffix: String::from_str(file_suffix),
            page_size: 10,
            extension_pattern: Pattern::new("\\..{3}$").unwrap(),
            tenant_pattern: Pattern::new("(?i)^tn-[^/]+").unwrap(),
            streamable_pattern: Pattern::new("(?i).*(baseii|t112|t120|t470|t464).*").unwrap(),
            dir_pattern: Pattern::new(".*/&").unwrap(),
        }
    }

    /// How many keys one listing page asks for.
    pub fn page_size(&self) -> (r: i32)
        requires
            self.wf(),
        ensures
            r == 10,
    {
        self.page_size
    }

    /// Whether `obj_key` is eligible: structural gates first, then the user's pattern if any.
    /// A user pattern that does not compile matches nothing.
    pub fn filter(&self, obj_key: &str, regex: &Option<String>) -> (r: bool)
        requires
            self.wf(),
        ensures
            r == eligible(obj_key@, opt_view(*regex)),
    {
        if !self.extension_pattern.is_match(obj_key) || !self.tenant_pattern.is_match(obj_key)
            || self.dir_pattern.is_match(obj_key) {
            return false;
        }
        match regex {
            None => true,
            Some(p) => match Pattern::new(p.as_str()) {
                Ok(user) => user.is_match(obj_key),
                Err(_) => false,
            },
        }
    }
}


/// `sf` is the settlement file of `key`, found by `endpoint` in `bucket`, whose backup name
/// gets `suffix`; everything but the correlation id is fixed by these.
pub open spec fn settlement_for(
    sf: SettlementFile,
    endpoint: Seq<char>,
    bucket: Seq<char>,
    key: Seq<char>,
    suffix: Seq<char>,
) -> bool {
    &&& sf.wf()
    &&& sf.bucket@ == bucket
    &&& tag_value(sf.source_file) == key
    &&& tag_value(sf.backup_file) == backup_name(key, suffix)
    &&& tag_value(sf.tenant) == tenant_of(key)
    &&& tag_value(sf.streamable) == bool_text(is_streamable(key))
    &&& tag_value(sf.endpoint) == endpoint
}

/// A copy of one settlement file, ready to be sent to the store.
pub struct CopyRequest {
    /// `bucket/source key`.
    pub copy_source: String,
    pub bucket: String,
    /// The backup key the copy is stored under.
    pub key: String,
    /// The copy replaces the source's metadata instead of inheriting it.
    pub replace_metadata: bool,
    /// Tag names and values, in order.
    pub metadata: Vec<(String, String)>,
    /// Key for server-side encryption, when the file needs it.
    pub kms_key: Option<String>,
}

/// Why one object was not copied.
pub enum CopyError {
    /// A streamable file, and no encryption key configured.
    MissingEncryptionKey,
    /// The store refused or failed the copy, or did not acknowledge it.
    CopyFailed(String),
}

/// The text of name/value pairs.
pub open spec fn pairs_view(v: Seq<(String, String)>) -> Seq<(Seq<char>, Seq<char>)> {
    v.map_values(|p: (String, String)| (p.0@, p.1@))
}

/// `req` copies `sf` onto its backup key with its six tags, encrypted with `kms` when streamable.
pub open spec fn request_for(req: CopyRequest, sf: SettlementFile, kms: Option<Seq<char>>) -> bool {
    &&& req.copy_source@ == sf.bucket@ + "/"@ + tag_value(sf.source_file)
    &&& req.bucket@ == sf.bucket@
    &&& req.key@ == tag_value(sf.backup_file)
    &&& req.replace_metadata
    &&& pairs_view(req.metadata@) == sf.tags()
    &&& opt_view(req.kms_key) == (if sf.is_streamable() {
        kms
    } else {
        None
    })
}

/// What preparing the copy of `sf` gives.
pub open spec fn outcome_for(
    o: Result<CopyRequest, CopyError>,
    sf: SettlementFile,
    kms: Option<Seq<char>>,
) -> bool {
    if sf.is_streamable() && kms is None {
        o matches Err(CopyError::MissingEncryptionKey)
    } else {
        o is Ok && request_for(o->Ok_0, sf, kms)
    }
}

/// The settlement file of `source`, from values already derived from it.
pub fn build_settlement_file(
    bucket: &str,
    source: &str,
    backup: String,
    tenant: String,
    streamable: bool,
    endpoint: &str,
    parent_cid: String,
) -> (r: SettlementFile)
    ensures
        r.wf(),
        r.bucket@ == bucket@,
        tag_value(r.source_file) == source@,
        tag_value(r.backup_file) == backup@,
        tag_value(r.tenant) == tenant@,
        tag_value(r.streamable) == bool_text(streamable),
        tag_value(r.endpoint) == endpoint@,
        tag_value(r.parent_cid) == parent_cid@,
{
    let flag = if streamable {
        String::from_str("true")
    } else {
        String::from_str("false")
    };
    SettlementFile {
        bucket: String::from_str(bucket),
        source_file: Metadata::SourceFile(String::from_str(source)),
        backup_file: Metadata::BackupFile(backup),
        tenant: Metadata::Tenant(tenant),
        streamable: Metadata::Streamable(flag),
        endpoint: Metadata::Endpoint(String::from_str(endpoint)),
        parent_cid: Metadata::ParentCid(parent_cid),
    }
}

/// Prepares the copy of `sf`. A streamable file without an encryption key is refused
/// with `MissingEncryptionKey`; otherwise the request carries the six tags, and the key
/// exactly when the file is streamable.
pub fn copy_request(sf: &SettlementFile, kms_key: &Option<String>) -> (r: Result<
    CopyRequest,
    CopyError,
>)
    requires
        sf.wf(),
    ensures
        outcome_for(r, *sf, opt_view(*kms_key)),
{
    let streamable = match &sf.streamable {
        Metadata::Streamable(v) => v.as_str().unicode_len() == 4 && v.as_str().get_char(0) == 't'
            && v.as_str().get_char(1) == 'r' && v.as_str().get_char(2) == 'u' && v.as_str().get_char(
            3,
        ) == 'e',
        _ => false,
    };
    proof {
        reveal_strlit("true");
        if streamable {
            assert(tag_value(sf.streamable) =~= "true"@);
        }
    }
    let encryption = if streamable {
        match kms_key {
            None => {
                return Err(CopyError::MissingEncryptionKey);
            },
            Some(k) => Some(k.clone()),
        }
    } else {
        None
    };
    let mut metadata: Vec<(String, String)> = Vec::new();
    metadata.push((sf.tenant.name(), sf.tenant.value()));
    metadata.push((sf.endpoint.name(), sf.endpoint.value()));
    metadata.push((sf.source_file.name(), sf.source_file.value()));
    metadata.push((sf.backup_file.name(), sf.backup_file.value()));
    metadata.push((sf.streamable.name(), sf.streamable.value()));
    metadata.push((sf.parent_cid.name(), sf.parent_cid.value()));
    assert(pairs_view(metadata@) =~= sf.tags());
    Ok(
        CopyRequest {
            copy_source: sf.bucket.clone().concat("/").concat(sf.source_file.value().as_str()),
            bucket: sf.bucket.clone(),
            key: sf.backup_file.value(),
            replace_metadata: true,
            metadata,
            kms_key: encryption,
        },
    )
}

/// Judges the store's answer to a copy: `Ok(true)` is an acknowledged copy, `Ok(false)` an
/// answer without a copy result, `Err` the transport's error text.
pub fn copy_outcome(response: Result<bool, String>) -> (r: Result<(), CopyError>)
    ensures
        r is Ok <==> response == Ok::<bool, String>(true),
        r is Err ==> r->Err_0 is CopyFailed,
        response is Err ==> (r matches Err(CopyError::CopyFailed(m)) && m@ == response->Err_0@),
{
    match response {
        Ok(true) => Ok(()),
        Ok(false) => Err(
            CopyError::CopyFailed(
                String::from_str(
                    "Something went wrong copying the object. Use verbose mode (--verbose) for more details",
                ),
            ),
        ),
        Err(e) => Err(CopyError::CopyFailed(e)),
    }
}

impl Handler {
    /// Derives the settlement file of an eligible key: its extension, tenant, streamable
    /// flag, backup name, and a fresh correlation id.
    pub fn to_settlement_file(&self, endpoint: &str, bucket: &str, obj_key: &str) -> (r:
        SettlementFile)
        requires
            self.wf(),
            has_extension(obj_key@),
            has_tenant_prefix(obj_key@),
        ensures
            settlement_for(r, endpoint@, bucket@, obj_key@, self.suffix()),
            tag_value(r.parent_cid).len() == 36,
    {
        let ext = self.extension_pattern.find(obj_key).unwrap();
        let tenant = self.tenant_pattern.find(obj_key).unwrap();
        let streamable = self.streamable_pattern.is_match(obj_key);
        let new_name = remove_first(obj_key, ext.as_str()).concat(self.file_suffix.as_str()).concat(
            ext.as_str(),
        );
        build_settlement_file(
            bucket,
            obj_key,
            new_name,
            tenant,
            streamable,
            endpoint,
            new_correlation_id(),
        )
    }
}


/// The text of a list of keys.
pub open spec fn keys_view(keys: Seq<String>) -> Seq<Seq<char>> {
    keys.map_values(|k: String| k@)
}

/// The eligible keys among `keys`, in their order.
pub open spec fn eligible_keys(keys: Seq<Seq<char>>, user: Option<Seq<char>>) -> Seq<Seq<char>>
    decreases keys.len(),
{
    if keys.len() == 0 {
        seq![]
    } else {
        let rest = eligible_keys(keys.drop_last(), user);
        if eligible(keys.last(), user) {
            rest.push(keys.last())
        } else {
            rest
        }
    }
}

/// What one run decides: the settlement files of the eligible keys and, unless in pretend
/// mode, the prepared copy of each.
pub struct RunPlan {
    /// How many keys the listing returned.
    pub discovered: usize,
    /// One settlement file per eligible key, in listing order.
    pub files: Vec<SettlementFile>,
    /// The prepared copy of each file, at the same index; empty in pretend mode.
    pub outcomes: Vec<Result<CopyRequest, CopyError>>,
}

/// Why a run as a whole failed.
pub enum RunError {
    /// Listing the bucket failed; nothing was copied.
    ListingFailed(String),
}

impl Handler {
    /// Plans a run over the listed `keys`: filters them, derives a settlement file for each
    /// eligible one and, unless `args.pretend`, prepares its copy. The failure of one object
    /// stays in its own outcome.
    pub fn plan(&self, keys: &Vec<String>, args: &Cli) -> (r: RunPlan)
        requires
            self.wf(),
        ensures
            r.discovered == keys@.len(),
            r.files@.len() == eligible_keys(keys_view(keys@), opt_view(args.regex)).len(),
            forall|i: int|
                0 <= i < r.files@.len() ==> settlement_for(
                    #[trigger] r.files@[i],
                    args.endpoint@,
                    args.bucket@,
                    eligible_keys(keys_view(keys@), opt_view(args.regex))[i],
                    self.suffix(),
                ),
            args.pretend ==> r.outcomes@.len() == 0,
            !args.pretend ==> r.outcomes@.len() == r.files@.len(),
            !args.pretend ==> forall|i: int|
                0 <= i < r.outcomes@.len() ==> outcome_for(
                    #[trigger] r.outcomes@[i],
                    r.files@[i],
                    opt_view(args.kms_key),
                ),
    {
        let ghost user = opt_view(args.regex);
        let ghost all = keys_view(keys@);
        let mut files: Vec<SettlementFile> = Vec::new();
        let mut outcomes: Vec<Result<CopyRequest, CopyError>> = Vec::new();
        let mut i: usize = 0;
        while i < keys.len()
            invariant
                self.wf(),
                i <= keys@.len(),
                user == opt_view(args.regex),
                all == keys_view(keys@),
                files@.len() == eligible_keys(all.subrange(0, i as int), user).len(),
                forall|j: int|
                    0 <= j < files@.len() ==> settlement_for(
                        #[trigger] files@[j],
                        args.endpoint@,
                        args.bucket@,
                        eligible_keys(all.subrange(0, i as int), user)[j],
                        self.suffix(),
                    ),
                args.pretend ==> outcomes@.len() == 0,
                !args.pretend ==> outcomes@.len() == files@.len(),
                !args.pretend ==> forall|j: int|
                    0 <= j < outcomes@.len() ==> outcome_for(
                        #[trigger] outcomes@[j],
                        files@[j],
                        opt_view(args.kms_key),
                    ),
            decreases keys@.len() - i,
        {
            let key = &keys[i];
            proof {
                assert(all.subrange(0, i + 1).drop_last() =~= all.subrange(0, i as int));
                assert(all.subrange(0, i + 1).last() == key@);
            }
            if self.filter(key.as_str(), &args.regex) {
                let sf = self.to_settlement_file(
                    args.endpoint.as_str(),
                    args.bucket.as_str(),
                    key.as_str(),
                );
                if !args.pretend {
                    let o = copy_request(&sf, &args.kms_key);
                    outcomes.push(o);
                }
                files.push(sf);
            }
            i += 1;
        }
        assert(all.subrange(0, i as int) =~= all);
        RunPlan { discovered: keys.len(), files, outcomes }
    }

    /// Plans a run from the result of listing the bucket; a failed listing fails the whole
    /// run, before anything is planned.
    pub fn run(&self, listing: Result<Vec<String>, String>, args: &Cli) -> (r: Result<
        RunPlan,
        RunError,
    >)
        requires
            self.wf(),
        ensures
            listing is Err ==> (r matches Err(RunError::ListingFailed(m)) && m@
                == listing->Err_0@),
            listing is Ok ==> r is Ok,
            listing is Ok ==> r->Ok_0.discovered == listing->Ok_0@.len(),
            listing is Ok ==> r->Ok_0.files@.len() == eligible_keys(
                keys_view(listing->Ok_0@),
                opt_view(args.regex),
            ).len(),
            listing is Ok ==> forall|i: int|
                0 <= i < r->Ok_0.files@.len() ==> settlement_for(
                    #[trigger] r->Ok_0.files@[i],
                    args.endpoint@,
                    args.bucket@,
                    eligible_keys(keys_view(listing->Ok_0@), opt_view(args.regex))[i],
                    self.suffix(),
                ),
            listing is Ok && args.pretend ==> r->Ok_0.outcomes@.len() == 0,
            listing is Ok && !args.pretend ==> r->Ok_0.outcomes@.len() == r->Ok_0.files@.len(),
            listing is Ok && !args.pretend ==> forall|i: int|
                0 <= i < r->Ok_0.outcomes@.len() ==> outcome_for(
                    #[trigger] r->Ok_0.outcomes@[i],
                    r->Ok_0.files@[i],
                    opt_view(args.kms_key),
                ),
    {
        match listing {
            Err(e) => Err(RunError::ListingFailed(e)),
            Ok(keys) => Ok(self.plan(&keys, args)),
        }
    }
}


/// Checks the user's pattern once for the run: `Err`, with the regex engine's explanation,
/// exactly when a pattern is given and does not compile.
pub fn check_user_pattern(regex: &Option<String>) -> (r: Result<(), String>)
    ensures
        r is Err <==> (opt_view(*regex) matches Some(p) && !pattern_compiles(p)),
{
    match regex {
        None => Ok(()),
        Some(p) => match Pattern::new(p.as_str()) {
            Ok(_) => Ok(()),
            Err(e) => Err(e),
        },
    }
}

impl Handler {
    /// Whether `obj_key` belongs to a streaming settlement format.
    pub fn streamable(&self, obj_key: &str) -> (r: bool)
        requires
            self.wf(),
        ensures
            r == is_streamable(obj_key@),
    {
        self.streamable_pattern.is_match(obj_key)
    }
}

/// A key without a three-character extension is never eligible, whatever else it holds.
pub proof fn no_extension_never_eligible(k: Seq<char>, user: Option<Seq<char>>)
    requires
        !has_extension(k),
    ensures
        !eligible(k, user),
{
}

/// A key under an excluded directory is never eligible, even where extension and tenant match.
pub proof fn excluded_directory_never_eligible(k: Seq<char>, user: Option<Seq<char>>)
    requires
        is_excluded_dir(k),
    ensures
        !eligible(k, user),
{
}

/// Without a user pattern, a key that passes the three structural gates is eligible.
pub proof fn structural_gates_suffice_without_pattern(k: Seq<char>)
    requires
        has_extension(k),
        has_tenant_prefix(k),
        !is_excluded_dir(k),
    ensures
        eligible(k, None),
{
}

/// With a user pattern, a key is eligible exactly when it passes the structural gates and
/// the pattern compiles and matches it.
pub proof fn user_pattern_narrows(k: Seq<char>, p: Seq<char>)
    ensures
        eligible(k, Some(p)) == (has_extension(k) && has_tenant_prefix(k) && !is_excluded_dir(k)
            && pattern_compiles(p) && pattern_is_match(p, k)),
{
}

/// A user pattern that does not compile leaves no key of the run eligible.
pub proof fn invalid_pattern_selects_nothing(keys: Seq<Seq<char>>, p: Seq<char>)
    requires
        !pattern_compiles(p),
    ensures
        eligible_keys(keys, Some(p)).len() == 0,
    decreases keys.len(),
{
    if keys.len() > 0 {
        invalid_pattern_selects_nothing(keys.drop_last(), p);
    }
}

/// A streamable file with no encryption key configured gets no copy request, only
/// `MissingEncryptionKey`.
pub proof fn streamable_without_key_is_refused(o: Result<CopyRequest, CopyError>, sf: SettlementFile)
    requires
        sf.is_streamable(),
        outcome_for(o, sf, None),
    ensures
        o matches Err(CopyError::MissingEncryptionKey),
{
}

} // verus!
