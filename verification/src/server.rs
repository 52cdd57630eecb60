//! Composition of the two serving variants: each combines the frozen handler
//! registry with a CORS policy, a body-size ceiling, and rate limiting —
//! one global queries-per-second bucket for the standard node-query server,
//! and an independent token bucket per method for the speculative-execution
//! server, whose methods differ wildly in cost. Admission runs before
//! dispatch, so over-quota traffic never reaches a handler.

use vstd::prelude::*;

use crate::envelope::Request;
use crate::limiter::{ConfigLimit, TokenBucket};
use crate::registry::RequestHandlers;
use crate::rejections::HttpRejection;

verus! {

/// The CORS origins a server allows when CORS is enabled.
pub enum CorsOrigin {
    /// Any origin (a wildcard policy).
    Any,
    /// Exactly one origin.
    Specified(String),
}

/// One per-method admission quota: a method with no bucket is unrestricted.
pub struct LimiterEntry {
    /// The JSON-RPC method name the quota applies to.
    pub method: String,
    /// The method's token bucket, or nothing when the method is unlimited.
    pub bucket: Option<TokenBucket>,
}

/// Whether some entry carries the method name `m`.
pub open spec fn spec_has_limiter(s: Seq<LimiterEntry>, m: Seq<char>) -> bool {
    exists|i: int| 0 <= i < s.len() && s[i].method@ == m
}

/// The index of the entry carrying `m`; meaningful only when entries are
/// unique and one exists.
pub open spec fn spec_limiter_index(s: Seq<LimiterEntry>, m: Seq<char>) -> int {
    choose|i: int| 0 <= i < s.len() && s[i].method@ == m
}

/// The entries and grant decision after one admission attempt for method
/// `m` at `now_ns`: an absent or unlimited entry admits and changes nothing;
/// a bucket is asked for one token.
pub open spec fn spec_method_admit(s: Seq<LimiterEntry>, m: Seq<char>, now_ns: u64) -> (
    Seq<LimiterEntry>,
    bool,
) {
    if !spec_has_limiter(s, m) {
        (s, true)
    } else {
        let i = spec_limiter_index(s, m);
        match s[i].bucket {
            None => (s, true),
            Some(b) => (
                s.update(
                    i,
                    LimiterEntry { method: s[i].method, bucket: Some(b.spec_try_acquire(now_ns).0) },
                ),
                b.spec_try_acquire(now_ns).1,
            ),
        }
    }
}

/// The per-method limiter table of one serving variant.
pub struct MethodLimiters {
    /// One entry per registered method.
    pub entries: Vec<LimiterEntry>,
}

impl MethodLimiters {
    /// Method names are unique and every bucket is well-formed.
    pub open spec fn wf(&self) -> bool {
        (forall|i: int, j: int|
            0 <= i < j < self.entries@.len() ==> self.entries@[i].method@
                != self.entries@[j].method@) && (forall|i: int|
            #![trigger self.entries@[i]]
            0 <= i < self.entries@.len() ==> (match self.entries@[i].bucket {
                Some(b) => b.wf(),
                None => true,
            }))
    }

    /// Attempts to pass one request for `method` at `now_ns`: consumes one
    /// token from the method's bucket, and admits unconditionally when the
    /// method carries no quota. Other methods' limiters are untouched.
    pub fn try_admit(&mut self, method: &String, now_ns: u64) -> (granted: bool)
        requires
            old(self).wf(),
        ensures
            final(self).wf(),
            final(self).entries@ == spec_method_admit(old(self).entries@, method@, now_ns).0,
            granted == spec_method_admit(old(self).entries@, method@, now_ns).1,
    {
        let ghost s0 = self.entries@;
        let mut i: usize = 0;
        while i < self.entries.len()
            invariant
                self.entries@ == s0,
                old(self).wf(),
                old(self).entries@ == s0,
                0 <= i <= s0.len(),
                forall|j: int| 0 <= j < i ==> s0[j].method@ != method@,
            decreases s0.len() - i,
        {
            if self.entries[i].method == *method {
                proof {
                    assert(s0[i as int].method@ == method@);
                    let w = spec_limiter_index(s0, method@);
                    assert(0 <= w < s0.len() && s0[w].method@ == method@);
                    assert(w == i as int);
                }
                match self.entries[i].bucket {
                    None => {
                        return true;
                    },
                    Some(bucket) => {
                        let mut b = bucket;
                        let granted = b.try_acquire(now_ns);
                        let m = self.entries[i].method.clone();
                        self.entries.set(i, LimiterEntry { method: m, bucket: Some(b) });
                        return granted;
                    },
                }
            }
            i += 1;
        }
        true
    }
}

/// Whether some configured limit carries the method name `m`.
pub open spec fn spec_has_limit(s: Seq<(String, ConfigLimit)>, m: Seq<char>) -> bool {
    exists|i: int| 0 <= i < s.len() && s[i].0@ == m
}

/// The index of the configured limit for `m`; meaningful only when names are
/// unique and one exists.
pub open spec fn spec_limit_index(s: Seq<(String, ConfigLimit)>, m: Seq<char>) -> int {
    choose|i: int| 0 <= i < s.len() && s[i].0@ == m
}

/// The admission policy configured for method `m`: its configured limit, or
/// unlimited when the configuration names no limit for it.
pub open spec fn spec_limit_for(s: Seq<(String, ConfigLimit)>, m: Seq<char>) -> ConfigLimit {
    if spec_has_limit(s, m) {
        s[spec_limit_index(s, m)].1
    } else {
        ConfigLimit::Unlimited
    }
}

/// No two configured limits name the same method.
pub open spec fn limit_names_unique(s: Seq<(String, ConfigLimit)>) -> bool {
    forall|i: int, j: int| 0 <= i < j < s.len() ==> s[i].0@ != s[j].0@
}

/// No two method names repeat.
pub open spec fn method_names_unique(s: Seq<String>) -> bool {
    forall|i: int, j: int| 0 <= i < j < s.len() ==> s[i]@ != s[j]@
}

/// Looks up the limit configured for `method`, defaulting to unlimited.
pub fn limit_for(limits: &Vec<(String, ConfigLimit)>, method: &String) -> (r: ConfigLimit)
    requires
        limit_names_unique(limits@),
    ensures
        r == spec_limit_for(limits@, method@),
{
    let mut i: usize = 0;
    while i < limits.len()
        invariant
            limit_names_unique(limits@),
            0 <= i <= limits@.len(),
            forall|j: int| 0 <= j < i ==> limits@[j].0@ != method@,
        decreases limits@.len() - i,
    {
        if limits[i].0 == *method {
            proof {
                assert(limits@[i as int].0@ == method@);
                let w = spec_limit_index(limits@, method@);
                assert(0 <= w < limits@.len() && limits@[w].0@ == method@);
                assert(w == i as int);
            }
            return limits[i].1;
        }
        i += 1;
    }
    ConfigLimit::default()
}

/// The bucket a configured limit builds at `now_ns`: none when unlimited.
pub open spec fn spec_bucket_for(limit: ConfigLimit, now_ns: u64) -> Option<TokenBucket> {
    match limit {
        ConfigLimit::Unlimited => None,
        ConfigLimit::Limited { rate, burst } => Some(TokenBucket::spec_new(rate, burst, now_ns)),
    }
}

/// The limiter table the configuration denotes: one entry per registered
/// method, with the bucket its configured limit builds.
pub open spec fn spec_limiters_for(
    methods: Seq<String>,
    limits: Seq<(String, ConfigLimit)>,
    now_ns: u64,
) -> Seq<LimiterEntry> {
    Seq::new(
        methods.len(),
        |i: int|
            LimiterEntry {
                method: methods[i],
                bucket: spec_bucket_for(spec_limit_for(limits, methods[i]@), now_ns),
            },
    )
}

/// Builds the per-method limiter table for the registered `methods`: each
/// method gets the limit the configuration names for it, or no quota at all.
pub fn build_method_limiters(
    methods: &Vec<String>,
    limits: &Vec<(String, ConfigLimit)>,
    now_ns: u64,
) -> (r: MethodLimiters)
    requires
        method_names_unique(methods@),
        limit_names_unique(limits@),
    ensures
        r.wf(),
        r.entries@ == spec_limiters_for(methods@, limits@, now_ns),
{
    let mut entries: Vec<LimiterEntry> = Vec::new();
    let mut i: usize = 0;
    while i < methods.len()
        invariant
            method_names_unique(methods@),
            limit_names_unique(limits@),
            0 <= i <= methods@.len(),
            entries@ == spec_limiters_for(methods@, limits@, now_ns).take(i as int),
        decreases methods@.len() - i,
    {
        let bucket: Option<TokenBucket> = match limit_for(limits, &methods[i]) {
            ConfigLimit::Unlimited => None,
            ConfigLimit::Limited { rate, burst } => Some(TokenBucket::new(rate, burst, now_ns)),
        };
        entries.push(LimiterEntry { method: methods[i].clone(), bucket });
        proof {
            assert(entries@ =~= spec_limiters_for(methods@, limits@, now_ns).take(i + 1));
        }
        i += 1;
    }
    let r = MethodLimiters { entries };
    proof {
        assert(r.entries@ =~= spec_limiters_for(methods@, limits@, now_ns));
        let s = spec_limiters_for(methods@, limits@, now_ns);
        assert(forall|a: int, b: int|
            0 <= a < b < s.len() ==> s[a].method@ != s[b].method@) by {
            assert(forall|a: int| 0 <= a < s.len() ==> s[a].method == methods@[a]);
        }
    }
    r
}

/// What admission decided for one inbound request.
pub enum AdmissionOutcome {
    /// The request may be dispatched.
    Admitted,
    /// A transport-level rejection: answered at the HTTP level, with no
    /// JSON-RPC envelope.
    Rejected(HttpRejection),
    /// The request exceeds its rate quota and is refused before dispatch.
    OverQuota,
}

/// One serving variant, assembled at startup: the frozen registry plus its
/// admission control and CORS policy.
pub struct ServerConfig {
    /// The frozen registry shared by every concurrent request.
    pub handlers: RequestHandlers,
    /// The per-method quota table.
    pub limiters: MethodLimiters,
    /// The global queries-per-second bucket of the standard server, absent
    /// on the speculative-execution server.
    pub global_limiter: Option<TokenBucket>,
    /// The raw-body ceiling in bytes.
    pub max_body_bytes: u64,
    /// The CORS policy: disabled when absent.
    pub cors: Option<CorsOrigin>,
}

impl ServerConfig {
    /// Every component is well-formed.
    pub open spec fn wf(&self) -> bool {
        self.handlers.wf() && self.limiters.wf() && (match self.global_limiter {
            Some(b) => b.wf(),
            None => true,
        })
    }

    /// Runs the admission checks on one inbound request, in order: the raw
    /// body size against the ceiling, the presence of an `id`, the global
    /// queries-per-second quota, then the method's own quota. A rejected or
    /// over-quota request never reaches dispatch, so no handler cost is
    /// spent on it; only the quota that refused (or admitted) the request
    /// consumes a token.
    pub fn try_admit(&mut self, request: &Request, body_bytes: u64, now_ns: u64) -> (r:
        AdmissionOutcome)
        requires
            old(self).wf(),
        ensures
            final(self).wf(),
            final(self).handlers == old(self).handlers,
            final(self).max_body_bytes == old(self).max_body_bytes,
            final(self).cors == old(self).cors,
            body_bytes > old(self).max_body_bytes ==> r == AdmissionOutcome::Rejected(
                HttpRejection::BodyTooLarge(old(self).max_body_bytes),
            ) && *final(self) == *old(self),
            body_bytes <= old(self).max_body_bytes && request.id is None ==> r
                == AdmissionOutcome::Rejected(HttpRejection::MissingId) && *final(self) == *old(
                self,
            ),
            body_bytes <= old(self).max_body_bytes && request.id is Some ==> (match old(
                self,
            ).global_limiter {
                Some(b) => final(self).global_limiter == Some(b.spec_try_acquire(now_ns).0) && (
                if b.spec_try_acquire(now_ns).1 {
                    spec_admit_by_method(old(self), final(self), request.method@, now_ns, r)
                } else {
                    r == AdmissionOutcome::OverQuota && final(self).limiters == old(self).limiters
                }),
                None => final(self).global_limiter == old(self).global_limiter
                    && spec_admit_by_method(old(self), final(self), request.method@, now_ns, r),
            }),
    {
        match crate::rejections::check_body_size(body_bytes, self.max_body_bytes) {
            Err(rejection) => {
                return AdmissionOutcome::Rejected(rejection);
            },
            Ok(()) => {},
        }
        match crate::rejections::check_id_present(&request.id) {
            Err(rejection) => {
                return AdmissionOutcome::Rejected(rejection);
            },
            Ok(()) => {},
        }
        match self.global_limiter {
            Some(bucket) => {
                let mut b = bucket;
                let granted = b.try_acquire(now_ns);
                self.global_limiter = Some(b);
                if !granted {
                    return AdmissionOutcome::OverQuota;
                }
            },
            None => {},
        }
        if self.limiters.try_admit(&request.method, now_ns) {
            AdmissionOutcome::Admitted
        } else {
            AdmissionOutcome::OverQuota
        }
    }
}

/// The per-method half of admission: the method's quota is asked for one
/// token, and the outcome is `Admitted` exactly when it grants one.
pub open spec fn spec_admit_by_method(
    before: &ServerConfig,
    after: &ServerConfig,
    method: Seq<char>,
    now_ns: u64,
    r: AdmissionOutcome,
) -> bool {
    let step = spec_method_admit(before.limiters.entries@, method, now_ns);
    after.limiters.entries@ == step.0 && r == (if step.1 {
        AdmissionOutcome::Admitted
    } else {
        AdmissionOutcome::OverQuota
    })
}

/// Builds the standard node-query server: per-method limits for the
/// registered methods, one global queries-per-second bucket of `qps_limit`
/// tokens replenished `qps_limit` per second, a body ceiling, and the CORS
/// policy `cors_origin` selects: disabled when empty, any origin on `"*"`,
/// else exactly that origin.
pub fn new_standard_server(
    handlers: RequestHandlers,
    methods: &Vec<String>,
    limits: &Vec<(String, ConfigLimit)>,
    qps_limit: u32,
    max_body_bytes: u64,
    cors_origin: String,
    now_ns: u64,
) -> (r: ServerConfig)
    requires
        handlers.wf(),
        method_names_unique(methods@),
        limit_names_unique(limits@),
    ensures
        r.wf(),
        r.handlers == handlers,
        r.limiters.entries@ == spec_limiters_for(methods@, limits@, now_ns),
        r.global_limiter == Some(
            TokenBucket::spec_new(qps_limit as u64, qps_limit as u64, now_ns),
        ),
        r.max_body_bytes == max_body_bytes,
        spec_cors_selected(cors_origin@, r.cors),
{
    let limiters = build_method_limiters(methods, limits, now_ns);
    let global = TokenBucket::new(qps_limit as u64, qps_limit as u64, now_ns);
    let cors = select_cors_origin(cors_origin);
    ServerConfig { handlers, limiters, global_limiter: Some(global), max_body_bytes, cors }
}

/// Builds the speculative-execution server: the same per-method limits and
/// body ceiling and CORS selection as the standard server, but no global
/// queries-per-second bucket — admission cost control is purely per method.
pub fn new_speculative_server(
    handlers: RequestHandlers,
    methods: &Vec<String>,
    limits: &Vec<(String, ConfigLimit)>,
    max_body_bytes: u64,
    cors_origin: String,
    now_ns: u64,
) -> (r: ServerConfig)
    requires
        handlers.wf(),
        method_names_unique(methods@),
        limit_names_unique(limits@),
    ensures
        r.wf(),
        r.handlers == handlers,
        r.limiters.entries@ == spec_limiters_for(methods@, limits@, now_ns),
        r.global_limiter is None,
        r.max_body_bytes == max_body_bytes,
        spec_cors_selected(cors_origin@, r.cors),
{
    let limiters = build_method_limiters(methods, limits, now_ns);
    let cors = select_cors_origin(cors_origin);
    ServerConfig { handlers, limiters, global_limiter: None, max_body_bytes, cors }
}

/// How a configured origin string selects the CORS policy: an empty string
/// disables CORS, `"*"` allows any origin, anything else allows exactly the
/// configured origin.
pub open spec fn spec_cors_selected(origin: Seq<char>, cors: Option<CorsOrigin>) -> bool {
    if origin.len() == 0 {
        cors is None
    } else if origin == "*"@ {
        cors == Some(CorsOrigin::Any)
    } else {
        cors matches Some(CorsOrigin::Specified(s)) && s@ == origin
    }
}

/// Selects the CORS policy from the configured origin string.
pub fn select_cors_origin(cors_origin: String) -> (r: Option<CorsOrigin>)
    ensures
        spec_cors_selected(cors_origin@, r),
{
    proof {
        reveal_strlit("*");
    }
    if cors_origin.as_str().is_empty() {
        None
    } else if cors_origin == "*".to_owned() {
        Some(CorsOrigin::Any)
    } else {
        Some(CorsOrigin::Specified(cors_origin))
    }
}

} // verus!
