//! Token-bucket rate limiting per task type.
//!
//! A bucket for `max_tokens` per `per_seconds` holds up to `max_tokens`
//! tokens and regains them at `max_tokens / per_seconds` tokens a second.
//! Token amounts are kept exactly, as a credit counted in
//! `1 / (per_seconds * 10^9)` parts of a token, so a bucket holds
//! `credit / (per_seconds * 10^9)` tokens.

use crate::capability::lemma_text_differs;
use crate::clock::{duration_as_nanos, duration_from_secs, duration_nanos, instant_duration_since, instant_nanos, instant_now};
use std::time::Duration;
use std::time::Instant;
use vstd::arithmetic::mul::{lemma_mul_inequality, lemma_mul_is_distributive_add, lemma_mul_strictly_positive};
use vstd::prelude::*;

verus! {

/// The abstract state of a token bucket.
pub struct BucketView {
    pub max_tokens: u32,
    /// The refill period in nanoseconds.
    pub per_nanos: nat,
    /// Tokens held, in `1 / per_nanos` parts of a token.
    pub credit: nat,
}

pub open spec fn full_credit(b: BucketView) -> nat {
    b.max_tokens as nat * b.per_nanos
}

/// A new bucket: full.
pub open spec fn spec_new_bucket(max_tokens: u32, per_seconds: u64) -> BucketView {
    let per_nanos = per_seconds as nat * 1_000_000_000;
    BucketView { max_tokens, per_nanos, credit: max_tokens as nat * per_nanos }
}

/// The bucket after `elapsed` nanoseconds of refill, never above full. A
/// bucket with a zero period refills at once.
pub open spec fn spec_refill(b: BucketView, elapsed: nat) -> BucketView {
    if b.per_nanos == 0 {
        BucketView { credit: full_credit(b), ..b }
    } else if b.credit + elapsed * (b.max_tokens as nat) <= full_credit(b) {
        BucketView { credit: b.credit + elapsed * (b.max_tokens as nat), ..b }
    } else {
        BucketView { credit: full_credit(b), ..b }
    }
}

/// Whether the bucket holds a whole token.
pub open spec fn spec_has_token(b: BucketView) -> bool {
    if b.per_nanos == 0 { b.max_tokens >= 1 } else { b.credit >= b.per_nanos }
}

/// One attempt to take a token after `elapsed` nanoseconds: whether it was
/// granted, and the bucket afterwards.
pub open spec fn spec_try_acquire(b: BucketView, elapsed: nat) -> (bool, BucketView) {
    let r = spec_refill(b, elapsed);
    if spec_has_token(r) {
        if r.per_nanos == 0 {
            (true, r)
        } else {
            (true, BucketView { credit: (r.credit - r.per_nanos) as nat, ..r })
        }
    } else {
        (false, r)
    }
}

struct TokenBucket {
    max_tokens: u32,
    per_nanos: u128,
    credit: u128,
    last_refill: Instant,
}

impl TokenBucket {
    spec fn view(&self) -> BucketView {
        BucketView { max_tokens: self.max_tokens, per_nanos: self.per_nanos as nat, credit: self.credit as nat }
    }

    spec fn wf(&self) -> bool {
        &&& self.per_nanos as nat <= u64::MAX as nat * 1_000_000_000
        &&& self.credit <= full_credit(self.view())
    }

    fn new(max_tokens: u32, per_seconds: u64, now: Instant) -> (b: Self)
        ensures
            b.wf(),
            b.view() == spec_new_bucket(max_tokens, per_seconds),
            b.last_refill == now,
    {
        let per_nanos = per_seconds as u128 * 1_000_000_000;
        proof {
            lemma_mul_inequality(max_tokens as int, u32::MAX as int, per_nanos as int);
            lemma_mul_inequality(per_nanos as int, u64::MAX as int * 1_000_000_000, u32::MAX as int);
            assert(u32::MAX as int * (u64::MAX as int * 1_000_000_000) < u128::MAX) by (nonlinear_arith);
        }
        let credit = max_tokens as u128 * per_nanos;
        TokenBucket { max_tokens, per_nanos, credit, last_refill: now }
    }

    fn try_acquire(&mut self, elapsed: &Duration, now: Instant) -> (granted: bool)
        requires
            old(self).wf(),
        ensures
            final(self).wf(),
            (granted, final(self).view()) == spec_try_acquire(old(self).view(), duration_nanos(*elapsed)),
            final(self).last_refill == now,
    {
        let ghost b = self.view();
        let e = duration_as_nanos(elapsed);
        let max = self.max_tokens as u128;
        let per = self.per_nanos;
        proof {
            lemma_mul_inequality(max as int, u32::MAX as int, per as int);
            lemma_mul_inequality(per as int, u64::MAX as int * 1_000_000_000, u32::MAX as int);
            assert(u32::MAX as int * (u64::MAX as int * 1_000_000_000) < 0x8000_0000_0000_0000_0000_0000_0000_0000) by (nonlinear_arith);
        }
        let full = max * per;
        if per == 0 {
            self.credit = full;
        } else if e >= per {
            proof {
                lemma_mul_inequality(per as int, e as int, max as int);
                assert(per * max == max * per) by (nonlinear_arith);
                assert(e * max == max * e) by (nonlinear_arith);
            }
            self.credit = full;
        } else {
            proof {
                lemma_mul_inequality(e as int, per as int, max as int);
                assert(e * max <= per * max);
                assert(per * max == max * per) by (nonlinear_arith);
            }
            let added = e * max;
            let sum = self.credit + added;
            self.credit = if sum <= full { sum } else { full };
        }
        self.last_refill = now;
        assert(self.view() == spec_refill(b, duration_nanos(*elapsed)));
        if per == 0 {
            self.max_tokens >= 1
        } else if self.credit >= per {
            self.credit = self.credit - per;
            true
        } else {
            false
        }
    }
}

/// A limit: at most `max_tokens` tasks of a type per `per_seconds` seconds.
pub struct LimitView {
    pub task_type: Seq<char>,
    pub max_tokens: u32,
    pub per_seconds: u64,
}

/// The limit that applies to a task type: the last one listed for it.
pub open spec fn spec_limit_of(limits: Seq<LimitView>, task_type: Seq<char>) -> Option<LimitView>
    decreases limits.len(),
{
    if limits.len() == 0 {
        None
    } else if limits.last().task_type == task_type {
        Some(limits.last())
    } else {
        spec_limit_of(limits.drop_last(), task_type)
    }
}

/// What is kept for a task type's bucket: the first entry for it.
pub open spec fn spec_bucket_of<V>(buckets: Seq<(Seq<char>, V)>, task_type: Seq<char>) -> Option<V>
    decreases buckets.len(),
{
    if buckets.len() == 0 {
        None
    } else if buckets[0].0 == task_type {
        Some(buckets[0].1)
    } else {
        spec_bucket_of(buckets.drop_first(), task_type)
    }
}

/// The abstract state of a rate limiter: its limits, the buckets it has
/// made so far (a bucket is made at the first check of a limited type), and
/// where on the monotonic clock each bucket was last refilled.
pub struct LimiterView {
    pub limits: Seq<LimitView>,
    pub buckets: Seq<(Seq<char>, BucketView)>,
    pub refilled: Seq<(Seq<char>, int)>,
}

/// The outcome of a check of `task_type` with `elapsed` nanoseconds since
/// its bucket was last refilled: whether it is allowed, and the bucket of
/// the type afterwards (None for an unlimited type).
pub open spec fn spec_check(l: LimiterView, task_type: Seq<char>, elapsed: nat) -> (bool, Option<BucketView>) {
    match spec_limit_of(l.limits, task_type) {
        None => (true, spec_bucket_of(l.buckets, task_type)),
        Some(limit) => {
            let b = match spec_bucket_of(l.buckets, task_type) {
                Some(b) => b,
                None => spec_new_bucket(limit.max_tokens, limit.per_seconds),
            };
            let e = if spec_bucket_of(l.buckets, task_type) is Some { elapsed } else { 0 };
            let (granted, after) = spec_try_acquire(b, e);
            (granted, Some(after))
        },
    }
}

/// One check of a task type, seen from that type alone: under `limit`
/// (None for an unlimited type), with the type's bucket and the reading of
/// its last refill, checked at clock reading `reading`. It gives whether the
/// check is allowed, and the bucket and refill reading afterwards: a limited
/// type's bucket (made full at the first check) is refilled for the time
/// since its last refill, is refilled at `reading`, and gives a token if it
/// holds one.
pub open spec fn spec_type_check(
    limit: Option<LimitView>,
    bucket: Option<BucketView>,
    refilled: Option<int>,
    reading: int,
) -> (bool, Option<BucketView>, Option<int>) {
    match limit {
        None => (true, bucket, refilled),
        Some(lim) => {
            let b = match bucket {
                Some(b) => b,
                None => spec_new_bucket(lim.max_tokens, lim.per_seconds),
            };
            let e = if bucket is Some { spec_elapsed_since(refilled, reading) } else { 0 };
            let (granted, after) = spec_try_acquire(b, e);
            (granted, Some(after), Some(reading))
        },
    }
}

/// A task type was refused because its rate limit is used up.
#[derive(Debug)]
pub struct RateLimitError {
    pub task_type: String,
}

impl RateLimitError {
    /// "Rate limit exceeded for task type: <task_type>".
    pub fn to_string(&self) -> (s: String)
        ensures
            s@ == "Rate limit exceeded for task type: "@ + self.task_type@,
    {
        let mut s = String::from_str("Rate limit exceeded for task type: ");
        s.append(self.task_type.as_str());
        s
    }
}

struct LimitRule {
    task_type: String,
    max_tokens: u32,
    per_seconds: u64,
}

pub struct RateLimiter {
    buckets: Vec<(String, TokenBucket)>,
    limits: Vec<LimitRule>,
}

pub open spec fn default_limits() -> Seq<LimitView> {
    seq![
        LimitView { task_type: "server.start"@, max_tokens: 10, per_seconds: 60 },
        LimitView { task_type: "server.stop"@, max_tokens: 10, per_seconds: 60 },
        LimitView { task_type: "server.restart"@, max_tokens: 10, per_seconds: 60 },
        LimitView { task_type: "server.create"@, max_tokens: 5, per_seconds: 60 },
        LimitView { task_type: "server.delete"@, max_tokens: 5, per_seconds: 60 },
        LimitView { task_type: "backup.create"@, max_tokens: 3, per_seconds: 3600 },
        LimitView { task_type: "backup.restore"@, max_tokens: 2, per_seconds: 3600 },
        LimitView { task_type: "ssh.execute"@, max_tokens: 30, per_seconds: 60 },
        LimitView { task_type: "metrics.report"@, max_tokens: 60, per_seconds: 60 },
    ]
}

impl RateLimiter {
    pub closed spec fn view(&self) -> LimiterView {
        LimiterView {
            limits: self.limits@.map_values(|r: LimitRule| LimitView { task_type: r.task_type@, max_tokens: r.max_tokens, per_seconds: r.per_seconds }),
            buckets: self.buckets@.map_values(|e: (String, TokenBucket)| (e.0@, e.1.view())),
            refilled: self.buckets@.map_values(|e: (String, TokenBucket)| (e.0@, instant_nanos(e.1.last_refill))),
        }
    }

    pub closed spec fn wf(&self) -> bool {
        forall|i: int| 0 <= i < self.buckets.len() ==> (#[trigger] self.buckets@[i]).1.wf()
    }

    fn rule(task_type: &str, max_tokens: u32, per_seconds: u64) -> (r: LimitRule)
        ensures
            r.task_type@ == task_type@,
            r.max_tokens == max_tokens,
            r.per_seconds == per_seconds,
    {
        LimitRule { task_type: String::from_str(task_type), max_tokens, per_seconds }
    }

    /// A limiter with the default limits for server, backup, ssh and
    /// metrics tasks, and no buckets yet.
    pub fn new() -> (l: Self)
        ensures
            l.wf(),
            l.view().limits == default_limits(),
            l.view().buckets.len() == 0,
            l.view().refilled.len() == 0,
    {
        let mut limits: Vec<LimitRule> = Vec::new();
        limits.push(Self::rule("server.start", 10, 60));
        limits.push(Self::rule("server.stop", 10, 60));
        limits.push(Self::rule("server.restart", 10, 60));
        limits.push(Self::rule("server.create", 5, 60));
        limits.push(Self::rule("server.delete", 5, 60));
        limits.push(Self::rule("backup.create", 3, 3600));
        limits.push(Self::rule("backup.restore", 2, 3600));
        limits.push(Self::rule("ssh.execute", 30, 60));
        limits.push(Self::rule("metrics.report", 60, 60));
        let l = RateLimiter { buckets: Vec::new(), limits };
        assert(l.view().limits =~= default_limits());
        l
    }

    /// Replaces the limits: each entry is a task type, a number of tasks
    /// and a period in seconds. When a type is listed twice, the last entry
    /// counts.
    pub fn with_limits(self, limits: Vec<(String, u32, u64)>) -> (l: Self)
        requires
            self.wf(),
        ensures
            l.wf(),
            l.view().buckets == self.view().buckets,
            l.view().refilled == self.view().refilled,
            l.view().limits == limits@.map_values(|e: (String, u32, u64)| LimitView { task_type: e.0@, max_tokens: e.1, per_seconds: e.2 }),
    {
        let mut rules: Vec<LimitRule> = Vec::new();
        let mut i: usize = 0;
        while i < limits.len()
            invariant
                i <= limits.len(),
                rules.len() == i,
                forall|j: int| 0 <= j < i ==> {
                    &&& (#[trigger] rules@[j]).task_type@ == limits@[j].0@
                    &&& rules@[j].max_tokens == limits@[j].1
                    &&& rules@[j].per_seconds == limits@[j].2
                },
            decreases limits.len() - i,
        {
            let e = &limits[i];
            rules.push(LimitRule { task_type: e.0.clone(), max_tokens: e.1, per_seconds: e.2 });
            i = i + 1;
        }
        let l = RateLimiter { buckets: self.buckets, limits: rules };
        assert(l.view().limits =~= limits@.map_values(|e: (String, u32, u64)| LimitView { task_type: e.0@, max_tokens: e.1, per_seconds: e.2 }));
        l
    }

    fn find_limit(&self, task_type: &String) -> (r: Option<(u32, u64)>)
        ensures
            match spec_limit_of(self.view().limits, task_type@) {
                Some(l) => r == Some((l.max_tokens, l.per_seconds)),
                None => r is None,
            },
    {
        let ghost all = self.view().limits;
        let mut i = self.limits.len();
        assert(all.take(all.len() as int) =~= all);
        while i > 0
            invariant
                i <= self.limits.len(),
                all == self.view().limits,
                spec_limit_of(all, task_type@) == spec_limit_of(all.take(i as int), task_type@),
            decreases i,
        {
            assert(all.take(i as int).drop_last() =~= all.take(i - 1));
            if self.limits[i - 1].task_type == *task_type {
                return Some((self.limits[i - 1].max_tokens, self.limits[i - 1].per_seconds));
            }
            i = i - 1;
        }
        None
    }

    fn find_bucket(&self, task_type: &String) -> (r: Option<usize>)
        ensures
            match r {
                Some(i) => i < self.buckets.len() && self.view().buckets[i as int].0 == task_type@
                    && spec_bucket_of(self.view().buckets, task_type@) == Some(self.view().buckets[i as int].1)
                    && forall|j: int| 0 <= j < i ==> self.view().buckets[j].0 != task_type@,
                None => spec_bucket_of(self.view().buckets, task_type@) is None,
            },
    {
        let ghost all = self.view().buckets;
        let mut i: usize = 0;
        assert(all.skip(0) =~= all);
        while i < self.buckets.len()
            invariant
                i <= self.buckets.len(),
                all == self.view().buckets,
                spec_bucket_of(all, task_type@) == spec_bucket_of(all.skip(i as int), task_type@),
                forall|j: int| 0 <= j < i ==> all[j].0 != task_type@,
            decreases self.buckets.len() - i,
        {
            assert(all.skip(i as int).drop_first() =~= all.skip(i + 1));
            if self.buckets[i].0 == *task_type {
                return Some(i);
            }
            i = i + 1;
        }
        None
    }

    /// Checks a task type with `since_last` the time since its bucket was
    /// last refilled and `now` the moment of the check: a limited type takes
    /// a token from its bucket (made full at its first check) or is
    /// refused; an unlimited type is always allowed.
    pub fn check_at(&mut self, task_type: &str, now: Instant, since_last: &Duration) -> (r: Result<(), RateLimitError>)
        requires
            old(self).wf(),
        ensures
            final(self).wf(),
            final(self).view().limits == old(self).view().limits,
            r is Ok == spec_check(old(self).view(), task_type@, duration_nanos(*since_last)).0,
            r is Err ==> r->Err_0.task_type@ == task_type@,
            spec_bucket_of(final(self).view().buckets, task_type@)
                == spec_check(old(self).view(), task_type@, duration_nanos(*since_last)).1,
            forall|t: Seq<char>| t != task_type@ ==> spec_bucket_of(final(self).view().buckets, t)
                == spec_bucket_of(old(self).view().buckets, t),
            spec_bucket_of(final(self).view().refilled, task_type@) == (if spec_limit_of(
                old(self).view().limits,
                task_type@,
            ) is Some {
                Some(instant_nanos(now))
            } else {
                spec_bucket_of(old(self).view().refilled, task_type@)
            }),
            forall|t: Seq<char>| t != task_type@ ==> spec_bucket_of(final(self).view().refilled, t)
                == spec_bucket_of(old(self).view().refilled, t),
    {
        let name = String::from_str(task_type);
        match self.find_limit(&name) {
            None => Ok(()),
            Some((max_tokens, per_seconds)) => {
                let granted = match self.find_bucket(&name) {
                    Some(i) => {
                        let ghost before = self.view().buckets;
                        let ghost rbefore = self.view().refilled;
                        let (n, mut bucket) = self.buckets.remove(i);
                        let granted = bucket.try_acquire(since_last, now);
                        self.buckets.insert(i, (n, bucket));
                        proof {
                            let after = self.view().buckets;
                            let rafter = self.view().refilled;
                            assert(rafter =~= rbefore.update(i as int, (rbefore[i as int].0, instant_nanos(now))));
                            assert forall|t: Seq<char>| #![auto] spec_bucket_of(rafter, t) == if t == task_type@ {
                                Some(instant_nanos(now))
                            } else {
                                spec_bucket_of(rbefore, t)
                            } by {
                                assert forall|j: int| 0 <= j < i implies rbefore[j].0 != rbefore[i as int].0 by {
                                    assert(before[j].0 != before[i as int].0);
                                }
                                lemma_bucket_of_update(rbefore, i as int, instant_nanos(now), t);
                            }
                            assert(after =~= before.update(i as int, (before[i as int].0, bucket.view())));
                            assert forall|t: Seq<char>| #![auto] spec_bucket_of(after, t) == if t == task_type@ {
                                Some(bucket.view())
                            } else {
                                spec_bucket_of(before, t)
                            } by {
                                lemma_bucket_of_update(before, i as int, bucket.view(), t);
                            }
                        }
                        granted
                    },
                    None => {
                        let ghost before = self.view().buckets;
                        let ghost rbefore = self.view().refilled;
                        let mut bucket = TokenBucket::new(max_tokens, per_seconds, now);
                        let zero = duration_from_secs(0);
                        let granted = bucket.try_acquire(&zero, now);
                        self.buckets.push((name, bucket));
                        proof {
                            let after = self.view().buckets;
                            let rafter = self.view().refilled;
                            assert(rafter =~= rbefore.push((task_type@, instant_nanos(now))));
                            lemma_same_names(before, rbefore, task_type@);
                            assert forall|t: Seq<char>| #![auto] spec_bucket_of(rafter, t) == if t == task_type@ {
                                Some(instant_nanos(now))
                            } else {
                                spec_bucket_of(rbefore, t)
                            } by {
                                lemma_bucket_of_push(rbefore, task_type@, instant_nanos(now), t);
                            }
                            assert(after =~= before.push((task_type@, bucket.view())));
                            assert forall|t: Seq<char>| #![auto] spec_bucket_of(after, t) == if t == task_type@ {
                                Some(bucket.view())
                            } else {
                                spec_bucket_of(before, t)
                            } by {
                                lemma_bucket_of_push(before, task_type@, bucket.view(), t);
                            }
                        }
                        granted
                    },
                };
                if granted {
                    Ok(())
                } else {
                    Err(RateLimitError { task_type: String::from_str(task_type) })
                }
            },
        }
    }

    /// Checks a task type against its limit now: with `reading` the
    /// monotonic clock's reading, the time since the bucket's last refill is
    /// `reading` less the refill's reading (zero if the clock reads earlier),
    /// and a limited type's bucket is then refilled at `reading`.
    pub fn check(&mut self, task_type: &str) -> (r: Result<(), RateLimitError>)
        requires
            old(self).wf(),
        ensures
            final(self).wf(),
            final(self).view().limits == old(self).view().limits,
            exists|reading: int| #[trigger] spec_type_check(
                spec_limit_of(old(self).view().limits, task_type@),
                spec_bucket_of(old(self).view().buckets, task_type@),
                spec_bucket_of(old(self).view().refilled, task_type@),
                reading,
            ) == (
                r is Ok,
                spec_bucket_of(final(self).view().buckets, task_type@),
                spec_bucket_of(final(self).view().refilled, task_type@),
            ),
            r is Err ==> r->Err_0.task_type@ == task_type@,
            forall|t: Seq<char>| t != task_type@ ==> spec_bucket_of(final(self).view().buckets, t)
                == spec_bucket_of(old(self).view().buckets, t),
            forall|t: Seq<char>| t != task_type@ ==> spec_bucket_of(final(self).view().refilled, t)
                == spec_bucket_of(old(self).view().refilled, t),
    {
        let now = instant_now();
        let name = String::from_str(task_type);
        let since = match self.find_bucket(&name) {
            Some(i) => {
                proof {
                    let rs = self.view().refilled;
                    assert forall|j: int| 0 <= j < i implies rs[j].0 != rs[i as int].0 by {
                        assert(self.view().buckets[j].0 != task_type@);
                    }
                    lemma_bucket_of_at(rs, i as int);
                }
                instant_duration_since(&now, &self.buckets[i].1.last_refill)
            },
            None => {
                proof {
                    lemma_same_names(self.view().buckets, self.view().refilled, task_type@);
                }
                duration_from_secs(0)
            },
        };
        let r = self.check_at(task_type, now, &since);
        assert(duration_nanos(since) == spec_elapsed_since(spec_bucket_of(old(self).view().refilled, task_type@), instant_nanos(now)));
        assert(spec_type_check(
            spec_limit_of(old(self).view().limits, task_type@),
            spec_bucket_of(old(self).view().buckets, task_type@),
            spec_bucket_of(old(self).view().refilled, task_type@),
            instant_nanos(now),
        ) == (
            r is Ok,
            spec_bucket_of(self.view().buckets, task_type@),
            spec_bucket_of(self.view().refilled, task_type@),
        ));
        r
    }

    /// Forgets the bucket of a task type, so that its next check starts
    /// with a full bucket.
    pub fn reset(&mut self, task_type: &str)
        requires
            old(self).wf(),
        ensures
            final(self).wf(),
            final(self).view().limits == old(self).view().limits,
            spec_bucket_of(final(self).view().buckets, task_type@) is None,
            spec_bucket_of(final(self).view().refilled, task_type@) is None,
            forall|t: Seq<char>| t != task_type@ ==> spec_bucket_of(final(self).view().buckets, t)
                == spec_bucket_of(old(self).view().buckets, t),
            forall|t: Seq<char>| t != task_type@ ==> spec_bucket_of(final(self).view().refilled, t)
                == spec_bucket_of(old(self).view().refilled, t),
    {
        let name = String::from_str(task_type);
        let ghost orig = self.view().buckets;
        let ghost rorig = self.view().refilled;
        loop
            invariant
                self.wf(),
                self.view().limits == old(self).view().limits,
                forall|t: Seq<char>| t != task_type@ ==> spec_bucket_of(self.view().buckets, t)
                    == spec_bucket_of(orig, t),
                forall|t: Seq<char>| t != task_type@ ==> spec_bucket_of(self.view().refilled, t)
                    == spec_bucket_of(rorig, t),
                name@ == task_type@,
            ensures
                self.wf(),
                self.view().limits == old(self).view().limits,
                spec_bucket_of(self.view().buckets, task_type@) is None,
                spec_bucket_of(self.view().refilled, task_type@) is None,
                forall|t: Seq<char>| t != task_type@ ==> spec_bucket_of(self.view().buckets, t)
                    == spec_bucket_of(orig, t),
                forall|t: Seq<char>| t != task_type@ ==> spec_bucket_of(self.view().refilled, t)
                    == spec_bucket_of(rorig, t),
            decreases self.buckets.len(),
        {
            match self.find_bucket(&name) {
                Some(i) => {
                    let ghost before = self.view().buckets;
                    let ghost rbefore = self.view().refilled;
                    self.buckets.remove(i);
                    proof {
                        assert(self.view().buckets =~= before.remove(i as int));
                        assert(self.view().refilled =~= rbefore.remove(i as int));
                        assert forall|j: int| 0 <= j < i implies rbefore[j].0 != rbefore[i as int].0 by {
                            assert(before[j].0 != before[i as int].0);
                        }
                        assert forall|t: Seq<char>| t != task_type@ implies spec_bucket_of(self.view().buckets, t)
                            == spec_bucket_of(before, t) by {
                            lemma_bucket_of_remove(before, i as int, t);
                        }
                        assert forall|t: Seq<char>| t != task_type@ implies spec_bucket_of(self.view().refilled, t)
                            == spec_bucket_of(rbefore, t) by {
                            lemma_bucket_of_remove(rbefore, i as int, t);
                        }
                    }
                },
                None => {
                    proof {
                        lemma_same_names(self.view().buckets, self.view().refilled, task_type@);
                    }
                    break;
                },
            }
        }
    }
}

impl Default for RateLimiter {
    fn default() -> (l: Self)
        ensures
            l.wf(),
            l.view().limits == default_limits(),
            l.view().buckets.len() == 0,
            l.view().refilled.len() == 0,
    {
        Self::new()
    }
}

proof fn lemma_bucket_of_update<V>(s: Seq<(Seq<char>, V)>, i: int, b: V, t: Seq<char>)
    requires
        0 <= i < s.len(),
        forall|j: int| 0 <= j < i ==> s[j].0 != s[i].0,
    ensures
        t == s[i].0 ==> spec_bucket_of(s.update(i, (s[i].0, b)), t) == Some(b),
        t != s[i].0 ==> spec_bucket_of(s.update(i, (s[i].0, b)), t) == spec_bucket_of(s, t),
    decreases i,
{
    let u = s.update(i, (s[i].0, b));
    if i > 0 {
        assert(s.drop_first()[i - 1] == s[i]);
        lemma_bucket_of_update(s.drop_first(), i - 1, b, t);
        assert(u.drop_first() =~= s.drop_first().update(i - 1, (s[i].0, b)));
        assert(u[0] == s[0]);
    } else {
        assert(u.drop_first() =~= s.drop_first());
    }
}

proof fn lemma_bucket_of_push<V>(s: Seq<(Seq<char>, V)>, name: Seq<char>, b: V, t: Seq<char>)
    requires
        spec_bucket_of(s, name) is None,
    ensures
        t == name ==> spec_bucket_of(s.push((name, b)), t) == Some(b),
        t != name ==> spec_bucket_of(s.push((name, b)), t) == spec_bucket_of(s, t),
    decreases s.len(),
{
    if s.len() > 0 {
        lemma_bucket_of_push(s.drop_first(), name, b, t);
        assert(s.push((name, b)).drop_first() =~= s.drop_first().push((name, b)));
        assert(s.push((name, b))[0] == s[0]);
    } else {
        assert(s.push((name, b)).drop_first() =~= s);
    }
}

/// The time between a refill read at `refilled_at` and the clock reading
/// `reading`, zero when there was no refill or the reading is earlier.
pub open spec fn spec_elapsed_since(refilled_at: Option<int>, reading: int) -> nat {
    match refilled_at {
        Some(r0) => if reading >= r0 { (reading - r0) as nat } else { 0 },
        None => 0,
    }
}

proof fn lemma_bucket_of_at<V>(s: Seq<(Seq<char>, V)>, i: int)
    requires
        0 <= i < s.len(),
        forall|j: int| 0 <= j < i ==> s[j].0 != s[i].0,
    ensures
        spec_bucket_of(s, s[i].0) == Some(s[i].1),
    decreases i,
{
    if i > 0 {
        assert(s.drop_first()[i - 1] == s[i]);
        lemma_bucket_of_at(s.drop_first(), i - 1);
    }
}

/// Two lists that name the same task types at each place find an entry
/// for the same task types.
proof fn lemma_same_names<V, W>(a: Seq<(Seq<char>, V)>, b: Seq<(Seq<char>, W)>, t: Seq<char>)
    requires
        a.len() == b.len(),
        forall|j: int| 0 <= j < a.len() ==> a[j].0 == b[j].0,
    ensures
        (spec_bucket_of(a, t) is None) == (spec_bucket_of(b, t) is None),
    decreases a.len(),
{
    if a.len() > 0 {
        assert(a[0].0 == b[0].0);
        lemma_same_names(a.drop_first(), b.drop_first(), t);
    }
}

proof fn lemma_bucket_of_remove<V>(s: Seq<(Seq<char>, V)>, i: int, t: Seq<char>)
    requires
        0 <= i < s.len(),
        forall|j: int| 0 <= j < i ==> s[j].0 != s[i].0,
        t != s[i].0,
    ensures
        spec_bucket_of(s.remove(i), t) == spec_bucket_of(s, t),
    decreases i,
{
    if i > 0 {
        assert(s.drop_first()[i - 1] == s[i]);
        lemma_bucket_of_remove(s.drop_first(), i - 1, t);
        assert(s.remove(i).drop_first() =~= s.drop_first().remove(i - 1));
        assert(s.remove(i)[0] == s[0]);
    } else {
        assert(s.remove(0) =~= s.drop_first());
    }
}

/// Total of a sequence of waiting times.
pub open spec fn total(es: Seq<nat>) -> nat
    decreases es.len(),
{
    if es.len() == 0 { 0 } else { total(es.drop_last()) + es.last() }
}

/// A run of attempts on a bucket, the `k`-th after `es[k]` nanoseconds:
/// how many were granted, and the bucket afterwards.
pub open spec fn spec_run(b: BucketView, es: Seq<nat>) -> (nat, BucketView)
    decreases es.len(),
{
    if es.len() == 0 {
        (0, b)
    } else {
        let (g, before) = spec_run(b, es.drop_last());
        let (granted, after) = spec_try_acquire(before, es.last());
        (if granted { g + 1 } else { g }, after)
    }
}

/// Law: a bucket never grants more than it held at the start plus what it
/// regained: over any run of attempts, the granted tokens and what is left
/// add up to at most the starting credit plus the refill at
/// `max_tokens / per_seconds` tokens a second for the time that passed.
pub proof fn law_rate_bound(b: BucketView, es: Seq<nat>)
    requires
        b.per_nanos > 0,
    ensures
        spec_run(b, es).0 * b.per_nanos + spec_run(b, es).1.credit <= b.credit + total(es) * (b.max_tokens as nat),
        spec_run(b, es).1.max_tokens == b.max_tokens,
        spec_run(b, es).1.per_nanos == b.per_nanos,
    decreases es.len(),
{
    if es.len() > 0 {
        let es0 = es.drop_last();
        law_rate_bound(b, es0);
        let (g, before) = spec_run(b, es0);
        let e = es.last();
        let m = b.max_tokens as nat;
        let p = b.per_nanos;
        let r = spec_refill(before, e);
        assert(r.credit <= before.credit + e * m);
        assert(g * p + before.credit <= b.credit + total(es0) * m);
        assert(total(es) == total(es0) + e);
        assert(total(es) * m == total(es0) * m + e * m) by (nonlinear_arith)
            requires total(es) == total(es0) + e;
        assert((g + 1) * p == g * p + p) by (nonlinear_arith);
        let (granted, after) = spec_try_acquire(before, e);
        assert(spec_run(b, es) == (if granted { g + 1 } else { g }, after));
        if granted {
            assert(after.credit + p == r.credit);
            assert((g + 1) * p + after.credit <= b.credit + total(es) * m);
        } else {
            assert(after.credit == r.credit);
            assert(g * p + after.credit <= b.credit + total(es) * m);
        }
    } else {
        assert(0 * b.per_nanos == 0) by (nonlinear_arith);
        assert(0 * (b.max_tokens as nat) == 0) by (nonlinear_arith);
    }
}

proof fn lemma_burst(b: BucketView, k: nat)
    requires
        b.per_nanos > 0,
        b.credit == full_credit(b),
        k <= b.max_tokens,
    ensures
        spec_run(b, Seq::new(k, |i: int| 0nat)).0 == k,
        spec_run(b, Seq::new(k, |i: int| 0nat)).1 == (BucketView { credit: ((b.max_tokens - k) * b.per_nanos) as nat, ..b }),
    decreases k,
{
    if k > 0 {
        let es = Seq::new(k, |i: int| 0nat);
        assert(es.drop_last() =~= Seq::new((k - 1) as nat, |i: int| 0nat));
        lemma_burst(b, (k - 1) as nat);
        assert((b.max_tokens - (k - 1)) * b.per_nanos == (b.max_tokens - k) * b.per_nanos + b.per_nanos) by (nonlinear_arith);
        assert((b.max_tokens - (k - 1)) * b.per_nanos <= b.max_tokens * b.per_nanos) by (nonlinear_arith)
            requires k >= 1, b.max_tokens >= k;
    }
}

/// Law: a full bucket grants exactly `max_tokens` attempts in a row when
/// no time passes, and refuses the next one.
pub proof fn law_full_bucket_burst(b: BucketView)
    requires
        b.per_nanos > 0,
        b.credit == full_credit(b),
    ensures
        spec_run(b, Seq::new(b.max_tokens as nat, |i: int| 0nat)).0 == b.max_tokens,
        spec_run(b, Seq::new(b.max_tokens as nat + 1, |i: int| 0nat)).0 == b.max_tokens,
{
    lemma_burst(b, b.max_tokens as nat);
    let es = Seq::new(b.max_tokens as nat + 1, |i: int| 0nat);
    assert(es.drop_last() =~= Seq::new(b.max_tokens as nat, |i: int| 0nat));
}

/// Law: a task type without a limit is always allowed, and the first
/// check of a limited type (at the start, or after `reset`) is allowed when
/// its limit grants at least one task.
pub proof fn law_fresh_check_allowed(l: LimiterView, task_type: Seq<char>, elapsed: nat)
    requires
        spec_bucket_of(l.buckets, task_type) is None,
        spec_limit_of(l.limits, task_type) is Some ==> spec_limit_of(l.limits, task_type)->Some_0.max_tokens >= 1,
    ensures
        spec_check(l, task_type, elapsed).0,
{
    match spec_limit_of(l.limits, task_type) {
        Some(limit) => {
            let b = spec_new_bucket(limit.max_tokens, limit.per_seconds);
            let r = spec_refill(b, 0);
            if b.per_nanos > 0 {
                assert(r.credit >= r.per_nanos) by (nonlinear_arith)
                    requires
                        r.credit == limit.max_tokens as nat * r.per_nanos,
                        limit.max_tokens >= 1,
                ;
            }
        },
        None => {},
    }
}

/// The times between successive checks whose clock readings are
/// `readings`, the first measured from a refill read at `r0`: what each
/// check of `check` takes as the time since the last refill.
pub open spec fn spec_gaps(r0: int, readings: Seq<int>) -> Seq<nat> {
    Seq::new(
        readings.len(),
        |k: int| spec_elapsed_since(Some(if k == 0 { r0 } else { readings[k - 1] }), readings[k]),
    )
}

proof fn lemma_gaps_total(r0: int, readings: Seq<int>)
    requires
        readings.len() > 0,
        r0 <= readings[0],
        forall|i: int, j: int| 0 <= i <= j < readings.len() ==> readings[i] <= readings[j],
    ensures
        total(spec_gaps(r0, readings)) == readings.last() - r0,
    decreases readings.len(),
{
    let g = spec_gaps(r0, readings);
    let n = readings.len() as int;
    if n == 1 {
        assert(g.drop_last() =~= Seq::<nat>::empty());
        assert(g.last() == readings[0] - r0);
        assert(total(g.drop_last()) == 0);
        assert(total(g) == total(g.drop_last()) + g.last());
    } else {
        let rest = readings.drop_last();
        lemma_gaps_total(r0, rest);
        assert(g.drop_last() =~= spec_gaps(r0, rest));
        assert(readings[n - 2] <= readings[n - 1]);
        assert(g.last() == readings[n - 1] - readings[n - 2]);
        assert(rest.last() == readings[n - 2]);
        assert(total(g) == total(g.drop_last()) + g.last());
    }
}

/// Law: over real time, a task type's checks stay within its rate. For a
/// bucket of `max_tokens` per `per_nanos` nanoseconds, refilled at clock
/// reading `r0`, and checks at the nondecreasing readings `readings` (the
/// monotonic clock never goes back), the checks that are allowed, each
/// worth `per_nanos`, add up to at most a full bucket plus `max_tokens` for
/// every nanosecond from `r0` to the last reading: at most `max_tokens +
/// T * max_tokens / per_seconds` tasks in a window of `T` seconds.
pub proof fn law_rate_bound_over_time(b: BucketView, r0: int, readings: Seq<int>)
    requires
        b.per_nanos > 0,
        b.credit <= full_credit(b),
        readings.len() > 0,
        r0 <= readings[0],
        forall|i: int, j: int| 0 <= i <= j < readings.len() ==> readings[i] <= readings[j],
    ensures
        spec_run(b, spec_gaps(r0, readings)).0 * b.per_nanos <= full_credit(b) + (readings.last() - r0)
            * (b.max_tokens as int),
{
    let g = spec_gaps(r0, readings);
    lemma_gaps_total(r0, readings);
    law_rate_bound(b, g);
}

/// A run of checks of one task type at the clock readings `readings`,
/// with nothing else done to that type in between: how many were allowed,
/// and the type's bucket and refill reading afterwards.
pub open spec fn spec_type_run(
    limit: Option<LimitView>,
    bucket: Option<BucketView>,
    refilled: Option<int>,
    readings: Seq<int>,
) -> (nat, Option<BucketView>, Option<int>)
    decreases readings.len(),
{
    if readings.len() == 0 {
        (0, bucket, refilled)
    } else {
        let (g, b, r) = spec_type_run(limit, bucket, refilled, readings.drop_last());
        let (ok, b2, r2) = spec_type_check(limit, b, r, readings.last());
        (if ok { g + 1 } else { g }, b2, r2)
    }
}

/// Checks of a type with a bucket follow the bucket's own run over the
/// gaps between the readings.
proof fn lemma_type_run_is_bucket_run(lim: LimitView, b: BucketView, r0: int, readings: Seq<int>)
    requires
        readings.len() > 0,
    ensures
        spec_type_run(Some(lim), Some(b), Some(r0), readings) == (
            spec_run(b, spec_gaps(r0, readings)).0,
            Some(spec_run(b, spec_gaps(r0, readings)).1),
            Some(readings.last()),
        ),
    decreases readings.len(),
{
    let g = spec_gaps(r0, readings);
    let n = readings.len() as int;
    let rest = readings.drop_last();
    let prev = if n == 1 { r0 } else { readings[n - 2] };
    assert(g.last() == spec_elapsed_since(Some(prev), readings.last()));
    if n == 1 {
        assert(g.drop_last() =~= Seq::<nat>::empty());
        assert(rest =~= Seq::<int>::empty());
        assert(spec_type_run(Some(lim), Some(b), Some(r0), rest) == (0nat, Some(b), Some(r0)));
        assert(spec_run(b, g.drop_last()) == (0nat, b));
    } else {
        lemma_type_run_is_bucket_run(lim, b, r0, rest);
        assert(g.drop_last() =~= spec_gaps(r0, rest));
        assert(rest.last() == readings[n - 2]);
    }
    let (g0, b0, q0) = spec_type_run(Some(lim), Some(b), Some(r0), rest);
    assert(b0 == Some(spec_run(b, g.drop_last()).1));
    assert(q0 == Some(prev));
    assert(g0 == spec_run(b, g.drop_last()).0);
}

/// The first check of a type without a bucket acts as a check of a full
/// bucket refilled at that very reading.
proof fn lemma_type_run_fresh(lim: LimitView, refilled: Option<int>, readings: Seq<int>)
    requires
        readings.len() > 0,
    ensures
        spec_type_run(Some(lim), None, refilled, readings) == spec_type_run(
            Some(lim),
            Some(spec_new_bucket(lim.max_tokens, lim.per_seconds)),
            Some(readings[0]),
            readings,
        ),
    decreases readings.len(),
{
    let n = readings.len() as int;
    let rest = readings.drop_last();
    let nb = spec_new_bucket(lim.max_tokens, lim.per_seconds);
    if n == 1 {
        assert(rest =~= Seq::<int>::empty());
        assert(spec_type_run(Some(lim), None, refilled, rest) == (0nat, None::<BucketView>, refilled));
        assert(spec_type_run(Some(lim), Some(nb), Some(readings[0]), rest) == (0nat, Some(nb), Some(readings[0])));
        assert(spec_elapsed_since(Some(readings[0]), readings.last()) == 0);
    } else {
        lemma_type_run_fresh(lim, refilled, rest);
        assert(rest[0] == readings[0]);
    }
}

/// Law: a task type's checks stay within its rate limit. For a type limited
/// to `max_tokens` tasks per `per_seconds > 0` seconds, checked at the
/// nondecreasing clock readings `readings` with no `reset` of the type in
/// between, the allowed checks, each worth `per_seconds * 10^9`, add up to at
/// most a full bucket (`max_tokens` of them) plus `max_tokens` for every
/// nanosecond from the start to the last reading: at most `max_tokens + T *
/// max_tokens / per_seconds` tasks in `T` seconds. The start is the type's
/// last refill when it already has a bucket made under this limit, and the
/// first reading otherwise.
pub proof fn law_checks_within_rate(lim: LimitView, bucket: Option<BucketView>, refilled: Option<int>, readings: Seq<int>)
    requires
        lim.per_seconds > 0,
        readings.len() > 0,
        forall|i: int, j: int| 0 <= i <= j < readings.len() ==> readings[i] <= readings[j],
        bucket is Some ==> {
            &&& bucket->0.max_tokens == lim.max_tokens
            &&& bucket->0.per_nanos == lim.per_seconds as nat * 1_000_000_000
            &&& bucket->0.credit <= full_credit(bucket->0)
            &&& refilled is Some
            &&& refilled->0 <= readings[0]
        },
    ensures
        ({
            let start = if bucket is Some { refilled->0 } else { readings[0] };
            let per_nanos = lim.per_seconds as nat * 1_000_000_000;
            spec_type_run(Some(lim), bucket, refilled, readings).0 * per_nanos
                <= lim.max_tokens as nat * per_nanos + (readings.last() - start) * (lim.max_tokens as int)
        }),
{
    let per_nanos = lim.per_seconds as nat * 1_000_000_000;
    assert(per_nanos > 0) by (nonlinear_arith)
        requires lim.per_seconds > 0, per_nanos == lim.per_seconds as nat * 1_000_000_000;
    match bucket {
        Some(b) => {
            let r0 = refilled->0;
            lemma_type_run_is_bucket_run(lim, b, r0, readings);
            law_rate_bound_over_time(b, r0, readings);
        },
        None => {
            let b = spec_new_bucket(lim.max_tokens, lim.per_seconds);
            lemma_type_run_fresh(lim, refilled, readings);
            lemma_type_run_is_bucket_run(lim, b, readings[0], readings);
            law_rate_bound_over_time(b, readings[0], readings);
        },
    }
}

/// Law: every check of a task type without a limit is allowed, and leaves
/// that type's state as it was.
pub proof fn law_unlimited_always_allowed(bucket: Option<BucketView>, refilled: Option<int>, readings: Seq<int>)
    ensures
        spec_type_run(None, bucket, refilled, readings) == (readings.len(), bucket, refilled),
    decreases readings.len(),
{
    if readings.len() > 0 {
        law_unlimited_always_allowed(bucket, refilled, readings.drop_last());
    }
}

proof fn lemma_limit_of_last(limits: Seq<LimitView>, task_type: Seq<char>, k: int)
    requires
        0 <= k < limits.len(),
        limits[k].task_type == task_type,
        forall|j: int| k < j < limits.len() ==> limits[j].task_type != task_type,
    ensures
        spec_limit_of(limits, task_type) == Some(limits[k]),
    decreases limits.len(),
{
    if k < limits.len() - 1 {
        let rest = limits.drop_last();
        assert forall|j: int| k < j < rest.len() implies rest[j].task_type != task_type by {
            assert(rest[j] == limits[j]);
        }
        lemma_limit_of_last(rest, task_type, k);
        assert(rest[k] == limits[k]);
    }
}

/// Law: the default limits, per task type: server start, stop and restart
/// 10 a minute; server create and delete 5 a minute; backup create 3 an
/// hour and backup restore 2 an hour; ssh execute 30 a minute; metrics
/// report 60 a minute.
pub proof fn law_default_limit_values()
    ensures
        spec_limit_of(default_limits(), "server.start"@) == Some(LimitView { task_type: "server.start"@, max_tokens: 10, per_seconds: 60 }),
        spec_limit_of(default_limits(), "server.stop"@) == Some(LimitView { task_type: "server.stop"@, max_tokens: 10, per_seconds: 60 }),
        spec_limit_of(default_limits(), "server.restart"@) == Some(LimitView { task_type: "server.restart"@, max_tokens: 10, per_seconds: 60 }),
        spec_limit_of(default_limits(), "server.create"@) == Some(LimitView { task_type: "server.create"@, max_tokens: 5, per_seconds: 60 }),
        spec_limit_of(default_limits(), "server.delete"@) == Some(LimitView { task_type: "server.delete"@, max_tokens: 5, per_seconds: 60 }),
        spec_limit_of(default_limits(), "backup.create"@) == Some(LimitView { task_type: "backup.create"@, max_tokens: 3, per_seconds: 3600 }),
        spec_limit_of(default_limits(), "backup.restore"@) == Some(LimitView { task_type: "backup.restore"@, max_tokens: 2, per_seconds: 3600 }),
        spec_limit_of(default_limits(), "ssh.execute"@) == Some(LimitView { task_type: "ssh.execute"@, max_tokens: 30, per_seconds: 60 }),
        spec_limit_of(default_limits(), "metrics.report"@) == Some(LimitView { task_type: "metrics.report"@, max_tokens: 60, per_seconds: 60 }),
{
    reveal_strlit("server.start");
    reveal_strlit("server.stop");
    reveal_strlit("server.restart");
    reveal_strlit("server.create");
    reveal_strlit("server.delete");
    reveal_strlit("backup.create");
    reveal_strlit("backup.restore");
    reveal_strlit("ssh.execute");
    reveal_strlit("metrics.report");
    lemma_text_differs("server.stop"@, "ssh.execute"@, 1);
    lemma_text_differs("server.restart"@, "backup.restore"@, 0);
    lemma_text_differs("server.restart"@, "metrics.report"@, 0);
    lemma_text_differs("server.create"@, "server.delete"@, 7);
    lemma_text_differs("server.create"@, "backup.create"@, 0);
    lemma_text_differs("server.delete"@, "server.create"@, 7);
    lemma_text_differs("server.delete"@, "backup.create"@, 0);
    lemma_text_differs("backup.create"@, "server.create"@, 0);
    lemma_text_differs("backup.create"@, "server.delete"@, 0);
    lemma_text_differs("backup.restore"@, "server.restart"@, 0);
    lemma_text_differs("backup.restore"@, "metrics.report"@, 0);
    lemma_text_differs("ssh.execute"@, "server.stop"@, 1);
    lemma_text_differs("metrics.report"@, "server.restart"@, 0);
    lemma_text_differs("metrics.report"@, "backup.restore"@, 0);
    let d = default_limits();
    assert forall|j: int| 0 < j < 9 implies d[j].task_type != "server.start"@ by {
        if j == 1 {
            assert(d[1].task_type == "server.stop"@);
            assert("server.stop"@.len() != "server.start"@.len() || "server.stop"@ != "server.start"@);
        } else if j == 2 {
            assert(d[2].task_type == "server.restart"@);
            assert("server.restart"@.len() != "server.start"@.len() || "server.restart"@ != "server.start"@);
        } else if j == 3 {
            assert(d[3].task_type == "server.create"@);
            assert("server.create"@.len() != "server.start"@.len() || "server.create"@ != "server.start"@);
        } else if j == 4 {
            assert(d[4].task_type == "server.delete"@);
            assert("server.delete"@.len() != "server.start"@.len() || "server.delete"@ != "server.start"@);
        } else if j == 5 {
            assert(d[5].task_type == "backup.create"@);
            assert("backup.create"@.len() != "server.start"@.len() || "backup.create"@ != "server.start"@);
        } else if j == 6 {
            assert(d[6].task_type == "backup.restore"@);
            assert("backup.restore"@.len() != "server.start"@.len() || "backup.restore"@ != "server.start"@);
        } else if j == 7 {
            assert(d[7].task_type == "ssh.execute"@);
            assert("ssh.execute"@.len() != "server.start"@.len() || "ssh.execute"@ != "server.start"@);
        } else if j == 8 {
            assert(d[8].task_type == "metrics.report"@);
            assert("metrics.report"@.len() != "server.start"@.len() || "metrics.report"@ != "server.start"@);
        }
    }
    lemma_limit_of_last(d, "server.start"@, 0);
    assert forall|j: int| 1 < j < 9 implies d[j].task_type != "server.stop"@ by {
        if j == 2 {
            assert(d[2].task_type == "server.restart"@);
            assert("server.restart"@.len() != "server.stop"@.len() || "server.restart"@ != "server.stop"@);
        } else if j == 3 {
            assert(d[3].task_type == "server.create"@);
            assert("server.create"@.len() != "server.stop"@.len() || "server.create"@ != "server.stop"@);
        } else if j == 4 {
            assert(d[4].task_type == "server.delete"@);
            assert("server.delete"@.len() != "server.stop"@.len() || "server.delete"@ != "server.stop"@);
        } else if j == 5 {
            assert(d[5].task_type == "backup.create"@);
            assert("backup.create"@.len() != "server.stop"@.len() || "backup.create"@ != "server.stop"@);
        } else if j == 6 {
            assert(d[6].task_type == "backup.restore"@);
            assert("backup.restore"@.len() != "server.stop"@.len() || "backup.restore"@ != "server.stop"@);
        } else if j == 7 {
            assert(d[7].task_type == "ssh.execute"@);
            assert("ssh.execute"@.len() != "server.stop"@.len() || "ssh.execute"@ != "server.stop"@);
        } else if j == 8 {
            assert(d[8].task_type == "metrics.report"@);
            assert("metrics.report"@.len() != "server.stop"@.len() || "metrics.report"@ != "server.stop"@);
        }
    }
    lemma_limit_of_last(d, "server.stop"@, 1);
    assert forall|j: int| 2 < j < 9 implies d[j].task_type != "server.restart"@ by {
        if j == 3 {
            assert(d[3].task_type == "server.create"@);
            assert("server.create"@.len() != "server.restart"@.len() || "server.create"@ != "server.restart"@);
        } else if j == 4 {
            assert(d[4].task_type == "server.delete"@);
            assert("server.delete"@.len() != "server.restart"@.len() || "server.delete"@ != "server.restart"@);
        } else if j == 5 {
            assert(d[5].task_type == "backup.create"@);
            assert("backup.create"@.len() != "server.restart"@.len() || "backup.create"@ != "server.restart"@);
        } else if j == 6 {
            assert(d[6].task_type == "backup.restore"@);
            assert("backup.restore"@.len() != "server.restart"@.len() || "backup.restore"@ != "server.restart"@);
        } else if j == 7 {
            assert(d[7].task_type == "ssh.execute"@);
            assert("ssh.execute"@.len() != "server.restart"@.len() || "ssh.execute"@ != "server.restart"@);
        } else if j == 8 {
            assert(d[8].task_type == "metrics.report"@);
            assert("metrics.report"@.len() != "server.restart"@.len() || "metrics.report"@ != "server.restart"@);
        }
    }
    lemma_limit_of_last(d, "server.restart"@, 2);
    assert forall|j: int| 3 < j < 9 implies d[j].task_type != "server.create"@ by {
        if j == 4 {
            assert(d[4].task_type == "server.delete"@);
            assert("server.delete"@.len() != "server.create"@.len() || "server.delete"@ != "server.create"@);
        } else if j == 5 {
            assert(d[5].task_type == "backup.create"@);
            assert("backup.create"@.len() != "server.create"@.len() || "backup.create"@ != "server.create"@);
        } else if j == 6 {
            assert(d[6].task_type == "backup.restore"@);
            assert("backup.restore"@.len() != "server.create"@.len() || "backup.restore"@ != "server.create"@);
        } else if j == 7 {
            assert(d[7].task_type == "ssh.execute"@);
            assert("ssh.execute"@.len() != "server.create"@.len() || "ssh.execute"@ != "server.create"@);
        } else if j == 8 {
            assert(d[8].task_type == "metrics.report"@);
            assert("metrics.report"@.len() != "server.create"@.len() || "metrics.report"@ != "server.create"@);
        }
    }
    lemma_limit_of_last(d, "server.create"@, 3);
    assert forall|j: int| 4 < j < 9 implies d[j].task_type != "server.delete"@ by {
        if j == 5 {
            assert(d[5].task_type == "backup.create"@);
            assert("backup.create"@.len() != "server.delete"@.len() || "backup.create"@ != "server.delete"@);
        } else if j == 6 {
            assert(d[6].task_type == "backup.restore"@);
            assert("backup.restore"@.len() != "server.delete"@.len() || "backup.restore"@ != "server.delete"@);
        } else if j == 7 {
            assert(d[7].task_type == "ssh.execute"@);
            assert("ssh.execute"@.len() != "server.delete"@.len() || "ssh.execute"@ != "server.delete"@);
        } else if j == 8 {
            assert(d[8].task_type == "metrics.report"@);
            assert("metrics.report"@.len() != "server.delete"@.len() || "metrics.report"@ != "server.delete"@);
        }
    }
    lemma_limit_of_last(d, "server.delete"@, 4);
    assert forall|j: int| 5 < j < 9 implies d[j].task_type != "backup.create"@ by {
        if j == 6 {
            assert(d[6].task_type == "backup.restore"@);
            assert("backup.restore"@.len() != "backup.create"@.len() || "backup.restore"@ != "backup.create"@);
        } else if j == 7 {
            assert(d[7].task_type == "ssh.execute"@);
            assert("ssh.execute"@.len() != "backup.create"@.len() || "ssh.execute"@ != "backup.create"@);
        } else if j == 8 {
            assert(d[8].task_type == "metrics.report"@);
            assert("metrics.report"@.len() != "backup.create"@.len() || "metrics.report"@ != "backup.create"@);
        }
    }
    lemma_limit_of_last(d, "backup.create"@, 5);
    assert forall|j: int| 6 < j < 9 implies d[j].task_type != "backup.restore"@ by {
        if j == 7 {
            assert(d[7].task_type == "ssh.execute"@);
            assert("ssh.execute"@.len() != "backup.restore"@.len() || "ssh.execute"@ != "backup.restore"@);
        } else if j == 8 {
            assert(d[8].task_type == "metrics.report"@);
            assert("metrics.report"@.len() != "backup.restore"@.len() || "metrics.report"@ != "backup.restore"@);
        }
    }
    lemma_limit_of_last(d, "backup.restore"@, 6);
    assert forall|j: int| 7 < j < 9 implies d[j].task_type != "ssh.execute"@ by {
        if j == 8 {
            assert(d[8].task_type == "metrics.report"@);
            assert("metrics.report"@.len() != "ssh.execute"@.len() || "metrics.report"@ != "ssh.execute"@);
        }
    }
    lemma_limit_of_last(d, "ssh.execute"@, 7);
    lemma_limit_of_last(d, "metrics.report"@, 8);
}

/// Law: a task type checked for the first time is allowed exactly
/// `max_tokens` times in a burst: of `max_tokens + 1` checks at one clock
/// reading, `max_tokens` are allowed and the last is refused.
pub proof fn law_fresh_type_burst(lim: LimitView, refilled: Option<int>, reading: int)
    requires
        lim.per_seconds > 0,
    ensures
        spec_type_run(Some(lim), None, refilled, Seq::new(lim.max_tokens as nat, |i: int| reading)).0 == lim.max_tokens,
        spec_type_run(Some(lim), None, refilled, Seq::new(lim.max_tokens as nat + 1, |i: int| reading)).0 == lim.max_tokens,
{
    let b = spec_new_bucket(lim.max_tokens, lim.per_seconds);
    assert(b.per_nanos > 0) by (nonlinear_arith)
        requires lim.per_seconds > 0, b.per_nanos == lim.per_seconds as nat * 1_000_000_000;
    law_full_bucket_burst(b);
    let m = lim.max_tokens as nat;
    let all = Seq::new(m + 1, |i: int| reading);
    assert(spec_gaps(reading, all) =~= Seq::new(m + 1, |i: int| 0nat));
    lemma_type_run_fresh(lim, refilled, all);
    lemma_type_run_is_bucket_run(lim, b, reading, all);
    if m > 0 {
        let some = Seq::new(m, |i: int| reading);
        assert(spec_gaps(reading, some) =~= Seq::new(m, |i: int| 0nat));
        lemma_type_run_fresh(lim, refilled, some);
        lemma_type_run_is_bucket_run(lim, b, reading, some);
    } else {
        assert(Seq::new(m, |i: int| reading) =~= Seq::<int>::empty());
    }
}

} // verus!
