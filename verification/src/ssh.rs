//! SSH: how a session is authenticated, the address it connects to, and a
//! pool of idle clients by key. The sessions themselves are ssh2's, run by
//! the caller.

use crate::clock::{duration_from_secs, duration_nanos};
use crate::proto::task::{TaskError, TaskErrorView};
use crate::text::{append_decimal, spec_decimal};
use std::time::Duration;
use vstd::prelude::*;

verus! {

/// The text `host:port` that a connection is made to.
pub open spec fn spec_host_port(host: Seq<char>, port: u16) -> Seq<char> {
    host + ":"@ + spec_decimal(port as nat)
}

/// The text `host:port` that a connection is made to.
pub fn host_port(host: &str, port: u16) -> (s: String)
    ensures
        s@ == spec_host_port(host@, port),
{
    let mut s = String::from_str(host);
    s.append(":");
    append_decimal(&mut s, port as u64);
    s
}

/// How a session proves who it is.
#[derive(Debug)]
pub enum SshAuth {
    Password(String),
    KeyFile(String),
}

/// The way of logging in: a password when one is given, else a key file;
/// with neither, the `NO_AUTH_METHOD` error.
pub fn auth_method(password: Option<&str>, key_path: Option<&str>) -> (r: Result<SshAuth, TaskError>)
    ensures
        password is Some ==> (r matches Ok(SshAuth::Password(p)) && p@ == password->Some_0@),
        password is None && key_path is Some ==> (r matches Ok(SshAuth::KeyFile(k)) && k@ == key_path->Some_0@),
        password is None && key_path is None ==> (r matches Err(e) && e@ == (TaskErrorView {
            code: "NO_AUTH_METHOD"@,
            message: "Either password or key required"@,
            retryable: false,
            details: None,
        })),
{
    match password {
        Some(p) => Ok(SshAuth::Password(String::from_str(p))),
        None => match key_path {
            Some(k) => Ok(SshAuth::KeyFile(String::from_str(k))),
            None => Err(TaskError::new("NO_AUTH_METHOD", "Either password or key required", false)),
        },
    }
}

/// The outcome of a login whose method raised no error: refused when the
/// session still is not authenticated.
pub fn check_authenticated(authenticated: bool) -> (r: Result<(), TaskError>)
    ensures
        authenticated ==> r is Ok,
        !authenticated ==> (r matches Err(e) && e@ == (TaskErrorView {
            code: "AUTH_FAILED"@,
            message: "Authentication failed"@,
            retryable: false,
            details: None,
        })),
{
    if authenticated {
        Ok(())
    } else {
        Err(TaskError::new("AUTH_FAILED", "Authentication failed", false))
    }
}

/// The entries of a list, by key.
pub open spec fn entries_map<C>(s: Seq<(String, C)>) -> Map<Seq<char>, C> {
    Map::new(
        |k: Seq<char>| exists|i: int| 0 <= i < s.len() && #[trigger] s[i].0@ == k,
        |k: Seq<char>| s[choose|i: int| 0 <= i < s.len() && #[trigger] s[i].0@ == k].1,
    )
}

/// No two entries of a list share a key.
pub open spec fn keys_distinct<C>(s: Seq<(String, C)>) -> bool {
    forall|i: int, j: int| 0 <= i < j < s.len() ==> #[trigger] s[i].0@ != #[trigger] s[j].0@
}

proof fn lemma_entry_at<C>(s: Seq<(String, C)>, i: int)
    requires
        keys_distinct(s),
        0 <= i < s.len(),
    ensures
        entries_map(s).dom().contains(s[i].0@),
        entries_map(s)[s[i].0@] == s[i].1,
{
    let k = s[i].0@;
    assert(entries_map(s).dom().contains(k));
    let j = choose|j: int| 0 <= j < s.len() && #[trigger] s[j].0@ == k;
    if j < i {
        assert(s[j].0@ != s[i].0@);
    } else if i < j {
        assert(s[i].0@ != s[j].0@);
    }
}

proof fn lemma_entries_push<C>(s: Seq<(String, C)>, e: (String, C))
    requires
        keys_distinct(s),
        !entries_map(s).dom().contains(e.0@),
    ensures
        keys_distinct(s.push(e)),
        entries_map(s.push(e)) == entries_map(s).insert(e.0@, e.1),
{
    let t = s.push(e);
    assert forall|a: int, b: int| 0 <= a < b < t.len() implies #[trigger] t[a].0@ != #[trigger] t[b].0@ by {
        if b == s.len() {
            if s[a].0@ == e.0@ {
                assert(entries_map(s).dom().contains(e.0@));
            }
        } else {
            assert(s[a].0@ != s[b].0@);
        }
    }
    lemma_entry_at(t, s.len() as int);
    assert forall|k: Seq<char>| k != e.0@ implies (#[trigger] entries_map(t).dom().contains(k))
        == entries_map(s).dom().contains(k) by {
        if entries_map(t).dom().contains(k) {
            let i = choose|i: int| 0 <= i < t.len() && #[trigger] t[i].0@ == k;
            assert(s[i].0@ == k);
        }
        if entries_map(s).dom().contains(k) {
            let i = choose|i: int| 0 <= i < s.len() && #[trigger] s[i].0@ == k;
            assert(t[i].0@ == k);
        }
    }
    assert forall|k: Seq<char>| k != e.0@ && #[trigger] entries_map(t).dom().contains(k) implies entries_map(t)[k]
        == entries_map(s)[k] by {
        let i = choose|i: int| 0 <= i < t.len() && #[trigger] t[i].0@ == k;
        lemma_entry_at(t, i);
        lemma_entry_at(s, i);
    }
    assert(entries_map(t) =~= entries_map(s).insert(e.0@, e.1));
}

proof fn lemma_entries_update<C>(s: Seq<(String, C)>, i: int, e: (String, C))
    requires
        keys_distinct(s),
        0 <= i < s.len(),
        e.0@ == s[i].0@,
    ensures
        keys_distinct(s.update(i, e)),
        entries_map(s.update(i, e)) == entries_map(s).insert(e.0@, e.1),
{
    let t = s.update(i, e);
    assert forall|a: int, b: int| 0 <= a < b < t.len() implies #[trigger] t[a].0@ != #[trigger] t[b].0@ by {
        assert(s[a].0@ != s[b].0@);
    }
    lemma_entry_at(t, i);
    assert forall|k: Seq<char>| k != e.0@ implies (#[trigger] entries_map(t).dom().contains(k))
        == entries_map(s).dom().contains(k) by {
        if entries_map(t).dom().contains(k) {
            let j = choose|j: int| 0 <= j < t.len() && #[trigger] t[j].0@ == k;
            assert(s[j].0@ == k);
        }
        if entries_map(s).dom().contains(k) {
            let j = choose|j: int| 0 <= j < s.len() && #[trigger] s[j].0@ == k;
            assert(t[j].0@ == k);
        }
    }
    assert forall|k: Seq<char>| k != e.0@ && #[trigger] entries_map(t).dom().contains(k) implies entries_map(t)[k]
        == entries_map(s)[k] by {
        let j = choose|j: int| 0 <= j < t.len() && #[trigger] t[j].0@ == k;
        lemma_entry_at(t, j);
        lemma_entry_at(s, j);
    }
    assert(entries_map(t) =~= entries_map(s).insert(e.0@, e.1));
}

proof fn lemma_entries_remove<C>(s: Seq<(String, C)>, i: int)
    requires
        keys_distinct(s),
        0 <= i < s.len(),
    ensures
        keys_distinct(s.remove(i)),
        entries_map(s.remove(i)) == entries_map(s).remove(s[i].0@),
{
    let t = s.remove(i);
    let gone = s[i].0@;
    assert forall|a: int, b: int| 0 <= a < b < t.len() implies #[trigger] t[a].0@ != #[trigger] t[b].0@ by {
        let sa = if a < i { a } else { a + 1 };
        let sb = if b < i { b } else { b + 1 };
        assert(t[a] == s[sa]);
        assert(t[b] == s[sb]);
        assert(s[sa].0@ != s[sb].0@);
    }
    assert forall|k: Seq<char>| (#[trigger] entries_map(t).dom().contains(k)) == (entries_map(s).dom().contains(k)
        && k != gone) by {
        if entries_map(t).dom().contains(k) {
            let j = choose|j: int| 0 <= j < t.len() && #[trigger] t[j].0@ == k;
            let sj = if j < i { j } else { j + 1 };
            assert(t[j] == s[sj]);
            assert(s[sj].0@ == k);
            if k == gone {
                if sj < i {
                    assert(s[sj].0@ != s[i].0@);
                } else {
                    assert(s[i].0@ != s[sj].0@);
                }
            }
        }
        if entries_map(s).dom().contains(k) && k != gone {
            let j = choose|j: int| 0 <= j < s.len() && #[trigger] s[j].0@ == k;
            assert(j != i);
            let tj = if j < i { j } else { j - 1 };
            assert(t[tj] == s[j]);
            assert(t[tj].0@ == k);
        }
    }
    assert forall|k: Seq<char>| #[trigger] entries_map(t).dom().contains(k) implies entries_map(t)[k]
        == entries_map(s)[k] by {
        let j = choose|j: int| 0 <= j < t.len() && #[trigger] t[j].0@ == k;
        let sj = if j < i { j } else { j + 1 };
        assert(t[j] == s[sj]);
        lemma_entry_at(t, j);
        lemma_entry_at(s, sj);
    }
    assert(entries_map(t) =~= entries_map(s).remove(gone));
}

proof fn lemma_entries_len<C>(s: Seq<(String, C)>)
    requires
        keys_distinct(s),
    ensures
        entries_map(s).dom().finite(),
        entries_map(s).dom().len() == s.len(),
    decreases s.len(),
{
    if s.len() == 0 {
        assert(entries_map(s).dom() =~= Set::<Seq<char>>::empty());
    } else {
        let t = s.drop_last();
        assert(keys_distinct(t)) by {
            assert forall|a: int, b: int| 0 <= a < b < t.len() implies #[trigger] t[a].0@ != #[trigger] t[b].0@ by {
                assert(s[a].0@ != s[b].0@);
            }
        }
        lemma_entries_len(t);
        let last = s.last();
        if entries_map(t).dom().contains(last.0@) {
            let j = choose|j: int| 0 <= j < t.len() && #[trigger] t[j].0@ == last.0@;
            assert(s[j].0@ != s[s.len() - 1].0@);
        }
        lemma_entries_push(t, last);
        assert(t.push(last) =~= s);
    }
}

/// A pool of idle clients by key, holding at most `max_idle` of them after
/// each insertion of a new key: when it is full, one client leaves first.
pub struct SshPool<C> {
    clients: Vec<(String, C)>,
    max_idle: usize,
    max_age: Duration,
}

impl<C> View for SshPool<C> {
    type V = Map<Seq<char>, C>;

    closed spec fn view(&self) -> Map<Seq<char>, C> {
        entries_map(self.clients@)
    }
}

impl<C> SshPool<C> {
    pub closed spec fn wf(&self) -> bool {
        keys_distinct(self.clients@)
    }

    /// How many clients the pool keeps before one leaves.
    pub closed spec fn spec_max_idle(&self) -> usize {
        self.max_idle
    }

    /// The longest a client is meant to stay, in nanoseconds.
    pub closed spec fn spec_max_age_nanos(&self) -> nat {
        duration_nanos(self.max_age)
    }

    pub fn new(max_idle: usize, max_age_seconds: u64) -> (p: Self)
        ensures
            p.wf(),
            p@ == Map::<Seq<char>, C>::empty(),
            p.spec_max_idle() == max_idle,
            p.spec_max_age_nanos() == max_age_seconds as nat * 1_000_000_000,
    {
        let p = SshPool { clients: Vec::new(), max_idle, max_age: duration_from_secs(max_age_seconds) };
        assert(p@ =~= Map::<Seq<char>, C>::empty());
        p
    }

    fn find(&self, key: &String) -> (r: Option<usize>)
        requires
            self.wf(),
        ensures
            match r {
                Some(i) => i < self.clients@.len() && self.clients@[i as int].0@ == key@ && self@.dom().contains(key@)
                    && self@[key@] == self.clients@[i as int].1,
                None => !self@.dom().contains(key@),
            },
    {
        let mut i: usize = 0;
        while i < self.clients.len()
            invariant
                self.wf(),
                i <= self.clients@.len(),
                forall|j: int| 0 <= j < i ==> self.clients@[j].0@ != key@,
            decreases self.clients@.len() - i,
        {
            if self.clients[i].0 == *key {
                proof {
                    lemma_entry_at(self.clients@, i as int);
                }
                return Some(i);
            }
            i = i + 1;
        }
        None
    }

    /// The client kept under `key`, if any.
    pub fn get_client(&self, key: &str) -> (r: Option<&C>)
        requires
            self.wf(),
        ensures
            match r {
                Some(c) => self@.dom().contains(key@) && *c == self@[key@],
                None => !self@.dom().contains(key@),
            },
    {
        let key = String::from_str(key);
        match self.find(&key) {
            Some(i) => Some(&self.clients[i].1),
            None => None,
        }
    }

    /// Keeps `client` under `key`, in place of any client of that key. When
    /// the pool already holds `max_idle` clients or more, one of them
    /// leaves first (which one is not promised).
    pub fn put_client(&mut self, key: String, client: C)
        requires
            old(self).wf(),
        ensures
            final(self).wf(),
            final(self).spec_max_idle() == old(self).spec_max_idle(),
            final(self).spec_max_age_nanos() == old(self).spec_max_age_nanos(),
            old(self)@.dom().len() < old(self).spec_max_idle() || old(self)@.dom().len() == 0 ==> final(self)@
                == old(self)@.insert(key@, client),
            old(self)@.dom().len() >= old(self).spec_max_idle() && old(self)@.dom().len() > 0 ==> exists|gone: Seq<char>|
                old(self)@.dom().contains(gone) && final(self)@ == #[trigger] old(self)@.remove(gone).insert(key@, client),
            old(self)@.dom().len() <= old(self).spec_max_idle() ==> final(self)@.dom().len() <= old(self).spec_max_idle()
                || final(self)@.dom().len() == 1,
            final(self)@.dom().contains(key@) && final(self)@[key@] == client,
    {
        proof {
            lemma_entries_len(self.clients@);
        }
        let ghost before = self@;
        if self.clients.len() >= self.max_idle && self.clients.len() > 0 {
            let ghost gone = self.clients@[0].0@;
            proof {
                lemma_entry_at(self.clients@, 0);
                lemma_entries_remove(self.clients@, 0);
            }
            self.clients.remove(0);
            assert(self@ == before.remove(gone));
            self.insert_entry(key, client);
            assert(self@ == before.remove(gone).insert(key@, client));
        } else {
            self.insert_entry(key, client);
        }
        proof {
            lemma_entries_len(self.clients@);
        }
    }

    fn insert_entry(&mut self, key: String, client: C)
        requires
            old(self).wf(),
        ensures
            final(self).wf(),
            final(self).max_idle == old(self).max_idle,
            final(self).max_age == old(self).max_age,
            final(self)@ == old(self)@.insert(key@, client),
            final(self).clients@.len() <= old(self).clients@.len() + 1,
    {
        match self.find(&key) {
            Some(i) => {
                proof {
                    lemma_entries_update(self.clients@, i as int, (key, client));
                }
                self.clients.set(i, (key, client));
            },
            None => {
                proof {
                    lemma_entries_push(self.clients@, (key, client));
                }
                self.clients.push((key, client));
            },
        }
    }

    /// Drops the client kept under `key`, if any.
    pub fn remove_client(&mut self, key: &str)
        requires
            old(self).wf(),
        ensures
            final(self).wf(),
            final(self).spec_max_idle() == old(self).spec_max_idle(),
            final(self).spec_max_age_nanos() == old(self).spec_max_age_nanos(),
            final(self)@ == old(self)@.remove(key@),
    {
        let key = String::from_str(key);
        match self.find(&key) {
            Some(i) => {
                proof {
                    lemma_entries_remove(self.clients@, i as int);
                }
                self.clients.remove(i);
            },
            None => {
                assert(self@ =~= old(self)@.remove(key@));
            },
        }
    }

    /// Drops every client.
    pub fn clear(&mut self)
        ensures
            final(self).wf(),
            final(self).spec_max_idle() == old(self).spec_max_idle(),
            final(self).spec_max_age_nanos() == old(self).spec_max_age_nanos(),
            final(self)@ == Map::<Seq<char>, C>::empty(),
    {
        self.clients.clear();
        assert(self@ =~= Map::<Seq<char>, C>::empty());
    }

    /// How many clients the pool holds.
    pub fn len(&self) -> (n: usize)
        requires
            self.wf(),
        ensures
            n == self@.dom().len(),
    {
        proof {
            lemma_entries_len(self.clients@);
        }
        self.clients.len()
    }
}

impl<C> Default for SshPool<C> {
    fn default() -> (p: Self)
        ensures
            p.wf(),
            p@ == Map::<Seq<char>, C>::empty(),
            p.spec_max_idle() == 10,
            p.spec_max_age_nanos() == 3600 * 1_000_000_000,
    {
        SshPool::new(10, 3600)
    }
}

} // verus!
