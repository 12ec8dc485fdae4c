//! Server-side session storage.
//!
//! Session state lives on the server and the client holds nothing but a key,
//! so destroying a session removes the record and a cookie replayed
//! afterwards authenticates nobody. Every record carries the instant at which
//! it expires; a record is live strictly before that instant, and a load that
//! finds an expired record drops it.
//!
//! Instants and lifetimes are counted in nanoseconds since the Unix epoch.
use vstd::prelude::*;

use actix_web::cookie::{Cookie, CookieJar, Key};

use crate::oauth::error::opt_text;

verus! {

/// What a session holds, as name/value pairs.
pub type StateView = Seq<(Seq<char>, Seq<char>)>;

/// A stored session: its state and the instant it expires.
pub type RecordView = (StateView, int);

/// The whole store: session key to record.
pub type StoreView = Map<Seq<char>, RecordView>;

/// The pairs of a session's state, each as text.
pub open spec fn state_view(s: Seq<(String, String)>) -> StateView {
    s.map_values(|p: (String, String)| (p.0@, p.1@))
}

/// What a load answers: the state of a live record, nothing otherwise.
pub open spec fn spec_load(m: StoreView, key: Seq<char>, now: int) -> Option<StateView> {
    if m.contains_key(key) && now < m[key].1 {
        Some(m[key].0)
    } else {
        None
    }
}

/// The store after a load: an expired record under the key is dropped.
pub open spec fn spec_after_load(m: StoreView, key: Seq<char>, now: int) -> StoreView {
    if m.contains_key(key) && m[key].1 <= now {
        m.remove(key)
    } else {
        m
    }
}

/// The store after a record is written under `key`, replacing any record there.
pub open spec fn spec_save(m: StoreView, key: Seq<char>, state: StateView, expires: int) -> StoreView {
    m.insert(key, (state, expires))
}

/// The store after the lifetime of the record under `key` is renewed; nothing
/// changes when there is no such record.
pub open spec fn spec_update_ttl(m: StoreView, key: Seq<char>, expires: int) -> StoreView {
    if m.contains_key(key) {
        m.insert(key, (m[key].0, expires))
    } else {
        m
    }
}

/// A record written with a lifetime answers a load with the state it was
/// written with at every instant before it expires, and that load leaves the
/// store as it was.
pub proof fn law_load_after_save(m: StoreView, key: Seq<char>, state: StateView, expires: int, now: int)
    requires
        now < expires,
    ensures
        spec_load(spec_save(m, key, state, expires), key, now) == Some(state),
        spec_after_load(spec_save(m, key, state, expires), key, now) == spec_save(m, key, state, expires),
{
}

/// Once the record under a key is removed, loading that key answers nothing,
/// at every instant: a session destroyed at sign-out cannot be replayed.
pub proof fn law_removed_session_is_gone(m: StoreView, key: Seq<char>, now: int)
    ensures
        spec_load(m.remove(key), key, now) is None,
{
}

/// From the instant a record expires on, loading its key answers nothing and
/// the load drops the record.
pub proof fn law_expired_session_is_gone(m: StoreView, key: Seq<char>, now: int)
    requires
        m.contains_key(key),
        m[key].1 <= now,
    ensures
        spec_load(m, key, now) is None,
        !spec_after_load(m, key, now).contains_key(key),
{
}

/// Writing, renewing or removing the record under one key leaves what any
/// other key loads unchanged.
pub proof fn law_keys_are_isolated(
    m: StoreView,
    k1: Seq<char>,
    k2: Seq<char>,
    state: StateView,
    expires: int,
    now: int,
)
    requires
        k1 != k2,
    ensures
        spec_load(spec_save(m, k1, state, expires), k2, now) == spec_load(m, k2, now),
        spec_load(spec_update_ttl(m, k1, expires), k2, now) == spec_load(m, k2, now),
        spec_load(m.remove(k1), k2, now) == spec_load(m, k2, now),
{
}

/// A load under one key touches no other key: every other key keeps its
/// record, and what it loads at any instant is unchanged. Only the key loaded
/// can lose its record, and only when that record has expired.
pub proof fn law_load_is_isolated(m: StoreView, k1: Seq<char>, k2: Seq<char>, now: int, t: int)
    requires
        k1 != k2,
    ensures
        spec_after_load(m, k1, now).contains_key(k2) == m.contains_key(k2),
        m.contains_key(k2) ==> spec_after_load(m, k1, now)[k2] == m[k2],
        spec_load(spec_after_load(m, k1, now), k2, t) == spec_load(m, k2, t),
        spec_after_load(m, k1, now).remove(k1) == m.remove(k1),
        (m.contains_key(k1) && now < m[k1].1) ==> spec_after_load(m, k1, now) == m,
{
    assert(spec_after_load(m, k1, now).remove(k1) =~= m.remove(k1));
}

/// Renewing a record keeps its state and moves only its expiry; renewing a
/// key with no record changes nothing.
pub proof fn law_update_ttl_keeps_state(m: StoreView, key: Seq<char>, expires: int, now: int)
    ensures
        spec_load(spec_update_ttl(m, key, expires), key, now) == (if m.contains_key(key) && now < expires {
            Some(m[key].0)
        } else {
            None::<StateView>
        }),
        !m.contains_key(key) ==> spec_update_ttl(m, key, expires) == m,
{
}

/// The plaintext of a sealed cookie value: what `cookie`'s private jar gives
/// back for a cookie `name` holding `value`, under the key made from `master`;
/// nothing when the value does not authenticate.
pub uninterp spec fn unsealed(master: Seq<u8>, name: Seq<char>, value: Seq<char>) -> Option<Seq<char>>;

/// `cookie::PrivateJar::get` on a jar holding only the cookie `(name, value)`,
/// under `Key::from(master)`. The contract claims only that the answer is the
/// one named `unsealed`, a function of the three arguments; `Key::from` panics
/// on a master key shorter than 64 bytes, which `requires` leaves out.
#[verifier::external_body]
pub(crate) fn unseal(master: &[u8], name: &str, value: &str) -> (r: Option<String>)
    requires
        master@.len() >= 64,
    ensures
        opt_text(r) == unsealed(master@, name@, value@),
{
    let mut jar = CookieJar::new();
    jar.add_original(Cookie::new(name.to_string(), value.to_string()));
    match jar.private(&Key::from(master)).get(name) {
        Some(cookie) => Some(cookie.value().to_string()),
        None => None,
    }
}

/// The store after a sign-out: the record under the key that the request's
/// session cookie unseals to is dropped; without a cookie, or with one that
/// does not unseal, nothing changes.
pub open spec fn spec_destroy(m: StoreView, master: Seq<u8>, name: Seq<char>, cookie: Option<Seq<char>>) -> StoreView {
    match cookie {
        Some(v) => match unsealed(master, name, v) {
            Some(k) => m.remove(k),
            None => m,
        },
        None => m,
    }
}

/// After a sign-out, the session its cookie named loads nothing, at every
/// instant: replaying that cookie authenticates nobody.
pub proof fn law_signed_out_cookie_is_dead(
    m: StoreView,
    master: Seq<u8>,
    name: Seq<char>,
    value: Seq<char>,
    now: int,
)
    requires
        unsealed(master, name, value) is Some,
    ensures
        spec_load(spec_destroy(m, master, name, Some(value)), unsealed(master, name, value)->Some_0, now) is None,
{
}

/// A sign-out drops at most the one session its cookie unseals to: every
/// other key keeps its record, and without a cookie, or with one that does
/// not unseal, the store is unchanged.
pub proof fn law_sign_out_is_isolated(
    m: StoreView,
    master: Seq<u8>,
    name: Seq<char>,
    cookie: Option<Seq<char>>,
    k: Seq<char>,
    now: int,
)
    ensures
        (cookie matches Some(v) && unsealed(master, name, v) == Some(k)) || spec_load(
            spec_destroy(m, master, name, cookie),
            k,
            now,
        ) == spec_load(m, k, now),
        (cookie matches Some(v) && unsealed(master, name, v) == Some(k)) || (spec_destroy(
            m,
            master,
            name,
            cookie,
        ).contains_key(k) == m.contains_key(k)),
        cookie is None ==> spec_destroy(m, master, name, cookie) == m,
        (cookie matches Some(v) && unsealed(master, name, v) is None) ==> spec_destroy(m, master, name, cookie) == m,
{
}

/// The view of an optional cookie value.
pub open spec fn opt_cookie(c: Option<&str>) -> Option<Seq<char>> {
    match c {
        Some(v) => Some(v@),
        None => None,
    }
}

/// What a load answers, as the view of its result.
pub open spec fn loaded_view(r: Option<Vec<(String, String)>>) -> Option<StateView> {
    match r {
        Some(v) => Some(state_view(v@)),
        None => None,
    }
}

/// One stored session.
pub struct SessionRecord {
    pub state: Vec<(String, String)>,
    pub expires: i128,
}

impl View for SessionRecord {
    type V = RecordView;

    open spec fn view(&self) -> RecordView {
        (state_view(self.state@), self.expires as int)
    }
}

/// An in-memory session store: one record per session key.
pub struct MemorySessionStore {
    entries: Vec<(String, SessionRecord)>,
}

/// The map that a list of entries stands for; a later entry wins over an
/// earlier one with the same key.
pub open spec fn entry_map(s: Seq<(String, SessionRecord)>) -> StoreView
    decreases s.len(),
{
    if s.len() == 0 {
        Map::empty()
    } else {
        entry_map(s.drop_last()).insert(s.last().0@, s.last().1@)
    }
}

/// No key occurs twice among the entries.
pub open spec fn keys_distinct(s: Seq<(String, SessionRecord)>) -> bool {
    forall|i: int, j: int|
        #![trigger s[i], s[j]]
        0 <= i < s.len() && 0 <= j < s.len() && i != j ==> s[i].0@ != s[j].0@
}

proof fn lemma_entry_map_domain(s: Seq<(String, SessionRecord)>, k: Seq<char>)
    ensures
        entry_map(s).contains_key(k) <==> exists|i: int| 0 <= i < s.len() && #[trigger] s[i].0@ == k,
    decreases s.len(),
{
    if s.len() > 0 {
        let t = s.drop_last();
        lemma_entry_map_domain(t, k);
        if entry_map(s).contains_key(k) {
            if k == s.last().0@ {
                assert(s[s.len() - 1].0@ == k);
            } else {
                let i = choose|i: int| 0 <= i < t.len() && #[trigger] t[i].0@ == k;
                assert(s[i].0@ == k);
            }
        }
        if exists|i: int| 0 <= i < s.len() && #[trigger] s[i].0@ == k {
            let i = choose|i: int| 0 <= i < s.len() && #[trigger] s[i].0@ == k;
            if i < s.len() - 1 {
                assert(t[i].0@ == k);
            }
        }
    }
}

proof fn lemma_entry_map_value(s: Seq<(String, SessionRecord)>, i: int)
    requires
        keys_distinct(s),
        0 <= i < s.len(),
    ensures
        entry_map(s).contains_key(s[i].0@),
        entry_map(s)[s[i].0@] == s[i].1@,
    decreases s.len(),
{
    let t = s.drop_last();
    if i < s.len() - 1 {
        assert(keys_distinct(t)) by {
            assert forall|a: int, b: int|
                #![trigger t[a], t[b]]
                0 <= a < t.len() && 0 <= b < t.len() && a != b implies t[a].0@ != t[b].0@ by {
                assert(s[a] == t[a] && s[b] == t[b]);
            }
        }
        assert(t[i] == s[i]);
        lemma_entry_map_value(t, i);
        assert(s[i].0@ != s[s.len() - 1].0@);
    }
}

proof fn lemma_distinct_remove(s: Seq<(String, SessionRecord)>, i: int)
    requires
        keys_distinct(s),
        0 <= i < s.len(),
    ensures
        keys_distinct(s.remove(i)),
        forall|j: int| 0 <= j < s.remove(i).len() ==> #[trigger] s.remove(i)[j].0@ != s[i].0@,
{
    let r = s.remove(i);
    assert forall|a: int, b: int|
        #![trigger r[a], r[b]]
        0 <= a < r.len() && 0 <= b < r.len() && a != b implies r[a].0@ != r[b].0@ by {
        let sa = if a < i { a } else { a + 1 };
        let sb = if b < i { b } else { b + 1 };
        assert(r[a] == s[sa] && r[b] == s[sb]);
    }
    assert forall|j: int| 0 <= j < r.len() implies #[trigger] r[j].0@ != s[i].0@ by {
        let sj = if j < i { j } else { j + 1 };
        assert(r[j] == s[sj]);
    }
}

proof fn lemma_entry_map_remove(s: Seq<(String, SessionRecord)>, i: int)
    requires
        keys_distinct(s),
        0 <= i < s.len(),
    ensures
        entry_map(s.remove(i)) == entry_map(s).remove(s[i].0@),
    decreases s.len(),
{
    let k = s[i].0@;
    let t = s.drop_last();
    assert(keys_distinct(t)) by {
        assert forall|a: int, b: int|
            #![trigger t[a], t[b]]
            0 <= a < t.len() && 0 <= b < t.len() && a != b implies t[a].0@ != t[b].0@ by {
            assert(s[a] == t[a] && s[b] == t[b]);
        }
    }
    if i == s.len() - 1 {
        assert(s.remove(i) =~= t);
        lemma_entry_map_domain(t, k);
        assert forall|j: int| 0 <= j < t.len() implies #[trigger] t[j].0@ != k by {
            assert(t[j] == s[j]);
        }
        assert(entry_map(t) =~= entry_map(s).remove(k));
    } else {
        let r = s.remove(i);
        assert(r.drop_last() =~= t.remove(i));
        assert(r.last() == s.last());
        assert(t[i] == s[i]);
        lemma_entry_map_remove(t, i);
        assert(s.last().0@ != k);
        assert(entry_map(r) =~= entry_map(s).remove(k));
    }
}

proof fn lemma_entry_map_push(s: Seq<(String, SessionRecord)>, e: (String, SessionRecord))
    ensures
        entry_map(s.push(e)) == entry_map(s).insert(e.0@, e.1@),
{
    assert(s.push(e).drop_last() =~= s);
}

/// A copy of a session's state.
fn copy_state(state: &Vec<(String, String)>) -> (r: Vec<(String, String)>)
    ensures
        state_view(r@) == state_view(state@),
{
    let mut r: Vec<(String, String)> = Vec::new();
    let mut i: usize = 0;
    while i < state.len()
        invariant
            i <= state.len(),
            r@.len() == i,
            forall|j: int| 0 <= j < i ==> #[trigger] r@[j].0@ == state@[j].0@ && r@[j].1@ == state@[j].1@,
        decreases state.len() - i,
    {
        let pair = &state[i];
        r.push((pair.0.clone(), pair.1.clone()));
        i = i + 1;
    }
    assert(state_view(r@) =~= state_view(state@));
    r
}

impl View for MemorySessionStore {
    type V = StoreView;

    closed spec fn view(&self) -> StoreView {
        entry_map(self.entries@)
    }
}

impl MemorySessionStore {
    /// The store's own invariant: one record per key.
    pub closed spec fn wf(&self) -> bool {
        keys_distinct(self.entries@)
    }

    /// An empty store.
    pub fn new() -> (r: Self)
        ensures
            r.wf(),
            r@ == Map::<Seq<char>, RecordView>::empty(),
    {
        MemorySessionStore { entries: Vec::new() }
    }

    /// The position of the entry under `key`.
    fn find(&self, key: &String) -> (r: Option<usize>)
        requires
            self.wf(),
        ensures
            r matches Some(i) ==> i < self.entries@.len() && self.entries@[i as int].0@ == key@,
            r is None ==> forall|j: int| 0 <= j < self.entries@.len() ==> #[trigger] self.entries@[j].0@ != key@,
    {
        let mut i: usize = 0;
        while i < self.entries.len()
            invariant
                i <= self.entries@.len(),
                forall|j: int| 0 <= j < i ==> #[trigger] self.entries@[j].0@ != key@,
            decreases self.entries@.len() - i,
        {
            if self.entries[i].0 == *key {
                return Some(i);
            }
            i = i + 1;
        }
        None
    }

    /// Takes the entry at `i` out of the list.
    fn take_entry(&mut self, i: usize) -> (r: (String, SessionRecord))
        requires
            old(self).wf(),
            i < old(self).entries@.len(),
        ensures
            final(self).wf(),
            r == old(self).entries@[i as int],
            final(self)@ == old(self)@.remove(r.0@),
            old(self)@.contains_key(r.0@),
            old(self)@[r.0@] == r.1@,
    {
        proof {
            lemma_entry_map_value(self.entries@, i as int);
            lemma_entry_map_remove(self.entries@, i as int);
            lemma_distinct_remove(self.entries@, i as int);
        }
        self.entries.remove(i)
    }

    /// Appends an entry whose key is in no other entry.
    fn put_entry(&mut self, key: String, record: SessionRecord)
        requires
            old(self).wf(),
            !old(self)@.contains_key(key@),
        ensures
            final(self).wf(),
            final(self)@ == old(self)@.insert(key@, record@),
    {
        proof {
            lemma_entry_map_domain(self.entries@, key@);
            lemma_entry_map_push(self.entries@, (key, record));
        }
        let ghost before = self.entries@;
        self.entries.push((key, record));
        proof {
            let s = self.entries@;
            assert forall|a: int, b: int|
                #![trigger s[a], s[b]]
                0 <= a < s.len() && 0 <= b < s.len() && a != b implies s[a].0@ != s[b].0@ by {
                if a < before.len() && b < before.len() {
                    assert(s[a] == before[a] && s[b] == before[b]);
                } else if a < before.len() {
                    assert(s[a] == before[a]);
                    assert(before[a].0@ != key@);
                } else {
                    assert(s[b] == before[b]);
                    assert(before[b].0@ != key@);
                }
            }
        }
    }

    /// The state of the live session under `key`. An expired record under
    /// `key` is dropped, and nothing is answered for it.
    pub fn load(&mut self, key: &String, now: i128) -> (r: Option<Vec<(String, String)>>)
        requires
            old(self).wf(),
        ensures
            final(self).wf(),
            loaded_view(r) == spec_load(old(self)@, key@, now as int),
            final(self)@ == spec_after_load(old(self)@, key@, now as int),
            final(self)@.remove(key@) == old(self)@.remove(key@),
            r is Some <==> (old(self)@.contains_key(key@) && (now as int) < old(self)@[key@].1),
            r matches Some(v) ==> state_view(v@) == old(self)@[key@].0,
    {
        match self.find(key) {
            None => {
                proof {
                    lemma_entry_map_domain(self.entries@, key@);
                }
                None
            },
            Some(i) => {
                proof {
                    lemma_entry_map_value(self.entries@, i as int);
                }
                if now < self.entries[i].1.expires {
                    Some(copy_state(&self.entries[i].1.state))
                } else {
                    let _ = self.take_entry(i);
                    None
                }
            },
        }
    }

    /// Writes `state` under `key` with a lifetime of `ttl` from `now`,
    /// replacing whatever record the key had: a new session under a fresh
    /// key, or an update of an existing one.
    pub fn save(&mut self, key: String, state: Vec<(String, String)>, now: i128, ttl: i128)
        requires
            old(self).wf(),
            i128::MIN <= now + ttl <= i128::MAX,
        ensures
            final(self).wf(),
            final(self)@ == spec_save(old(self)@, key@, state_view(state@), now + ttl),
    {
        let expires = now + ttl;
        if let Some(i) = self.find(&key) {
            let _ = self.take_entry(i);
        } else {
            proof {
                lemma_entry_map_domain(self.entries@, key@);
            }
        }
        self.put_entry(key, SessionRecord { state, expires });
        assert(self@ =~= spec_save(old(self)@, key@, state_view(state@), now + ttl));
    }

    /// Renews the lifetime of the record under `key` to `ttl` from `now`;
    /// without such a record nothing changes.
    pub fn update_ttl(&mut self, key: &String, now: i128, ttl: i128)
        requires
            old(self).wf(),
            i128::MIN <= now + ttl <= i128::MAX,
        ensures
            final(self).wf(),
            final(self)@ == spec_update_ttl(old(self)@, key@, now + ttl),
    {
        match self.find(key) {
            None => {
                proof {
                    lemma_entry_map_domain(self.entries@, key@);
                }
            },
            Some(i) => {
                let (k, record) = self.take_entry(i);
                let expires = now + ttl;
                self.put_entry(k, SessionRecord { state: record.state, expires });
                assert(self@ =~= spec_update_ttl(old(self)@, key@, now + ttl));
            },
        }
    }

    /// Signs out the session a request's cookie names: the value of the
    /// session cookie `cookie_name`, if the request carried one, is unsealed
    /// under `master` and the record under the resulting key is dropped.
    pub fn destroy(&mut self, master: &[u8], cookie_name: &str, cookie: Option<&str>)
        requires
            old(self).wf(),
            master@.len() >= 64,
        ensures
            final(self).wf(),
            final(self)@ == spec_destroy(old(self)@, master@, cookie_name@, opt_cookie(cookie)),
    {
        match cookie {
            None => {},
            Some(value) => match unseal(master, cookie_name, value) {
                Some(key) => self.remove(&key),
                None => {},
            },
        }
    }

    /// Drops the record under `key`, if there is one.
    pub fn remove(&mut self, key: &String)
        requires
            old(self).wf(),
        ensures
            final(self).wf(),
            final(self)@ == old(self)@.remove(key@),
    {
        match self.find(key) {
            None => {
                proof {
                    lemma_entry_map_domain(self.entries@, key@);
                }
                assert(self@ =~= old(self)@.remove(key@));
            },
            Some(i) => {
                let _ = self.take_entry(i);
            },
        }
    }
}

} // verus!
