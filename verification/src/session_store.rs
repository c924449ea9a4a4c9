//! The session registry: a keyed store of session records with time-based
//! eviction. Records are keyed by the sanitized session id, exactly as the
//! per-session files on disk are named; a later write for an id fully
//! replaces the earlier record, and the sweep removes exactly the records
//! whose last write is older than the fixed cutoff.
//!
//! The lack of locking around the backing directory is a deliberate
//! simplicity trade-off: events for one session arrive sequentially, and
//! concurrent writers fall back to last-writer-wins.

use vstd::prelude::*;
use vstd::string::{StrSliceExecFns, StringExecFns};

use std::time::{SystemTime, UNIX_EPOCH};

use crate::strutil::{char_alphanumeric, clone_opt_string, str_eq};
use crate::terminal_detector::{TerminalInfo, TerminalInfoV};

verus! {

/// Seconds a session record is kept before the startup sweep may remove it.
pub const SESSION_TTL_SECONDS: u64 = 86400;

/// The eviction cutoff derived from `now`: records last written before it
/// are due for removal. Clocks close to the epoch saturate at zero, so the
/// subtraction cannot underflow.
pub open spec fn spec_sweep_cutoff(now: u64) -> u64 {
    if now >= SESSION_TTL_SECONDS {
        (now - SESSION_TTL_SECONDS) as u64
    } else {
        0
    }
}

/// The eviction cutoff: the moment one day before `now`.
pub fn sweep_cutoff(now: u64) -> (r: u64)
    ensures
        r == spec_sweep_cutoff(now),
{
    if now >= SESSION_TTL_SECONDS {
        now - SESSION_TTL_SECONDS
    } else {
        0
    }
}

/// A character that may stand in a session file name unchanged.
pub open spec fn spec_keep_char(c: char) -> bool {
    char_alphanumeric(c) || c == '-' || c == '_'
}

/// A session id made filesystem-safe: every character that is not
/// alphanumeric, a hyphen or an underscore becomes an underscore.
pub open spec fn spec_sanitize(s: Seq<char>) -> Seq<char> {
    s.map_values(
        |c: char|
            if spec_keep_char(c) {
                c
            } else {
                '_'
            },
    )
}

/// Make a session id filesystem-safe, character by character.
pub fn sanitize_session_id(id: &str) -> (r: String)
    ensures
        r@ == spec_sanitize(id@),
{
    let n = id.unicode_len();
    let mut out = String::new();
    proof {
        assert(out@ =~= spec_sanitize(id@.subrange(0, 0)));
    }
    let mut i: usize = 0;
    while i < n
        invariant
            i <= n,
            n == id@.len(),
            out@ == spec_sanitize(id@.subrange(0, i as int)),
        decreases n - i,
    {
        let c = id.get_char(i);
        if c.is_alphanumeric() || c == '-' || c == '_' {
            let piece = id.substring_char(i, i + 1);
            out.append(piece);
        } else {
            out.append("_");
        }
        proof {
            reveal_strlit("_");
            assert(out@ =~= spec_sanitize(id@.subrange(0, i as int + 1)));
        }
        i = i + 1;
    }
    proof {
        assert(id@.subrange(0, n as int) =~= id@);
    }
    out
}

/// One stored session record: the raw id, the context detected when the
/// record was written, the write moment (which doubles as the record's
/// last-modified time, since every write replaces the whole record), and
/// the optional working directory and transcript path from the payload.
pub struct SessionInfo {
    pub session_id: String,
    pub terminal_info: TerminalInfo,
    pub created_at: u64,
    pub cwd: Option<String>,
    pub transcript_path: Option<String>,
}

/// The mathematical value of a session record.
pub ghost struct SessionInfoV {
    pub session_id: Seq<char>,
    pub terminal_info: TerminalInfoV,
    pub created_at: u64,
    pub cwd: Option<Seq<char>>,
    pub transcript_path: Option<Seq<char>>,
}

impl View for SessionInfo {
    type V = SessionInfoV;

    open spec fn view(&self) -> SessionInfoV {
        SessionInfoV {
            session_id: self.session_id@,
            terminal_info: self.terminal_info@,
            created_at: self.created_at,
            cwd: self.cwd.deep_view(),
            transcript_path: self.transcript_path.deep_view(),
        }
    }
}

impl Clone for SessionInfo {
    /// An exact duplicate, field for field.
    fn clone(&self) -> (r: Self)
        ensures
            r == *self,
    {
        SessionInfo {
            session_id: self.session_id.clone(),
            terminal_info: self.terminal_info.clone(),
            created_at: self.created_at,
            cwd: clone_opt_string(&self.cwd),
            transcript_path: clone_opt_string(&self.transcript_path),
        }
    }
}

/// The key under which a record is stored: its sanitized session id.
pub open spec fn entry_key(rec: SessionInfo) -> Seq<char> {
    spec_sanitize(rec.session_id@)
}

/// Some entry of the sequence carries the key `k`.
pub open spec fn has_key(entries: Seq<SessionInfo>, k: Seq<char>) -> bool {
    exists|i: int| 0 <= i < entries.len() && #[trigger] entry_key(entries[i]) == k
}

/// The position of the entry carrying the key `k`.
pub open spec fn index_of_key(entries: Seq<SessionInfo>, k: Seq<char>) -> int {
    choose|i: int| 0 <= i < entries.len() && #[trigger] entry_key(entries[i]) == k
}

/// No two entries share a key.
pub open spec fn keys_unique(entries: Seq<SessionInfo>) -> bool {
    forall|i: int, j: int|
        #![trigger entry_key(entries[i]), entry_key(entries[j])]
        0 <= i < j < entries.len() ==> entry_key(entries[i]) != entry_key(entries[j])
}

/// Some entry of the sequence is this very record.
pub open spec fn seq_has(s: Seq<SessionInfo>, rec: SessionInfo) -> bool {
    exists|i: int| 0 <= i < s.len() && #[trigger] s[i] == rec
}

/// The entries as a map from key to record value.
pub open spec fn entries_view(entries: Seq<SessionInfo>) -> Map<Seq<char>, SessionInfoV> {
    Map::new(
        |k: Seq<char>| has_key(entries, k),
        |k: Seq<char>| entries[index_of_key(entries, k)]@,
    )
}

proof fn lemma_entry_at(entries: Seq<SessionInfo>, j: int)
    requires
        keys_unique(entries),
        0 <= j < entries.len(),
    ensures
        has_key(entries, entry_key(entries[j])),
        index_of_key(entries, entry_key(entries[j])) == j,
        entries_view(entries).contains_key(entry_key(entries[j])),
        entries_view(entries)[entry_key(entries[j])] == entries[j]@,
{
    let k = entry_key(entries[j]);
    assert(has_key(entries, k));
    let i = index_of_key(entries, k);
    assert(0 <= i < entries.len() && entry_key(entries[i]) == k);
    if i < j {
        assert(entry_key(entries[i]) != entry_key(entries[j]));
    } else if j < i {
        assert(entry_key(entries[j]) != entry_key(entries[i]));
    }
}

proof fn lemma_push_entry(entries: Seq<SessionInfo>, rec: SessionInfo)
    requires
        keys_unique(entries),
        !has_key(entries, entry_key(rec)),
    ensures
        keys_unique(entries.push(rec)),
        entries_view(entries.push(rec)) == entries_view(entries).insert(entry_key(rec), rec@),
{
    let s2 = entries.push(rec);
    let key = entry_key(rec);
    assert forall|i: int, j: int|
        #![trigger entry_key(s2[i]), entry_key(s2[j])]
        0 <= i < j < s2.len() implies entry_key(s2[i]) != entry_key(s2[j]) by {
        if j == entries.len() {
            assert(s2[j] == rec);
            assert(s2[i] == entries[i]);
            if entry_key(entries[i]) == key {
                assert(has_key(entries, key));
            }
        } else {
            assert(s2[i] == entries[i]);
            assert(s2[j] == entries[j]);
        }
    }
    assert forall|k: Seq<char>| #[trigger]
        has_key(s2, k) implies has_key(entries, k) || k == key by {
        let i = choose|i: int| 0 <= i < s2.len() && #[trigger] entry_key(s2[i]) == k;
        if i < entries.len() {
            assert(s2[i] == entries[i]);
            assert(entry_key(entries[i]) == k);
        } else {
            assert(s2[i] == rec);
        }
    }
    assert forall|k: Seq<char>| has_key(entries, k) implies #[trigger] has_key(s2, k) by {
        let i = choose|i: int| 0 <= i < entries.len() && #[trigger] entry_key(entries[i]) == k;
        assert(s2[i] == entries[i]);
        assert(entry_key(s2[i]) == k);
    }
    assert(entry_key(s2[entries.len() as int]) == key);
    assert(has_key(s2, key));
    assert forall|k: Seq<char>| #[trigger]
        has_key(s2, k) implies entries_view(s2)[k] == entries_view(entries).insert(key, rec@)[k] by {
        let i = index_of_key(s2, k);
        assert(0 <= i < s2.len() && entry_key(s2[i]) == k);
        lemma_entry_at(s2, i);
        if k == key {
            if i < entries.len() {
                assert(entry_key(entries[i]) == k);
                assert(has_key(entries, key));
                assert(false);
            }
            assert(s2[i] == rec);
        } else {
            assert(i < entries.len());
            assert(s2[i] == entries[i]);
            lemma_entry_at(entries, i);
        }
    }
    assert(entries_view(s2) =~= entries_view(entries).insert(key, rec@));
}

proof fn lemma_remove_entry(entries: Seq<SessionInfo>, j: int)
    requires
        keys_unique(entries),
        0 <= j < entries.len(),
    ensures
        keys_unique(entries.remove(j)),
        !has_key(entries.remove(j), entry_key(entries[j])),
        entries_view(entries.remove(j)) == entries_view(entries).remove(entry_key(entries[j])),
{
    let s2 = entries.remove(j);
    let key = entry_key(entries[j]);
    entries.remove_ensures(j);
    assert forall|i: int, l: int|
        #![trigger entry_key(s2[i]), entry_key(s2[l])]
        0 <= i < l < s2.len() implies entry_key(s2[i]) != entry_key(s2[l]) by {
        let oi: int = if i < j {
            i
        } else {
            i + 1
        };
        let ol: int = if l < j {
            l
        } else {
            l + 1
        };
        assert(s2[i] == entries[oi]);
        assert(s2[l] == entries[ol]);
        assert(entry_key(entries[oi]) != entry_key(entries[ol]));
    }
    assert forall|i: int| 0 <= i < s2.len() implies #[trigger] entry_key(s2[i]) != key by {
        let oi: int = if i < j {
            i
        } else {
            i + 1
        };
        assert(s2[i] == entries[oi]);
        assert(entry_key(entries[oi]) != entry_key(entries[j]));
    }
    assert forall|k: Seq<char>| #[trigger]
        has_key(s2, k) implies has_key(entries, k) && k != key by {
        let i = choose|i: int| 0 <= i < s2.len() && #[trigger] entry_key(s2[i]) == k;
        let oi: int = if i < j {
            i
        } else {
            i + 1
        };
        assert(s2[i] == entries[oi]);
        assert(entry_key(entries[oi]) == k);
    }
    assert forall|k: Seq<char>| has_key(entries, k) && k != key implies #[trigger] has_key(
        s2,
        k,
    ) by {
        let oi = choose|i: int| 0 <= i < entries.len() && #[trigger] entry_key(entries[i]) == k;
        assert(oi != j);
        let i: int = if oi < j {
            oi
        } else {
            oi - 1
        };
        assert(s2[i] == entries[oi]);
        assert(entry_key(s2[i]) == k);
    }
    assert forall|k: Seq<char>| #[trigger]
        has_key(s2, k) implies entries_view(s2)[k] == entries_view(entries)[k] by {
        let i = index_of_key(s2, k);
        assert(0 <= i < s2.len() && entry_key(s2[i]) == k);
        lemma_entry_at(s2, i);
        let oi: int = if i < j {
            i
        } else {
            i + 1
        };
        assert(s2[i] == entries[oi]);
        lemma_entry_at(entries, oi);
    }
    assert(entries_view(s2) =~= entries_view(entries).remove(key));
}

/// The session registry: records keyed by sanitized session id, with the
/// directory that backs them. The view is the map from key to record.
pub struct SessionStore {
    base_dir: String,
    entries: Vec<SessionInfo>,
}

impl View for SessionStore {
    type V = Map<Seq<char>, SessionInfoV>;

    closed spec fn view(&self) -> Map<Seq<char>, SessionInfoV> {
        entries_view(self.entries@)
    }
}

/// `known` names every key of the map exactly once and nothing else.
pub open spec fn lists_keys(known: Seq<String>, m: Map<Seq<char>, SessionInfoV>) -> bool {
    &&& forall|i: int| 0 <= i < known.len() ==> m.contains_key(#[trigger] known[i]@)
    &&& forall|k: Seq<char>|
        #[trigger] m.contains_key(k) ==> exists|i: int| 0 <= i < known.len() && #[trigger] known[i]@
            == k
    &&& forall|i: int, j: int|
        #![trigger known[i]@, known[j]@]
        0 <= i < j < known.len() ==> known[i]@ != known[j]@
}

/// The record stored under an id, if any: lookups go through the same
/// sanitized key that names the record's file.
pub open spec fn spec_get(m: Map<Seq<char>, SessionInfoV>, id: Seq<char>) -> Option<SessionInfoV> {
    if m.contains_key(spec_sanitize(id)) {
        Some(m[spec_sanitize(id)])
    } else {
        None
    }
}

impl SessionStore {
    /// A store is well formed when no two records share a key.
    pub closed spec fn wf(&self) -> bool {
        keys_unique(self.entries@)
    }

    /// The directory that backs the store.
    pub closed spec fn spec_base_dir(&self) -> Seq<char> {
        self.base_dir@
    }

    /// An empty registry over the given backing directory.
    pub fn new(base_dir: String) -> (r: SessionStore)
        ensures
            r.wf(),
            r@ == Map::<Seq<char>, SessionInfoV>::empty(),
            r.spec_base_dir() == base_dir@,
    {
        let r = SessionStore { base_dir, entries: Vec::new() };
        proof {
            assert(r@ =~= Map::<Seq<char>, SessionInfoV>::empty());
        }
        r
    }

    /// Put a complete record into the registry under its sanitized id,
    /// fully replacing any record that shares the key: no field of the
    /// replaced record remains readable.
    pub fn insert_record(&mut self, record: SessionInfo)
        requires
            old(self).wf(),
        ensures
            final(self).wf(),
            final(self)@ == old(self)@.insert(spec_sanitize(record.session_id@), record@),
            final(self).spec_base_dir() == old(self).spec_base_dir(),
    {
        let key = sanitize_session_id(record.session_id.as_str());
        let n = self.entries.len();
        let mut idx: usize = n;
        let mut j: usize = 0;
        while j < n
            invariant
                j <= n,
                idx <= n,
                n == self.entries@.len(),
                idx == n ==> forall|l: int|
                    0 <= l < j ==> #[trigger] entry_key(self.entries@[l]) != key@,
                idx < n ==> entry_key(self.entries@[idx as int]) == key@,
                key@ == spec_sanitize(record.session_id@),
            decreases n - j,
        {
            if idx == n {
                let ek = sanitize_session_id(self.entries[j].session_id.as_str());
                if str_eq(ek.as_str(), key.as_str()) {
                    idx = j;
                }
            }
            j = j + 1;
        }
        let ghost orig = self.entries@;
        if idx < n {
            proof {
                lemma_remove_entry(orig, idx as int);
            }
            let _ = self.entries.remove(idx);
            proof {
                lemma_push_entry(self.entries@, record);
            }
            self.entries.push(record);
            proof {
                assert(entries_view(self.entries@) =~= entries_view(orig).insert(
                    key@,
                    record@,
                ));
            }
        } else {
            proof {
                assert(!has_key(orig, key@));
                lemma_push_entry(orig, record);
            }
            self.entries.push(record);
        }
    }

    /// Store the context of a session under its id, stamped with the
    /// current moment. The write fully replaces any earlier record for the
    /// id; it fails only when the system clock cannot be read, and then
    /// leaves the registry unchanged.
    pub fn store_session(
        &mut self,
        session_id: &str,
        terminal_info: TerminalInfo,
        cwd: Option<String>,
        transcript_path: Option<String>,
    ) -> (r: Result<(), String>)
        requires
            old(self).wf(),
        ensures
            final(self).wf(),
            final(self).spec_base_dir() == old(self).spec_base_dir(),
            match r {
                Ok(_) => exists|t: u64|
                    final(self)@ == old(self)@.insert(
                        spec_sanitize(session_id@),
                        SessionInfoV {
                            session_id: session_id@,
                            terminal_info: terminal_info@,
                            created_at: t,
                            cwd: cwd.deep_view(),
                            transcript_path: transcript_path.deep_view(),
                        },
                    ),
                Err(e) => final(self)@ == old(self)@ && e@ == "system clock unavailable"@,
            },
    {
        match unix_now() {
            Some(t) => {
                let record = SessionInfo {
                    session_id: String::from_str(session_id),
                    terminal_info,
                    created_at: t,
                    cwd,
                    transcript_path,
                };
                self.insert_record(record);
                Ok(())
            },
            None => Err(String::from_str("system clock unavailable")),
        }
    }

    /// Read the record stored under an id. A missing record is absence,
    /// never an error; a present record is returned exactly as stored.
    pub fn get_session(&self, session_id: &str) -> (r: Option<SessionInfo>)
        requires
            self.wf(),
        ensures
            match r {
                Some(rec) => spec_get(self@, session_id@) == Some(rec@),
                None => spec_get(self@, session_id@) is None,
            },
    {
        let key = sanitize_session_id(session_id);
        let n = self.entries.len();
        let mut j: usize = 0;
        while j < n
            invariant
                j <= n,
                n == self.entries@.len(),
                self.wf(),
                key@ == spec_sanitize(session_id@),
                forall|l: int| 0 <= l < j ==> #[trigger] entry_key(self.entries@[l]) != key@,
            decreases n - j,
        {
            let ek = sanitize_session_id(self.entries[j].session_id.as_str());
            if str_eq(ek.as_str(), key.as_str()) {
                proof {
                    lemma_entry_at(self.entries@, j as int);
                }
                return Some(self.entries[j].clone());
            }
            j = j + 1;
        }
        proof {
            assert(!has_key(self.entries@, key@));
        }
        None
    }

    /// The path of the file that backs an id: the backing directory, the
    /// sanitized id, and the fixed extension.
    pub fn session_file_path(&self, session_id: &str) -> (r: String)
        ensures
            r@ == self.spec_base_dir() + "/"@ + spec_sanitize(session_id@) + ".json"@,
    {
        let safe = sanitize_session_id(session_id);
        self.base_dir.clone().concat("/").concat(safe.as_str()).concat(".json")
    }

    /// The keys currently stored: each exactly once, in store order.
    pub fn list_sessions(&self) -> (r: Vec<String>)
        requires
            self.wf(),
        ensures
            lists_keys(r@, self@),
    {
        let n = self.entries.len();
        let mut out: Vec<String> = Vec::new();
        let mut j: usize = 0;
        while j < n
            invariant
                j <= n,
                n == self.entries@.len(),
                self.wf(),
                out@.len() == j,
                forall|l: int| 0 <= l < j ==> #[trigger] out@[l]@ == entry_key(self.entries@[l]),
            decreases n - j,
        {
            let key = sanitize_session_id(self.entries[j].session_id.as_str());
            out.push(key);
            j = j + 1;
        }
        proof {
            assert forall|i: int| 0 <= i < out@.len() implies self@.contains_key(
                #[trigger] out@[i]@,
            ) by {
                lemma_entry_at(self.entries@, i);
            }
            assert forall|k: Seq<char>| #[trigger] self@.contains_key(k) implies exists|i: int|
                0 <= i < out@.len() && #[trigger] out@[i]@ == k by {
                let i = index_of_key(self.entries@, k);
                assert(0 <= i < self.entries@.len() && entry_key(self.entries@[i]) == k);
                assert(out@[i]@ == k);
            }
        }
        out
    }

    /// Remove exactly the records whose last write is older than the
    /// cutoff one day before `now`, and none newer; surviving records are
    /// untouched.
    pub fn cleanup_old_sessions(&mut self, now: u64)
        requires
            old(self).wf(),
        ensures
            final(self).wf(),
            final(self).spec_base_dir() == old(self).spec_base_dir(),
            forall|k: Seq<char>|
                #[trigger] final(self)@.contains_key(k) <==> (old(self)@.contains_key(k) && old(
                    self,
                )@[k].created_at >= spec_sweep_cutoff(now)),
            forall|k: Seq<char>|
                #[trigger] final(self)@.contains_key(k) ==> final(self)@[k] == old(self)@[k],
    {
        let cutoff = sweep_cutoff(now);
        let ghost orig = old(self).entries@;
        proof {
            assert forall|l: int| 0 <= l < orig.len() implies seq_has(orig, #[trigger] orig[l]) by {
                assert(orig[l] == orig[l]);
            }
        }
        let mut i: usize = 0;
        while i < self.entries.len()
            invariant
                i <= self.entries@.len(),
                self.wf(),
                keys_unique(orig),
                self.base_dir == old(self).base_dir,
                cutoff == spec_sweep_cutoff(now),
                forall|l: int| 0 <= l < i ==> #[trigger] self.entries@[l].created_at >= cutoff,
                forall|l: int|
                    0 <= l < self.entries@.len() ==> seq_has(orig, #[trigger] self.entries@[l]),
                forall|l: int|
                    0 <= l < orig.len() && (#[trigger] orig[l]).created_at >= cutoff ==> seq_has(
                        self.entries@,
                        orig[l],
                    ),
            decreases self.entries@.len() - i,
        {
            if self.entries[i].created_at < cutoff {
                let ghost cur = self.entries@;
                proof {
                    lemma_remove_entry(cur, i as int);
                    cur.remove_ensures(i as int);
                }
                let _ = self.entries.remove(i);
                proof {
                    assert forall|l: int|
                        0 <= l < self.entries@.len() implies seq_has(
                        orig,
                        #[trigger] self.entries@[l],
                    ) by {
                        if l < i {
                            assert(self.entries@[l] == cur[l]);
                        } else {
                            assert(self.entries@[l] == cur[l + 1]);
                        }
                    }
                    assert forall|l: int|
                        0 <= l < orig.len() && (#[trigger] orig[l]).created_at
                            >= cutoff implies seq_has(self.entries@, orig[l]) by {
                        let p = choose|p: int| 0 <= p < cur.len() && #[trigger] cur[p] == orig[l];
                        if p < i {
                            assert(self.entries@[p] == cur[p]);
                        } else {
                            assert(cur[p].created_at >= cutoff);
                            assert(cur[i as int].created_at < cutoff);
                            assert(p != i);
                            assert(self.entries@[p - 1] == cur[p]);
                        }
                    }
                }
            } else {
                i = i + 1;
            }
        }
        proof {
            assert forall|k: Seq<char>| #[trigger]
                self@.contains_key(k) implies old(self)@.contains_key(k) && old(
                self,
            )@[k].created_at >= spec_sweep_cutoff(now) && self@[k] == old(self)@[k] by {
                let idx = index_of_key(self.entries@, k);
                assert(0 <= idx < self.entries@.len() && entry_key(self.entries@[idx]) == k);
                lemma_entry_at(self.entries@, idx);
                let rec = self.entries@[idx];
                assert(rec.created_at >= spec_sweep_cutoff(now));
                let ol = choose|p: int| 0 <= p < orig.len() && #[trigger] orig[p] == rec;
                lemma_entry_at(orig, ol);
            }
            assert forall|k: Seq<char>|
                old(self)@.contains_key(k) && old(self)@[k].created_at >= spec_sweep_cutoff(
                    now,
                ) implies #[trigger] self@.contains_key(k) by {
                let ol = index_of_key(orig, k);
                assert(0 <= ol < orig.len() && entry_key(orig[ol]) == k);
                lemma_entry_at(orig, ol);
                assert(orig[ol].created_at >= spec_sweep_cutoff(now));
                let p = choose|p: int|
                    0 <= p < self.entries@.len() && #[trigger] self.entries@[p] == orig[ol];
                lemma_entry_at(self.entries@, p);
            }
        }
    }
}

impl Default for SessionStore {
    /// An empty registry with an empty backing-directory name.
    fn default() -> (r: Self)
        ensures
            r.wf(),
            r@ == Map::<Seq<char>, SessionInfoV>::empty(),
            r.spec_base_dir() == Seq::<char>::empty(),
    {
        SessionStore::new(String::new())
    }
}

/// Law: a record written under its id and then read back under that same
/// id, with no sweep in between, is returned field for field as written.
pub proof fn lemma_put_then_get(m: Map<Seq<char>, SessionInfoV>, rec: SessionInfoV)
    ensures
        spec_get(m.insert(spec_sanitize(rec.session_id), rec), rec.session_id) == Some(rec),
{
}

/// Law: a second write for the same id fully replaces the first. The store
/// after both writes equals the store after the second alone, so no field
/// of the first record can reach any later read.
pub proof fn lemma_second_put_replaces(
    m: Map<Seq<char>, SessionInfoV>,
    r1: SessionInfoV,
    r2: SessionInfoV,
)
    requires
        r1.session_id == r2.session_id,
    ensures
        m.insert(spec_sanitize(r1.session_id), r1).insert(spec_sanitize(r2.session_id), r2)
            == m.insert(spec_sanitize(r2.session_id), r2),
{
    assert(m.insert(spec_sanitize(r1.session_id), r1).insert(spec_sanitize(r2.session_id), r2)
        =~= m.insert(spec_sanitize(r2.session_id), r2));
}

/// Relies on std::time::SystemTime::now and duration_since: the seconds
/// since the Unix epoch, or absence when the clock reads before the epoch.
#[verifier::external_body]
fn unix_now() -> (r: Option<u64>) {
    match SystemTime::now().duration_since(UNIX_EPOCH) {
        Ok(d) => Some(d.as_secs()),
        Err(_) => None,
    }
}

} // verus!
