//! Distributed locks kept in the application database: who holds a lock,
//! the statements that take and give one back, and which lock rows a
//! process still has to create.

use vstd::prelude::*;
use vstd::string::StringExecFns;
use crate::text::{nat_text, str_eq, u64_text};

verus! {

/// A lowercase hexadecimal digit.
pub open spec fn is_lower_hex(c: char) -> bool {
    ('0' <= c && c <= '9') || ('a' <= c && c <= 'f')
}

/// The hyphenated text of a version 4 (random) UUID: 36 characters, hyphens at
/// 8, 13, 18 and 23, lowercase hexadecimal digits elsewhere, the version digit
/// `4` at 14 and the variant digit (8, 9, a or b) at 19.
pub open spec fn is_uuid_v4_text(s: Seq<char>) -> bool {
    &&& s.len() == 36
    &&& forall|i: int| 0 <= i < 36 ==> if i == 8 || i == 13 || i == 18 || i == 23 {
        #[trigger] s[i] == '-'
    } else {
        is_lower_hex(s[i])
    }
    &&& s[14] == '4'
    &&& (s[19] == '8' || s[19] == '9' || s[19] == 'a' || s[19] == 'b')
}

/// Calls `uuid::Uuid::new_v4` and writes it with `to_string`. The id is
/// random; its text always has the form that `uuid` documents for `Display`
/// (lowercase hyphenated), with the version and variant bits that `new_v4`
/// sets.
#[verifier::external_body]
fn new_uuid_v4() -> (s: String)
    ensures
        is_uuid_v4_text(s@),
{
    uuid::Uuid::new_v4().to_string()
}

/// The identity of this pod: its pod name, else its host name, else a
/// fresh random id.
pub fn pod_identity(pod_name: Option<String>, hostname: Option<String>) -> (s: String)
    ensures
        pod_name matches Some(p) ==> s == p,
        pod_name is None && hostname is Some ==> s == hostname.unwrap(),
        pod_name is None && hostname is None ==> is_uuid_v4_text(s@),
{
    match pod_name {
        Some(p) => p,
        None => match hostname {
            Some(h) => h,
            None => new_uuid_v4(),
        },
    }
}

/// The holder of a lock: pod, process and task, separated by colons.
pub open spec fn holder_text(pod: Seq<char>, process_id: u32, task_id: Seq<char>) -> Seq<char> {
    pod + ":"@ + nat_text(process_id as nat) + ":"@ + task_id
}

/// The holder of a lock taken by a task of a process of this pod.
pub fn lock_holder(pod: &str, process_id: u32, task_id: &str) -> (s: String)
    ensures
        s@ == holder_text(pod@, process_id, task_id@),
{
    let mut s = String::from_str(pod);
    s.append(":");
    let p = u64_text(process_id as u64);
    s.append(p.as_str());
    s.append(":");
    s.append(task_id);
    s
}

/// Three decimal digits of a number below 1000, with leading zeros.
pub open spec fn three_digits(n: nat) -> Seq<char> {
    seq![crate::text::digit_char(n / 100), crate::text::digit_char((n / 10) % 10), crate::text::digit_char(n % 10)]
}

/// A timeout in milliseconds as seconds with three decimals, as the lock
/// statement embeds it.
pub open spec fn timeout_seconds_text(timeout_ms: nat) -> Seq<char> {
    nat_text(timeout_ms / 1000) + "."@ + three_digits(timeout_ms % 1000)
}

/// A timeout in milliseconds as seconds with three decimals, e.g. 10000 as
/// "10.000" and 1234 as "1.234".
pub fn timeout_seconds(timeout_ms: u64) -> (s: String)
    ensures
        s@ == timeout_seconds_text(timeout_ms as nat),
{
    proof {
        reveal_strlit(".");
    }
    let mut v: Vec<char> = Vec::new();
    crate::text::push_nat_text(timeout_ms / 1000, &mut v);
    let ghost a = v@;
    v.push('.');
    let r = timeout_ms % 1000;
    let ghost b = v@;
    crate::text::push_nat_text(r / 100, &mut v);
    let ghost c = v@;
    crate::text::push_nat_text((r / 10) % 10, &mut v);
    let ghost d = v@;
    crate::text::push_nat_text(r % 10, &mut v);
    proof {
        let n = timeout_ms as nat;
        assert(a =~= nat_text(n / 1000));
        assert(b =~= a + "."@);
        assert(nat_text((r / 100) as nat) == seq![crate::text::digit_char((r / 100) as nat)]);
        assert(nat_text(((r / 10) % 10) as nat) == seq![crate::text::digit_char(((r / 10) % 10) as nat)]);
        assert(nat_text((r % 10) as nat) == seq![crate::text::digit_char((r % 10) as nat)]);
        assert(n % 1000 == r as nat);
        assert(v@ =~= b + three_digits(n % 1000));
        assert(v@ =~= timeout_seconds_text(n));
    }
    crate::text::string_from_chars(&v)
}

/// The statement that creates a lock row the first time this process
/// takes the lock; binds name, timeout in milliseconds and holder.
pub open spec fn insert_lock_sql() -> Seq<char> {
    "\n                    INSERT OR IGNORE INTO sys_dlock (name, status, timeout, holder, created_at, updated_at)\n                    VALUES (?, 1, ?, ?, CURRENT_TIMESTAMP, CURRENT_TIMESTAMP)\n                "@
}

/// The statement that creates a lock row.
pub fn insert_lock_statement() -> (s: &'static str)
    ensures
        s@ == insert_lock_sql(),
{
    "\n                    INSERT OR IGNORE INTO sys_dlock (name, status, timeout, holder, created_at, updated_at)\n                    VALUES (?, 1, ?, ?, CURRENT_TIMESTAMP, CURRENT_TIMESTAMP)\n                "
}

/// The text before the timeout in the statement that takes a lock.
pub open spec fn acquire_sql_head() -> Seq<char> {
    "\n            UPDATE sys_dlock SET status = 1, updated_at = CURRENT_TIMESTAMP, holder = ?\n            WHERE del_flag = 0 AND (\n                ((id = ? OR name = ?) AND status = 0)\n                OR (datetime(updated_at, '+' || '"@
}

/// The text after the timeout in the statement that takes a lock.
pub open spec fn acquire_sql_tail() -> Seq<char> {
    "' || ' seconds') < datetime('now'))\n            )\n            "@
}

/// The statement that takes a lock for a holder (binds holder, id, name): a
/// free lock, or any lock whose holder has not renewed it within the timeout.
pub fn acquire_statement(timeout_ms: u64) -> (s: String)
    ensures
        s@ == acquire_sql_head() + timeout_seconds_text(timeout_ms as nat) + acquire_sql_tail(),
{
    let secs = timeout_seconds(timeout_ms);
    let mut s = String::from_str("\n            UPDATE sys_dlock SET status = 1, updated_at = CURRENT_TIMESTAMP, holder = ?\n            WHERE del_flag = 0 AND (\n                ((id = ? OR name = ?) AND status = 0)\n                OR (datetime(updated_at, '+' || '");
    s.append(secs.as_str());
    s.append("' || ' seconds') < datetime('now'))\n            )\n            ");
    s
}

/// The statement that gives a lock back; only its holder can (binds
/// holder, id, name).
pub open spec fn release_lock_sql() -> Seq<char> {
    "\n            UPDATE sys_dlock SET status = 0, updated_at = CURRENT_TIMESTAMP\n            WHERE del_flag = 0 AND holder = ? AND (\n                ((id = ? OR name = ?) AND status = 1)\n            )\n        "@
}

/// The statement that gives a lock back.
pub fn release_statement() -> (s: &'static str)
    ensures
        s@ == release_lock_sql(),
{
    "\n            UPDATE sys_dlock SET status = 0, updated_at = CURRENT_TIMESTAMP\n            WHERE del_flag = 0 AND holder = ? AND (\n                ((id = ? OR name = ?) AND status = 1)\n            )\n        "
}

/// What a lock request must carry: name, holder and timeout, checked in that order.
pub fn check_lock_request(name: &Option<String>, holder: &Option<String>, timeout_ms: Option<u64>) -> (r: Result<(), String>)
    ensures
        name is None ==> (r matches Err(m) && m@ == "name is required"@),
        name is Some && holder is None ==> (r matches Err(m) && m@ == "holder is required"@),
        name is Some && holder is Some && timeout_ms is None ==> (r matches Err(m) && m@ == "timeout is required"@),
        name is Some && holder is Some && timeout_ms is Some <==> r is Ok,
{
    if name.is_none() {
        return Err(String::from_str("name is required"));
    }
    if holder.is_none() {
        return Err(String::from_str("holder is required"));
    }
    if timeout_ms.is_none() {
        return Err(String::from_str("timeout is required"));
    }
    Ok(())
}

/// The lock id a take or give-back statement binds; a request without one is
/// refused with "id is required" (a take checks this once the lock's row exists).
pub fn lock_id(id: Option<i64>) -> (r: Result<i64, String>)
    ensures
        id matches Some(v) ==> r == Ok::<i64, String>(v),
        id is None ==> (r matches Err(m) && m@ == "id is required"@),
{
    match id {
        Some(v) => Ok(v),
        None => Err(String::from_str("id is required")),
    }
}

/// What a give-back request must carry: name, holder and id, checked in that
/// order; gives the id.
pub fn check_release_request(name: &Option<String>, holder: &Option<String>, id: Option<i64>) -> (r: Result<i64, String>)
    ensures
        name is None ==> (r matches Err(m) && m@ == "name is required"@),
        name is Some && holder is None ==> (r matches Err(m) && m@ == "holder is required"@),
        name is Some && holder is Some && id is None ==> (r matches Err(m) && m@ == "id is required"@),
        name is Some && holder is Some && id is Some ==> r == Ok::<i64, String>(id.unwrap()),
{
    if name.is_none() {
        return Err(String::from_str("name is required"));
    }
    if holder.is_none() {
        return Err(String::from_str("holder is required"));
    }
    lock_id(id)
}

/// Whether a lock statement took effect: it changed at least one row.
pub fn lock_taken(rows_affected: u64) -> (b: bool)
    ensures
        b == (rows_affected > 0),
{
    rows_affected > 0
}

/// The holder that a release names. The handler releases with an empty
/// holder, so the statement only matches rows whose holder is empty.
pub fn release_holder() -> (s: &'static str)
    ensures
        s@ == Seq::<char>::empty(),
{
    proof {
        reveal_strlit("");
    }
    ""
}

/// The lock names whose row this process has created.
pub struct DLockInitializer {
    created: Vec<String>,
}

impl DLockInitializer {
    /// The names whose row has been created.
    pub closed spec fn names(&self) -> Set<Seq<char>> {
        self.created@.map_values(|s: String| s@).to_set()
    }

    /// No row created yet.
    pub fn new() -> (i: Self)
        ensures
            i.names() == Set::<Seq<char>>::empty(),
    {
        let i = DLockInitializer { created: Vec::new() };
        assert(i.names() =~= Set::<Seq<char>>::empty());
        i
    }

    /// Whether the row of a lock still has to be created; it is recorded as
    /// created from then on, so this answers yes once per name.
    pub fn first_acquire(&mut self, name: &str) -> (b: bool)
        ensures
            b == !old(self).names().contains(name@),
            final(self).names() == old(self).names().insert(name@),
    {
        let mut i: usize = 0;
        while i < self.created.len()
            invariant
                i <= self.created.len(),
                self.created@ == old(self).created@,
                forall|k: int| 0 <= k < i ==> self.created@[k]@ != name@,
            decreases self.created.len() - i,
        {
            if str_eq(self.created[i].as_str(), name) {
                proof {
                    let v = self.created@.map_values(|s: String| s@);
                    assert(v[i as int] == name@);
                    assert(self.names().contains(name@));
                    assert(self.names().insert(name@) =~= self.names());
                }
                return false;
            }
            i += 1;
        }
        proof {
            let v = self.created@.map_values(|s: String| s@);
            assert forall|k: int| 0 <= k < v.len() implies v[k] != name@ by {
                assert(self.created@[k]@ != name@);
            }
            assert(!v.contains(name@));
        }
        let ghost before = self.created@.map_values(|s: String| s@);
        self.created.push(String::from_str(name));
        proof {
            let after = self.created@.map_values(|s: String| s@);
            assert(after =~= before.push(name@));
            assert forall|x: Seq<char>| after.to_set().contains(x) == before.to_set().insert(name@).contains(x) by {
                if before.contains(x) {
                    let k = choose|k: int| 0 <= k < before.len() && before[k] == x;
                    assert(after[k] == x);
                }
                if after.contains(x) {
                    let k = choose|k: int| 0 <= k < after.len() && after[k] == x;
                    if k < before.len() {
                        assert(before[k] == x);
                    }
                }
                assert(after[before.len() as int] == name@);
            }
            assert(after.to_set() =~= before.to_set().insert(name@));
        }
        true
    }
}

/// Whether `part` occurs in `s`.
pub open spec fn contains_text(s: Seq<char>, part: Seq<char>) -> bool {
    exists|i: int| 0 <= i && i + part.len() <= s.len() && #[trigger] s.subrange(i, i + part.len()) == part
}

proof fn lemma_contains_at(s: Seq<char>, part: Seq<char>, i: int)
    requires
        0 <= i && i + part.len() <= s.len(),
        s.subrange(i, i + part.len()) =~= part,
    ensures
        contains_text(s, part),
{
}

proof fn lemma_contains_prefix_part(h: Seq<char>, rest: Seq<char>, part: Seq<char>, i: int)
    requires
        0 <= i && i + part.len() <= h.len(),
        h.subrange(i, i + part.len()) =~= part,
    ensures
        contains_text(h + rest, part),
{
    assert((h + rest).subrange(i, i + part.len()) =~= h.subrange(i, i + part.len()));
    lemma_contains_at(h + rest, part, i);
}

/// Taking a lock marks it held (status 1) by the bound holder, and a lock
/// within its timeout is matched (by id or name) only while it is free
/// (status 0); giving it back marks it free, and matches it only while the
/// bound holder holds it (status 1). A lock row is created held.
pub proof fn lemma_lock_statements(timeout_ms: nat)
    ensures
        contains_text(acquire_sql_head() + timeout_seconds_text(timeout_ms) + acquire_sql_tail(), "SET status = 1"@),
        contains_text(acquire_sql_head() + timeout_seconds_text(timeout_ms) + acquire_sql_tail(), "holder = ?"@),
        contains_text(acquire_sql_head() + timeout_seconds_text(timeout_ms) + acquire_sql_tail(),
            "((id = ? OR name = ?) AND status = 0)"@),
        !contains_text(acquire_sql_head(), "status = 1)"@),
        contains_text(release_lock_sql(), "SET status = 0"@),
        contains_text(release_lock_sql(), "holder = ? AND"@),
        contains_text(release_lock_sql(), "((id = ? OR name = ?) AND status = 1)"@),
        contains_text(insert_lock_sql(), "VALUES (?, 1, ?, ?,"@),
{
    let h = acquire_sql_head();
    let rest = timeout_seconds_text(timeout_ms) + acquire_sql_tail();
    reveal_strlit("\n            UPDATE sys_dlock SET status = 1, updated_at = CURRENT_TIMESTAMP, holder = ?\n            WHERE del_flag = 0 AND (\n                ((id = ? OR name = ?) AND status = 0)\n                OR (datetime(updated_at, '+' || '");
    reveal_strlit("\n            UPDATE sys_dlock SET status = 0, updated_at = CURRENT_TIMESTAMP\n            WHERE del_flag = 0 AND holder = ? AND (\n                ((id = ? OR name = ?) AND status = 1)\n            )\n        ");
    reveal_strlit("\n                    INSERT OR IGNORE INTO sys_dlock (name, status, timeout, holder, created_at, updated_at)\n                    VALUES (?, 1, ?, ?, CURRENT_TIMESTAMP, CURRENT_TIMESTAMP)\n                ");
    reveal_strlit("SET status = 1");
    reveal_strlit("holder = ?");
    reveal_strlit("((id = ? OR name = ?) AND status = 0)");
    reveal_strlit("status = 1)");
    reveal_strlit("SET status = 0");
    reveal_strlit("holder = ? AND");
    reveal_strlit("((id = ? OR name = ?) AND status = 1)");
    reveal_strlit("VALUES (?, 1, ?, ?,");
    assert(h + timeout_seconds_text(timeout_ms) + acquire_sql_tail() =~= h + rest);
    lemma_contains_prefix_part(h, rest, "SET status = 1"@, 30);
    lemma_contains_prefix_part(h, rest, "holder = ?"@, 78);
    lemma_contains_prefix_part(h, rest, "((id = ? OR name = ?) AND status = 0)"@, 142);
    lemma_contains_at(release_lock_sql(), "SET status = 0"@, 30);
    lemma_contains_at(release_lock_sql(), "holder = ? AND"@, 112);
    lemma_contains_at(release_lock_sql(), "((id = ? OR name = ?) AND status = 1)"@, 145);
    let ins = insert_lock_sql();
    let k = 129int;
    lemma_contains_at(ins, "VALUES (?, 1, ?, ?,"@, k);
    assert forall|i: int| 0 <= i && i + 11 <= h.len() implies #[trigger] h.subrange(i, i + 11) != "status = 1)"@ by {
        if h.subrange(i, i + 11) == "status = 1)"@ {
            assert(h.subrange(i, i + 11)[9] == h[i + 9]);
            assert(h.subrange(i, i + 11)[10] == h[i + 10]);
        }
    }
}

proof fn lemma_digit_char_value(d: nat)
    requires
        d < 10,
    ensures
        '0' <= crate::text::digit_char(d) <= '9',
        (crate::text::digit_char(d) as u32 - '0' as u32) as nat == d,
{
}

/// The digits of a number read back as that number.
proof fn lemma_nat_text_value(n: nat)
    ensures
        crate::audit_attrs::is_digits(nat_text(n)),
        crate::audit_attrs::digits_value(nat_text(n)) == n,
    decreases n,
{
    if n < 10 {
        lemma_digit_char_value(n);
        let t = nat_text(n);
        assert(t.drop_last() =~= Seq::<char>::empty());
        assert(crate::audit_attrs::digits_value(t.drop_last()) == 0);
        assert(t.last() == crate::text::digit_char(n));
        assert(crate::audit_attrs::digits_value(t) == crate::audit_attrs::digits_value(t.drop_last()) * 10
            + ((t.last() as u32 - '0' as u32) as nat));
    } else {
        lemma_nat_text_value(n / 10);
        lemma_digit_char_value(n % 10);
        let t = nat_text(n);
        assert(t.drop_last() =~= nat_text(n / 10));
        assert(t.last() == crate::text::digit_char(n % 10));
        assert(crate::audit_attrs::digits_value(t) == crate::audit_attrs::digits_value(t.drop_last()) * 10
            + ((t.last() as u32 - '0' as u32) as nat));
        assert((n / 10) * 10 + n % 10 == n) by (nonlinear_arith);
        assert forall|i: int| 0 <= i < t.len() implies '0' <= #[trigger] t[i] <= '9' by {
            if i < t.len() - 1 {
                assert(t[i] == t.drop_last()[i]);
            }
        }
    }
}

/// The timeout text of a lock statement denotes the timeout in seconds: its
/// whole seconds, a point, and exactly three decimals, which read back as
/// the milliseconds given.
pub proof fn lemma_timeout_seconds_text(timeout_ms: nat)
    ensures ({
        let t = timeout_seconds_text(timeout_ms);
        let whole = t.subrange(0, t.len() - 4);
        let frac = t.subrange(t.len() - 3, t.len() as int);
        &&& t.len() >= 5
        &&& t[t.len() - 4] == '.'
        &&& crate::audit_attrs::is_digits(whole) && crate::audit_attrs::is_digits(frac)
        &&& crate::audit_attrs::digits_value(whole) * 1000 + crate::audit_attrs::digits_value(frac) == timeout_ms
    }),
{
    reveal_strlit(".");
    let w = nat_text(timeout_ms / 1000);
    let r = timeout_ms % 1000;
    let f3 = three_digits(r);
    lemma_nat_text_value(timeout_ms / 1000);
    lemma_digit_char_value(r / 100);
    lemma_digit_char_value((r / 10) % 10);
    lemma_digit_char_value(r % 10);
    let t = timeout_seconds_text(timeout_ms);
    assert(t == w + "."@ + f3);
    assert(t.subrange(0, t.len() - 4) =~= w);
    assert(t.subrange(t.len() - 3, t.len() as int) =~= f3);
    assert(f3.drop_last().drop_last().drop_last() =~= Seq::<char>::empty());
    assert(f3.drop_last().drop_last() =~= seq![crate::text::digit_char(r / 100)]);
    assert(f3.drop_last() =~= seq![crate::text::digit_char(r / 100), crate::text::digit_char((r / 10) % 10)]);
    reveal_with_fuel(crate::audit_attrs::digits_value, 4);
    assert(crate::audit_attrs::digits_value(f3.drop_last().drop_last()) == r / 100);
    assert(crate::audit_attrs::digits_value(f3.drop_last()) == (r / 100) * 10 + (r / 10) % 10);
    assert(crate::audit_attrs::digits_value(f3) == ((r / 100) * 10 + (r / 10) % 10) * 10 + r % 10);
    assert(((r / 100) * 10 + (r / 10) % 10) * 10 + r % 10 == (r / 100) * 100 + ((r / 10) % 10) * 10 + r % 10) by (nonlinear_arith);
    assert((r / 100) * 100 + ((r / 10) % 10) * 10 + r % 10 == r) by (nonlinear_arith)
        requires r < 1000;
}

} // verus!
