//! Named interval timers: each stage of a capture is timed under a name,
//! completed durations are kept in insertion order, and a report renders
//! every completed interval together with their total.
use indexmap::IndexMap;
use vstd::prelude::*;
use vstd::string::StringExecFns;

verus! {

#[verifier::external_type_specification]
#[verifier::external_body]
#[verifier::reject_recursive_types(K)]
#[verifier::reject_recursive_types(V)]
#[verifier::reject_recursive_types(S)]
pub struct ExIndexMap<K, V, S>(IndexMap<K, V, S>);

/// The entries a timer map holds, as pairs of key and value in the map's
/// insertion order.
pub uninterp spec fn timer_entries(m: IndexMap<String, u64>) -> Seq<(Seq<char>, u64)>;

/// Index of the first entry with key `k`, or `-1` when no entry has it.
pub open spec fn key_index(s: Seq<(Seq<char>, u64)>, k: Seq<char>) -> int
    decreases s.len(),
{
    if s.len() == 0 {
        -1
    } else if s[0].0 == k {
        0
    } else {
        let r = key_index(s.drop_first(), k);
        if r < 0 {
            -1
        } else {
            r + 1
        }
    }
}

pub open spec fn has_key(s: Seq<(Seq<char>, u64)>, k: Seq<char>) -> bool {
    key_index(s, k) >= 0
}

pub open spec fn value_of(s: Seq<(Seq<char>, u64)>, k: Seq<char>) -> u64 {
    s[key_index(s, k)].1
}

/// The entry sequence after inserting `k -> v`: an existing key keeps its
/// place and gets the new value, a new key is appended last.
pub open spec fn upsert(s: Seq<(Seq<char>, u64)>, k: Seq<char>, v: u64) -> Seq<(Seq<char>, u64)> {
    if has_key(s, k) {
        s.update(key_index(s, k), (k, v))
    } else {
        s.push((k, v))
    }
}

/// The entry sequence after removing key `k`, the order of the remaining
/// entries kept; unchanged when the key is absent.
pub open spec fn remove_key(s: Seq<(Seq<char>, u64)>, k: Seq<char>) -> Seq<(Seq<char>, u64)> {
    if has_key(s, k) {
        s.remove(key_index(s, k))
    } else {
        s
    }
}

pub proof fn lemma_key_index(s: Seq<(Seq<char>, u64)>, k: Seq<char>)
    ensures
        has_key(s, k) ==> 0 <= key_index(s, k) < s.len() && s[key_index(s, k)].0 == k,
        !has_key(s, k) ==> forall|i: int| 0 <= i < s.len() ==> s[i].0 != k,
    decreases s.len(),
{
    if s.len() != 0 && s[0].0 != k {
        lemma_key_index(s.drop_first(), k);
        if !has_key(s, k) {
            assert forall|i: int| 0 <= i < s.len() implies s[i].0 != k by {
                if i > 0 {
                    assert(s.drop_first()[i - 1] == s[i]);
                }
            }
        }
    }
}

/// Relies on indexmap's `IndexMap::new`: a map with no entries.
#[verifier::external_body]
fn imap_new() -> (m: IndexMap<String, u64>)
    ensures
        timer_entries(m) == Seq::<(Seq<char>, u64)>::empty(),
{
    IndexMap::new()
}

/// Relies on indexmap's `IndexMap::insert`: an existing key keeps its place
/// in the order and gets the new value; a new key is appended last.
#[verifier::external_body]
fn imap_insert(m: &mut IndexMap<String, u64>, key: String, value: u64)
    ensures
        timer_entries(*final(m)) == upsert(timer_entries(*old(m)), key@, value),
{
    m.insert(key, value);
}

/// Relies on indexmap's `IndexMap::shift_remove`: removes the entry of the
/// key, keeping the order of the entries that remain, and returns its value;
/// `None` and no change when the key is absent.
#[verifier::external_body]
fn imap_shift_remove(m: &mut IndexMap<String, u64>, key: &str) -> (r: Option<u64>)
    ensures
        has_key(timer_entries(*old(m)), key@) ==> {
            &&& r == Some(value_of(timer_entries(*old(m)), key@))
            &&& timer_entries(*final(m)) == remove_key(timer_entries(*old(m)), key@)
        },
        !has_key(timer_entries(*old(m)), key@) ==> {
            &&& r == None::<u64>
            &&& timer_entries(*final(m)) == timer_entries(*old(m))
        },
{
    m.shift_remove(key)
}

/// Relies on indexmap's `IndexMap::len`: the number of entries.
#[verifier::external_body]
fn imap_len(m: &IndexMap<String, u64>) -> (n: usize)
    ensures
        n == timer_entries(*m).len(),
{
    m.len()
}

/// Relies on indexmap's `IndexMap::get_index`: the entry at a position in
/// the insertion order.
#[verifier::external_body]
fn imap_get_index(m: &IndexMap<String, u64>, i: usize) -> (r: (String, u64))
    requires
        i < timer_entries(*m).len(),
    ensures
        (r.0@, r.1) == timer_entries(*m)[i as int],
{
    let (k, v) = m.get_index(i).unwrap();
    (k.clone(), *v)
}

/// Relies on `std::time::SystemTime::now`, read as whole nanoseconds since
/// the UNIX epoch; the value comes from the wall clock, so nothing is
/// promised of it.
#[verifier::external_body]
fn clock_nanos() -> u64 {
    match std::time::SystemTime::now().duration_since(std::time::UNIX_EPOCH) {
        Ok(d) => d.as_nanos() as u64,
        Err(_) => 0,
    }
}

/// One completed interval: its name and its elapsed time in nanoseconds.
#[derive(Debug, Clone, PartialEq)]
pub struct Metric {
    pub name: String,
    pub duration: u64,
}

/// Named interval timers. `Disabled` makes every operation a no-op;
/// `Enabled` keeps the in-flight start times and the completed durations
/// (in nanoseconds), each in insertion order.
pub enum Metrics {
    Disabled,
    Enabled { ongoing: IndexMap<String, u64>, completed: IndexMap<String, u64> },
}

impl Metrics {
    pub open spec fn is_enabled(self) -> bool {
        self is Enabled
    }

    pub open spec fn spec_ongoing(self) -> Seq<(Seq<char>, u64)> {
        match self {
            Metrics::Disabled => Seq::empty(),
            Metrics::Enabled { ongoing, .. } => timer_entries(ongoing),
        }
    }

    pub open spec fn spec_completed(self) -> Seq<(Seq<char>, u64)> {
        match self {
            Metrics::Disabled => Seq::empty(),
            Metrics::Enabled { completed, .. } => timer_entries(completed),
        }
    }

    /// Fresh, enabled timers with nothing begun and nothing completed.
    pub fn new() -> (m: Metrics)
        ensures
            m.is_enabled(),
            m.spec_ongoing() == Seq::<(Seq<char>, u64)>::empty(),
            m.spec_completed() == Seq::<(Seq<char>, u64)>::empty(),
    {
        Metrics::Enabled { ongoing: imap_new(), completed: imap_new() }
    }

    /// Record the current time under `name`, overwriting any unclosed start
    /// under the same name; a no-op on disabled timers.
    pub fn begin(&mut self, name: &str)
        ensures
            final(self).is_enabled() == old(self).is_enabled(),
            !old(self).is_enabled() ==> *final(self) == *old(self),
            old(self).is_enabled() ==> {
                &&& final(self).spec_completed() == old(self).spec_completed()
                &&& exists|t: u64|
                    final(self).spec_ongoing() == upsert(old(self).spec_ongoing(), name@, t)
            },
    {
        match self {
            Metrics::Disabled => {},
            Metrics::Enabled { ongoing, .. } => {
                let t = clock_nanos();
                imap_insert(ongoing, name.to_owned(), t);
                proof {
                    assert(timer_entries(*ongoing) == upsert(
                        old(self).spec_ongoing(),
                        name@,
                        t,
                    ));
                }
            },
        }
    }

    /// Close the interval begun under `name`: its start leaves the open
    /// entries and its elapsed time is recorded under `name` among the
    /// completed ones. Without an open entry for `name`, and on disabled
    /// timers, nothing changes.
    pub fn end(&mut self, name: &str)
        ensures
            final(self).is_enabled() == old(self).is_enabled(),
            !old(self).is_enabled() ==> *final(self) == *old(self),
            old(self).is_enabled() ==> {
                &&& final(self).spec_ongoing() == remove_key(old(self).spec_ongoing(), name@)
                &&& has_key(old(self).spec_ongoing(), name@) ==> exists|d: u64|
                    final(self).spec_completed() == upsert(old(self).spec_completed(), name@, d)
                &&& !has_key(old(self).spec_ongoing(), name@) ==> final(self).spec_completed()
                    == old(self).spec_completed()
            },
    {
        match self {
            Metrics::Disabled => {},
            Metrics::Enabled { ongoing, completed } => {
                match imap_shift_remove(ongoing, name) {
                    Some(start) => {
                        let now = clock_nanos();
                        let d = if now >= start {
                            now - start
                        } else {
                            0
                        };
                        imap_insert(completed, name.to_owned(), d);
                        proof {
                            assert(timer_entries(*ongoing) == remove_key(
                                old(self).spec_ongoing(),
                                name@,
                            ));
                            assert(timer_entries(*completed) == upsert(
                                old(self).spec_completed(),
                                name@,
                                d,
                            ));
                        }
                    },
                    None => {},
                }
            },
        }
    }
    /// The completed intervals, in the order their names were first
    /// recorded; empty on disabled timers.
    pub fn completed(&self) -> (v: Vec<Metric>)
        ensures
            v@.len() == self.spec_completed().len(),
            forall|i: int|
                0 <= i < v@.len() ==> (v@[i].name@, v@[i].duration)
                    == self.spec_completed()[i],
    {
        match self {
            Metrics::Disabled => Vec::new(),
            Metrics::Enabled { completed, .. } => {
                let n = imap_len(completed);
                let mut v: Vec<Metric> = Vec::new();
                let mut i: usize = 0;
                while i < n
                    invariant
                        n == timer_entries(*completed).len(),
                        i <= n,
                        v@.len() == i,
                        forall|j: int|
                            0 <= j < i ==> (v@[j].name@, v@[j].duration) == timer_entries(
                                *completed,
                            )[j],
                    decreases n - i,
                {
                    let e = imap_get_index(completed, i);
                    v.push(Metric { name: e.0, duration: e.1 });
                    i += 1;
                }
                v
            },
        }
    }

    /// The sum of all completed durations, in nanoseconds; zero on
    /// disabled timers.
    pub fn total(&self) -> (t: u128)
        ensures
            !self.is_enabled() ==> t == 0,
            self.is_enabled() ==> t as int == sum_durations(self.spec_completed()),
    {
        match self {
            Metrics::Disabled => 0,
            Metrics::Enabled { completed, .. } => {
                let ghost entries = timer_entries(*completed);
                let n = imap_len(completed);
                let mut acc: u128 = 0;
                let mut i: usize = 0;
                while i < n
                    invariant
                        n == entries.len(),
                        entries == timer_entries(*completed),
                        i <= n,
                        acc as int == sum_durations(entries.take(i as int)),
                        acc as int <= (i as int) * (u64::MAX as int),
                    decreases n - i,
                {
                    let e = imap_get_index(completed, i);
                    proof {
                        assert(entries.take(i as int + 1).drop_last() =~= entries.take(
                            i as int,
                        ));
                        assert((i as int + 1) * (u64::MAX as int) <= (n as int) * (
                        u64::MAX as int)) by (nonlinear_arith)
                            requires
                                i as int + 1 <= n as int,
                        ;
                        assert((n as int) * (u64::MAX as int) < u128::MAX as int)
                            by (nonlinear_arith)
                            requires
                                n as int <= usize::MAX as int,
                        ;
                    }
                    acc = acc + e.1 as u128;
                    i += 1;
                }
                proof {
                    assert(entries.take(n as int) =~= entries);
                }
                acc
            },
        }
    }

    /// Every completed interval rendered as "name <nanos>ns", separated by
    /// " | ", followed by " | total <nanos>ns"; on disabled timers a fixed
    /// sentence that names no interval.
    pub fn report(&self) -> (r: String)
        ensures
            r@ == spec_report(*self),
    {
        match self {
            Metrics::Disabled => "Metrics disabled, nothing to report".to_owned(),
            Metrics::Enabled { completed, .. } => {
                let ghost entries = timer_entries(*completed);
                let n = imap_len(completed);
                let mut out = String::new();
                let mut i: usize = 0;
                while i < n
                    invariant
                        n == entries.len(),
                        entries == timer_entries(*completed),
                        i <= n,
                        out@ == spec_lines(entries.take(i as int)),
                    decreases n - i,
                {
                    let e = imap_get_index(completed, i);
                    if i > 0 {
                        out.append(" | ");
                    }
                    out.append(e.0.as_str());
                    out.append(" ");
                    let ds = u128_digits(e.1 as u128);
                    out.append(ds.as_str());
                    out.append("ns");
                    proof {
                        reveal_strlit(" | ");
                        reveal_strlit(" ");
                        reveal_strlit("ns");
                        assert(entries.take(i as int + 1).drop_last() =~= entries.take(
                            i as int,
                        ));
                        assert(out@ =~= spec_lines(entries.take(i as int + 1)));
                    }
                    i += 1;
                }
                let t = self.total();
                let ts = u128_digits(t);
                out.append(" | total ");
                out.append(ts.as_str());
                out.append("ns");
                proof {
                    lemma_sum_durations_nonneg(entries);
                    reveal_strlit(" | total ");
                    reveal_strlit("ns");
                    assert(entries.take(n as int) =~= entries);
                    assert(out@ =~= spec_report(*self));
                }
                out
            },
        }
    }
}

impl Default for Metrics {
    /// Timers made by `Default` start disabled; `new` gives the enabled form.
    fn default() -> (m: Metrics)
        ensures
            m == Metrics::Disabled,
    {
        Metrics::Disabled
    }
}

pub proof fn lemma_key_index_same_keys(
    s: Seq<(Seq<char>, u64)>,
    t: Seq<(Seq<char>, u64)>,
    k: Seq<char>,
)
    requires
        s.len() == t.len(),
        forall|i: int| 0 <= i < s.len() ==> s[i].0 == t[i].0,
    ensures
        key_index(s, k) == key_index(t, k),
    decreases s.len(),
{
    if s.len() != 0 {
        assert(s[0].0 == t[0].0);
        if s[0].0 != k {
            assert forall|i: int| 0 <= i < s.drop_first().len() implies s.drop_first()[i].0
                == t.drop_first()[i].0 by {
                assert(s.drop_first()[i] == s[i + 1]);
                assert(t.drop_first()[i] == t[i + 1]);
            }
            lemma_key_index_same_keys(s.drop_first(), t.drop_first(), k);
        }
    }
}

pub proof fn lemma_key_index_push_absent(s: Seq<(Seq<char>, u64)>, k: Seq<char>, v: u64)
    requires
        !has_key(s, k),
    ensures
        key_index(s.push((k, v)), k) == s.len(),
    decreases s.len(),
{
    let t = s.push((k, v));
    if s.len() == 0 {
        assert(t[0] == (k, v));
    } else {
        assert(s[0].0 != k);
        assert(t[0] == s[0]);
        assert(t.drop_first() =~= s.drop_first().push((k, v)));
        lemma_key_index_push_absent(s.drop_first(), k, v);
    }
}

/// Writing a key always leaves it present.
pub proof fn lemma_has_key_upsert(s: Seq<(Seq<char>, u64)>, k: Seq<char>, v: u64)
    ensures
        has_key(upsert(s, k, v), k),
{
    if has_key(s, k) {
        lemma_key_index(s, k);
        let t = s.update(key_index(s, k), (k, v));
        lemma_key_index_same_keys(s, t, k);
    } else {
        lemma_key_index_push_absent(s, k, v);
    }
}

/// Removing a key right after writing it gives the entries without that
/// key: what `end` leaves of the open entries after a matching `begin`.
pub proof fn lemma_remove_upsert(s: Seq<(Seq<char>, u64)>, k: Seq<char>, v: u64)
    ensures
        remove_key(upsert(s, k, v), k) == remove_key(s, k),
{
    if has_key(s, k) {
        let i = key_index(s, k);
        lemma_key_index(s, k);
        let t = s.update(i, (k, v));
        lemma_key_index_same_keys(s, t, k);
        lemma_key_index(t, k);
        assert(remove_key(t, k) =~= remove_key(s, k));
    } else {
        let t = s.push((k, v));
        lemma_key_index_push_absent(s, k, v);
        lemma_key_index(t, k);
        assert(t.remove(s.len() as int) =~= s);
    }
}

/// The sum of the durations of a sequence of completed intervals.
pub open spec fn sum_durations(s: Seq<(Seq<char>, u64)>) -> int
    decreases s.len(),
{
    if s.len() == 0 {
        0
    } else {
        sum_durations(s.drop_last()) + s.last().1
    }
}

pub proof fn lemma_sum_durations_nonneg(s: Seq<(Seq<char>, u64)>)
    ensures
        sum_durations(s) >= 0,
    decreases s.len(),
{
    if s.len() > 0 {
        lemma_sum_durations_nonneg(s.drop_last());
    }
}

pub proof fn lemma_sum_ge_entry(s: Seq<(Seq<char>, u64)>, i: int)
    requires
        0 <= i < s.len(),
    ensures
        sum_durations(s) >= s[i].1,
    decreases s.len(),
{
    if i == s.len() - 1 {
        lemma_sum_durations_nonneg(s.drop_last());
    } else {
        lemma_sum_ge_entry(s.drop_last(), i);
        assert(s.drop_last()[i] == s[i]);
    }
}

/// A completed duration is never negative, and the total of the completed
/// durations is at least each single one of them: after an interval is
/// begun and then ended, `total` is at least the duration recorded for it.
pub proof fn lemma_total_covers_each(s: Seq<(Seq<char>, u64)>, k: Seq<char>)
    requires
        has_key(s, k),
    ensures
        sum_durations(s) >= value_of(s, k) >= 0,
{
    lemma_key_index(s, k);
    lemma_sum_ge_entry(s, key_index(s, k));
}

pub open spec fn digit_char(d: nat) -> char {
    if d == 0 {
        '0'
    } else if d == 1 {
        '1'
    } else if d == 2 {
        '2'
    } else if d == 3 {
        '3'
    } else if d == 4 {
        '4'
    } else if d == 5 {
        '5'
    } else if d == 6 {
        '6'
    } else if d == 7 {
        '7'
    } else if d == 8 {
        '8'
    } else {
        '9'
    }
}

/// The decimal digits of `n`, most significant first.
pub open spec fn spec_digits(n: nat) -> Seq<char>
    decreases n,
{
    if n < 10 {
        seq![digit_char(n)]
    } else {
        spec_digits(n / 10).push(digit_char(n % 10))
    }
}

fn digit_to_str(d: u128) -> (s: &'static str)
    requires
        d < 10,
    ensures
        s@ == seq![digit_char(d as nat)],
{
    let s: &'static str = if d == 0 {
        "0"
    } else if d == 1 {
        "1"
    } else if d == 2 {
        "2"
    } else if d == 3 {
        "3"
    } else if d == 4 {
        "4"
    } else if d == 5 {
        "5"
    } else if d == 6 {
        "6"
    } else if d == 7 {
        "7"
    } else if d == 8 {
        "8"
    } else {
        "9"
    };
    proof {
        reveal_strlit("0");
        reveal_strlit("1");
        reveal_strlit("2");
        reveal_strlit("3");
        reveal_strlit("4");
        reveal_strlit("5");
        reveal_strlit("6");
        reveal_strlit("7");
        reveal_strlit("8");
        reveal_strlit("9");
        assert(s@ =~= seq![digit_char(d as nat)]);
    }
    s
}

/// Render `n` in decimal.
fn u128_digits(n: u128) -> (s: String)
    ensures
        s@ == spec_digits(n as nat),
    decreases n,
{
    let d = n % 10;
    let ds = digit_to_str(d);
    if n < 10 {
        ds.to_owned()
    } else {
        let rest = u128_digits(n / 10);
        let s = rest.concat(ds);
        proof {
            assert(s@ =~= spec_digits((n / 10) as nat).push(digit_char((n % 10) as nat)));
        }
        s
    }
}

/// One completed interval rendered for the report.
pub open spec fn spec_metric_line(e: (Seq<char>, u64)) -> Seq<char> {
    e.0 + seq![' '] + spec_digits(e.1 as nat) + seq!['n', 's']
}

/// The completed intervals rendered in order, separated by " | ".
pub open spec fn spec_lines(s: Seq<(Seq<char>, u64)>) -> Seq<char>
    decreases s.len(),
{
    if s.len() == 0 {
        Seq::empty()
    } else if s.len() == 1 {
        spec_metric_line(s[0])
    } else {
        spec_lines(s.drop_last()) + seq![' ', '|', ' '] + spec_metric_line(s.last())
    }
}

/// What `report` renders.
pub open spec fn spec_report(m: Metrics) -> Seq<char> {
    if !m.is_enabled() {
        "Metrics disabled, nothing to report"@
    } else {
        spec_lines(m.spec_completed()) + seq![' ', '|', ' ', 't', 'o', 't', 'a', 'l', ' ']
            + spec_digits(sum_durations(m.spec_completed()) as nat) + seq!['n', 's']
    }
}

} // verus!
