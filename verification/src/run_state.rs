//! Run manifests, the run index, and the rules of inspect, diff and apply.

use vstd::prelude::*;
use vstd::string::*;
use crate::hooks::HooksConfig;
use crate::text::{
    push_hex_digits, hex_digits, hex_char, push_decimal, decimal, chars_of, str_eq, string_of, push_char,
    push_chars, lines, line_ranges, push_bool, bool_text, push_signed_decimal, signed_decimal, trim,
    trimmed,
};
use crate::record::IterationOutcome;
use crate::verify::VerifyResult;
use crate::util::copy_opt;

verus! {

broadcast use vstd::seq_lib::group_to_multiset_ensures;

/// Where a run stands.
#[derive(Debug, Clone, Copy, PartialEq, Eq, Structural)]
pub enum RunStatus {
    Running,
    Passed,
    Failed,
}

/// The record of one run, kept in the directory of the run.
#[derive(Debug, Clone, PartialEq, Eq)]
pub struct RunManifest {
    pub run_id: String,
    pub artifact: String,
    pub goal: String,
    pub verify: String,
    pub max_iterations: usize,
    pub source_artifact_hash: String,
    pub started_at_unix: u64,
    pub finished_at_unix: Option<u64>,
    pub status: RunStatus,
    pub iterations: usize,
    pub final_record_path: Option<String>,
    pub final_artifact_path: Option<String>,
    pub summary_path: Option<String>,
    pub hooks: HooksConfig,
}

impl RunManifest {
    /// A copy of this manifest.
    pub fn duplicate(&self) -> (r: RunManifest)
        ensures
            r == *self,
    {
        RunManifest {
            run_id: self.run_id.clone(),
            artifact: self.artifact.clone(),
            goal: self.goal.clone(),
            verify: self.verify.clone(),
            max_iterations: self.max_iterations,
            source_artifact_hash: self.source_artifact_hash.clone(),
            started_at_unix: self.started_at_unix,
            finished_at_unix: self.finished_at_unix,
            status: self.status,
            iterations: self.iterations,
            final_record_path: copy_opt(&self.final_record_path),
            final_artifact_path: copy_opt(&self.final_artifact_path),
            summary_path: copy_opt(&self.summary_path),
            hooks: self.hooks.duplicate(),
        }
    }
}

/// The list of runs, kept as `index.json` in the runs directory.
#[derive(Debug, Clone, PartialEq, Eq)]
pub struct RunIndex {
    pub runs: Vec<RunIndexEntry>,
}

/// One run as the index lists it.
#[derive(Debug, Clone, PartialEq, Eq)]
pub struct RunIndexEntry {
    pub run_id: String,
    pub artifact: String,
    pub status: RunStatus,
    pub started_at_unix: u64,
    pub finished_at_unix: Option<u64>,
    pub iterations: usize,
    pub summary_path: Option<String>,
}

impl RunIndexEntry {
    /// A copy of this entry.
    pub fn duplicate(&self) -> (r: RunIndexEntry)
        ensures
            r == *self,
    {
        RunIndexEntry {
            run_id: self.run_id.clone(),
            artifact: self.artifact.clone(),
            status: self.status,
            started_at_unix: self.started_at_unix,
            finished_at_unix: self.finished_at_unix,
            iterations: self.iterations,
            summary_path: copy_opt(&self.summary_path),
        }
    }

    /// The index entry of a manifest.
    pub fn from_manifest(manifest: &RunManifest) -> (e: RunIndexEntry)
        ensures
            e == index_entry_of(*manifest),
    {
        RunIndexEntry {
            run_id: manifest.run_id.clone(),
            artifact: manifest.artifact.clone(),
            status: manifest.status,
            started_at_unix: manifest.started_at_unix,
            finished_at_unix: manifest.finished_at_unix,
            iterations: manifest.iterations,
            summary_path: copy_opt(&manifest.summary_path),
        }
    }
}

/// The index entry of a manifest: its id, artifact, status, times, iterations
/// and summary path.
pub open spec fn index_entry_of(m: RunManifest) -> RunIndexEntry {
    RunIndexEntry {
        run_id: m.run_id,
        artifact: m.artifact,
        status: m.status,
        started_at_unix: m.started_at_unix,
        finished_at_unix: m.finished_at_unix,
        iterations: m.iterations,
        summary_path: m.summary_path,
    }
}

/// The 64-bit FNV-1a hash of `bytes`.
pub open spec fn fnv1a(bytes: Seq<u8>) -> u64
    decreases bytes.len(),
{
    if bytes.len() == 0 {
        0xcbf29ce484222325u64
    } else {
        (fnv1a(bytes.drop_last()) ^ (bytes.last() as u64)).wrapping_mul(0x100000001b3u64)
    }
}

/// The hash of an artifact's bytes: FNV-1a, as 16 lowercase hexadecimal digits.
pub open spec fn stable_hash(bytes: Seq<u8>) -> Seq<char> {
    hex_digits(fnv1a(bytes) as nat, 16)
}

/// The hash by which `apply` notices that a source artifact changed.
pub fn stable_hash_bytes(bytes: &[u8]) -> (h: String)
    ensures
        h@ == stable_hash(bytes@),
{
    let mut hash: u64 = 0xcbf29ce484222325u64;
    let mut i: usize = 0;
    while i < bytes.len()
        invariant
            i <= bytes@.len(),
            hash == fnv1a(bytes@.take(i as int)),
        decreases bytes.len() - i,
    {
        assert(bytes@.take(i + 1).drop_last() =~= bytes@.take(i as int));
        hash = hash ^ (bytes[i] as u64);
        hash = hash.wrapping_mul(0x100000001b3u64);
        i = i + 1;
    }
    assert(bytes@.take(bytes@.len() as int) =~= bytes@);
    let mut h = String::new();
    push_hex_digits(&mut h, hash, 16);
    h
}

/// Whether `c` is a lowercase hexadecimal digit.
pub open spec fn is_hex_digit(c: char) -> bool {
    ('0' <= c <= '9') || ('a' <= c <= 'f')
}

proof fn lemma_hex_digits_shape(n: nat, count: nat)
    ensures
        hex_digits(n, count).len() == count,
        forall|i: int| 0 <= i < count ==> is_hex_digit(#[trigger] hex_digits(n, count)[i]),
    decreases count,
{
    if count > 0 {
        lemma_hex_digits_shape(n / 16, (count - 1) as nat);
        let d = n % 16;
        assert(is_hex_digit(hex_char(d)));
    }
}

/// Law: an artifact hash is always 16 lowercase hexadecimal digits.
pub proof fn law_stable_hash_shape(bytes: Seq<u8>)
    ensures
        stable_hash(bytes).len() == 16,
        forall|i: int| 0 <= i < 16 ==> is_hex_digit(#[trigger] stable_hash(bytes)[i]),
{
    lemma_hex_digits_shape(fnv1a(bytes) as nat, 16);
}

/// The hash of no bytes is the FNV-1a offset basis.
pub proof fn law_stable_hash_of_nothing()
    ensures
        stable_hash(Seq::<u8>::empty()) == "cbf29ce484222325"@,
{
    reveal_strlit("cbf29ce484222325");
    reveal_with_fuel(hex_digits, 17);
    assert(stable_hash(Seq::<u8>::empty()) =~= "cbf29ce484222325"@);
}

proof fn lemma_fnv1a_of_a()
    ensures
        fnv1a(seq![97u8]) == 0xaf63dc4c8601ec8cu64,
{
    assert(seq![97u8].drop_last() =~= Seq::<u8>::empty());
    assert((0xcbf29ce484222325u64 ^ 97u64) == 0xcbf29ce484222344u64) by (bit_vector);
    let product: nat = 0xcbf29ce484222344nat * 0x100000001b3nat;
    assert(product == 16158402040730025868984903134348nat);
    assert(product == 875948729822nat * 0x10000000000000000nat + 0xaf63dc4c8601ec8cnat);
    assert(product % 0x10000000000000000nat == 0xaf63dc4c8601ec8cnat) by (nonlinear_arith)
        requires
            product == 875948729822nat * 0x10000000000000000nat + 0xaf63dc4c8601ec8cnat,
    ;
    let bytes = seq![97u8];
    assert(bytes.last() == 97u8);
    assert(fnv1a(bytes.drop_last()) == 0xcbf29ce484222325u64);
    let mixed: u64 = 0xcbf29ce484222344u64;
    assert(fnv1a(bytes) == mixed.wrapping_mul(0x100000001b3u64));
    assert(mixed.wrapping_mul(0x100000001b3u64) == (product % 0x10000000000000000nat) as u64);
}

proof fn lemma_hex_digits_step(n: nat, count: nat, c: char, d: nat)
    requires
        count > 0,
        d == n % 16,
        c == hex_char(d),
    ensures
        hex_digits(n, count) == hex_digits(n / 16, (count - 1) as nat).push(c),
{
}

/// The hash of the single byte `a` (0x61).
pub proof fn law_stable_hash_of_a()
    ensures
        stable_hash(seq![97u8]) == "af63dc4c8601ec8c"@,
{
    reveal_strlit("af63dc4c8601ec8c");
    lemma_fnv1a_of_a();
    lemma_hex_digits_step(10nat, 1nat, 'a', 10nat);
    lemma_hex_digits_step(175nat, 2nat, 'f', 15nat);
    lemma_hex_digits_step(2806nat, 3nat, '6', 6nat);
    lemma_hex_digits_step(44899nat, 4nat, '3', 3nat);
    lemma_hex_digits_step(718397nat, 5nat, 'd', 13nat);
    lemma_hex_digits_step(11494364nat, 6nat, 'c', 12nat);
    lemma_hex_digits_step(183909828nat, 7nat, '4', 4nat);
    lemma_hex_digits_step(2942557260nat, 8nat, 'c', 12nat);
    lemma_hex_digits_step(47080916168nat, 9nat, '8', 8nat);
    lemma_hex_digits_step(753294658694nat, 10nat, '6', 6nat);
    lemma_hex_digits_step(12052714539104nat, 11nat, '0', 0nat);
    lemma_hex_digits_step(192843432625665nat, 12nat, '1', 1nat);
    lemma_hex_digits_step(3085494922010654nat, 13nat, 'e', 14nat);
    lemma_hex_digits_step(49367918752170476nat, 14nat, 'c', 12nat);
    lemma_hex_digits_step(789886700034727624nat, 15nat, '8', 8nat);
    lemma_hex_digits_step(12638187200555641996nat, 16nat, 'c', 12nat);
    assert(stable_hash(seq![97u8]) =~= "af63dc4c8601ec8c"@);
}

/// Whether `a` comes before `b` in the order of `String`'s `Ord`: byte-wise
/// order of UTF-8, which is the order of code points.
pub open spec fn text_lt(a: Seq<char>, b: Seq<char>) -> bool
    decreases a.len(),
{
    if a.len() == 0 {
        b.len() > 0
    } else if b.len() == 0 {
        false
    } else if a[0] != b[0] {
        a[0] < b[0]
    } else {
        text_lt(a.drop_first(), b.drop_first())
    }
}

proof fn lemma_text_lt_irreflexive(a: Seq<char>)
    ensures
        !text_lt(a, a),
    decreases a.len(),
{
    if a.len() > 0 {
        lemma_text_lt_irreflexive(a.drop_first());
    }
}

proof fn lemma_text_lt_total(a: Seq<char>, b: Seq<char>)
    ensures
        a != b ==> (text_lt(a, b) || text_lt(b, a)),
    decreases a.len(),
{
    if a.len() == 0 {
        if b.len() == 0 {
            assert(a =~= b);
        }
    } else if b.len() > 0 && a[0] == b[0] {
        lemma_text_lt_total(a.drop_first(), b.drop_first());
        if a != b {
            assert(a.drop_first() != b.drop_first()) by {
                if a.drop_first() == b.drop_first() {
                    assert(a =~= seq![a[0]] + a.drop_first());
                    assert(b =~= seq![b[0]] + b.drop_first());
                }
            }
        }
    }
}

proof fn lemma_text_lt_asymmetric(a: Seq<char>, b: Seq<char>)
    ensures
        !(text_lt(a, b) && text_lt(b, a)),
    decreases a.len(),
{
    if a.len() > 0 && b.len() > 0 && a[0] == b[0] {
        lemma_text_lt_asymmetric(a.drop_first(), b.drop_first());
    }
}

proof fn lemma_text_lt_transitive(a: Seq<char>, b: Seq<char>, c: Seq<char>)
    ensures
        text_lt(a, b) && text_lt(b, c) ==> text_lt(a, c),
    decreases a.len(),
{
    if a.len() > 0 && b.len() > 0 && c.len() > 0 {
        lemma_text_lt_transitive(a.drop_first(), b.drop_first(), c.drop_first());
    }
}

/// Law: `text_lt` is a strict total order.
pub proof fn lemma_text_lt_order(a: Seq<char>, b: Seq<char>, c: Seq<char>)
    ensures
        !text_lt(a, a),
        a != b ==> (text_lt(a, b) || text_lt(b, a)),
        !(text_lt(a, b) && text_lt(b, a)),
        text_lt(a, b) && text_lt(b, c) ==> text_lt(a, c),
{
    lemma_text_lt_irreflexive(a);
    lemma_text_lt_total(a, b);
    lemma_text_lt_asymmetric(a, b);
    lemma_text_lt_transitive(a, b, c);
}

/// Whether `a` comes before `b` in the order of `String`'s `Ord`.
pub fn text_less(a: &str, b: &str) -> (r: bool)
    ensures
        r == text_lt(a@, b@),
{
    let x = chars_of(a);
    let y = chars_of(b);
    let mut i: usize = 0;
    assert(a@.skip(0) =~= a@);
    assert(b@.skip(0) =~= b@);
    while i < x.len() && i < y.len() && x[i] == y[i]
        invariant
            x@ == a@,
            y@ == b@,
            i <= x.len(),
            i <= y.len(),
            text_lt(a@, b@) == text_lt(a@.skip(i as int), b@.skip(i as int)),
        decreases x.len() - i,
    {
        assert(a@.skip(i as int).drop_first() =~= a@.skip(i + 1));
        assert(b@.skip(i as int).drop_first() =~= b@.skip(i + 1));
        i = i + 1;
    }
    assert(a@.skip(i as int).len() == x.len() - i);
    assert(b@.skip(i as int).len() == y.len() - i);
    if i == x.len() {
        i < y.len()
    } else if i == y.len() {
        false
    } else {
        x[i] < y[i]
    }
}

/// Whether the index orders `a` no later than `b`: by start time, then by run id.
pub open spec fn entry_le(a: RunIndexEntry, b: RunIndexEntry) -> bool {
    a.started_at_unix < b.started_at_unix || (a.started_at_unix == b.started_at_unix
        && !text_lt(b.run_id@, a.run_id@))
}

/// `entry_le` is a total preorder.
pub proof fn lemma_entry_le_order(a: RunIndexEntry, b: RunIndexEntry, c: RunIndexEntry)
    ensures
        entry_le(a, a),
        entry_le(a, b) || entry_le(b, a),
        entry_le(a, b) && entry_le(b, c) ==> entry_le(a, c),
        entry_le(a, b) && entry_le(b, a) ==> a.started_at_unix == b.started_at_unix
            && a.run_id@ == b.run_id@,
{
    lemma_text_lt_order(a.run_id@, b.run_id@, c.run_id@);
    lemma_text_lt_order(c.run_id@, b.run_id@, a.run_id@);
    lemma_text_lt_order(b.run_id@, a.run_id@, c.run_id@);
    lemma_text_lt_order(a.run_id@, c.run_id@, b.run_id@);
    lemma_text_lt_order(b.run_id@, c.run_id@, a.run_id@);
    lemma_text_lt_order(c.run_id@, a.run_id@, b.run_id@);
}

fn entry_le_exec(a: &RunIndexEntry, b: &RunIndexEntry) -> (r: bool)
    ensures
        r == entry_le(*a, *b),
{
    a.started_at_unix < b.started_at_unix || (a.started_at_unix == b.started_at_unix
        && !text_less(b.run_id.as_str(), a.run_id.as_str()))
}

/// `e` placed into `sorted` after every entry ordered no later than it.
pub open spec fn insert_sorted(sorted: Seq<RunIndexEntry>, e: RunIndexEntry) -> Seq<RunIndexEntry>
    decreases sorted.len(),
{
    if sorted.len() == 0 {
        seq![e]
    } else if entry_le(sorted.last(), e) {
        sorted.push(e)
    } else {
        insert_sorted(sorted.drop_last(), e).push(sorted.last())
    }
}

/// The entries in index order, entries of equal key kept in their first order
/// (what a stable sort by `(started_at_unix, run_id)` gives).
pub open spec fn sort_entries(s: Seq<RunIndexEntry>) -> Seq<RunIndexEntry>
    decreases s.len(),
{
    if s.len() == 0 {
        seq![]
    } else {
        insert_sorted(sort_entries(s.drop_last()), s.last())
    }
}

/// Whether the entries are in index order.
pub open spec fn entries_sorted(s: Seq<RunIndexEntry>) -> bool {
    forall|i: int, j: int| 0 <= i < j < s.len() ==> entry_le(#[trigger] s[i], #[trigger] s[j])
}

proof fn lemma_insert_sorted_at(s: Seq<RunIndexEntry>, e: RunIndexEntry, p: int)
    requires
        0 <= p <= s.len(),
        forall|i: int| p <= i < s.len() ==> !entry_le(#[trigger] s[i], e),
        p == 0 || entry_le(s[p - 1], e),
    ensures
        insert_sorted(s, e) == s.insert(p, e),
    decreases s.len(),
{
    if s.len() == 0 {
        assert(s.insert(p, e) =~= seq![e]);
    } else if p == s.len() {
        assert(s.insert(p, e) =~= s.push(e));
    } else {
        assert(!entry_le(s.last(), e));
        assert forall|i: int| p <= i < s.drop_last().len() implies !entry_le(
            #[trigger] s.drop_last()[i],
            e,
        ) by {
            assert(s.drop_last()[i] == s[i]);
        }
        lemma_insert_sorted_at(s.drop_last(), e, p);
        assert(s.drop_last().insert(p, e).push(s.last()) =~= s.insert(p, e));
    }
}

/// Inserting keeps the entries sorted and adds exactly `e`.
pub proof fn lemma_insert_sorted(s: Seq<RunIndexEntry>, e: RunIndexEntry)
    requires
        entries_sorted(s),
    ensures
        entries_sorted(insert_sorted(s, e)),
        insert_sorted(s, e).to_multiset() == s.to_multiset().insert(e),
        insert_sorted(s, e).len() == s.len() + 1,
    decreases s.len(),
{
    if s.len() == 0 {
        assert(seq![e] =~= Seq::<RunIndexEntry>::empty().push(e));
    } else if entry_le(s.last(), e) {
        assert forall|i: int, j: int|
            0 <= i < j < s.push(e).len() implies entry_le(
            #[trigger] s.push(e)[i],
            #[trigger] s.push(e)[j],
        ) by {
            if j == s.len() {
                if i < s.len() - 1 {
                    lemma_entry_le_order(s[i], s.last(), e);
                }
            }
        }
    } else {
        let t = s.drop_last();
        assert(entries_sorted(t)) by {
            assert forall|i: int, j: int| 0 <= i < j < t.len() implies entry_le(
                #[trigger] t[i],
                #[trigger] t[j],
            ) by {
                assert(t[i] == s[i] && t[j] == s[j]);
            }
        }
        lemma_insert_sorted(t, e);
        let u = insert_sorted(t, e);
        assert(s =~= t.push(s.last()));
        assert(u.to_multiset().contains(e));
        assert forall|x: RunIndexEntry| u.to_multiset().count(x) > 0 implies entry_le(
            x,
            s.last(),
        ) by {
            if x == e {
                lemma_entry_le_order(e, s.last(), e);
            } else {
                assert(t.to_multiset().count(x) > 0);
                assert(t.contains(x));
                let k = choose|k: int| 0 <= k < t.len() && t[k] == x;
                assert(s[k] == x);
            }
        }
        assert forall|i: int, j: int|
            0 <= i < j < u.push(s.last()).len() implies entry_le(
            #[trigger] u.push(s.last())[i],
            #[trigger] u.push(s.last())[j],
        ) by {
            if j == u.len() {
                assert(u.contains(u[i]));
                assert(u.to_multiset().count(u[i]) > 0);
            } else {
                assert(u.push(s.last())[i] == u[i]);
                assert(u.push(s.last())[j] == u[j]);
            }
        }
    }
}

/// Sorting yields entries in index order holding exactly the input entries.
pub proof fn lemma_sort_entries(s: Seq<RunIndexEntry>)
    ensures
        entries_sorted(sort_entries(s)),
        sort_entries(s).to_multiset() == s.to_multiset(),
        sort_entries(s).len() == s.len(),
    decreases s.len(),
{
    if s.len() > 0 {
        lemma_sort_entries(s.drop_last());
        lemma_insert_sorted(sort_entries(s.drop_last()), s.last());
        assert(s =~= s.drop_last().push(s.last()));
    }
}

/// The entries in index order (a stable sort by start time, then run id).
pub fn sort_index_entries(entries: &Vec<RunIndexEntry>) -> (r: Vec<RunIndexEntry>)
    ensures
        r@ == sort_entries(entries@),
        entries_sorted(r@),
        r@.to_multiset() == entries@.to_multiset(),
{
    let mut r: Vec<RunIndexEntry> = Vec::new();
    let mut i: usize = 0;
    while i < entries.len()
        invariant
            i <= entries.len(),
            r@ == sort_entries(entries@.take(i as int)),
            entries_sorted(r@),
        decreases entries.len() - i,
    {
        let e = entries[i].duplicate();
        let mut p = r.len();
        while p > 0 && !entry_le_exec(&r[p - 1], &e)
            invariant
                p <= r.len(),
                forall|k: int| p <= k < r@.len() ==> !entry_le(#[trigger] r@[k], e),
            decreases p,
        {
            p = p - 1;
        }
        proof {
            lemma_insert_sorted_at(r@, e, p as int);
            lemma_insert_sorted(r@, e);
            assert(entries@.take(i + 1).drop_last() =~= entries@.take(i as int));
        }
        r.insert(p, e);
        i = i + 1;
    }
    proof {
        assert(entries@.take(entries.len() as int) =~= entries@);
        lemma_sort_entries(entries@);
    }
    r
}

/// Whether the runs must be found by scanning the runs directory: the index
/// lists no run.
pub fn index_needs_scan(index: &RunIndex) -> (r: bool)
    ensures
        r == (index.runs@.len() == 0),
{
    index.runs.len() == 0
}

/// The index to read runs from: the stored index when it lists a run, else the
/// entries found by scanning the runs directory (none when nothing was
/// scanned), in index order.
pub fn index_or_scanned(index: RunIndex, scanned: Option<Vec<RunIndexEntry>>) -> (r: RunIndex)
    ensures
        index.runs@.len() > 0 ==> r == index,
        index.runs@.len() == 0 ==> r.runs@ == sort_entries(
            match scanned {
                Some(v) => v@,
                None => Seq::<RunIndexEntry>::empty(),
            },
        ),
{
    if index.runs.len() > 0 {
        return index;
    }
    match scanned {
        Some(v) => RunIndex { runs: sort_index_entries(&v) },
        None => RunIndex { runs: Vec::new() },
    }
}

/// The entries of `runs` whose run id is not `id`, in order.
pub open spec fn other_runs(runs: Seq<RunIndexEntry>, id: Seq<char>) -> Seq<RunIndexEntry>
    decreases runs.len(),
{
    if runs.len() == 0 {
        seq![]
    } else if runs.last().run_id@ == id {
        other_runs(runs.drop_last(), id)
    } else {
        other_runs(runs.drop_last(), id).push(runs.last())
    }
}

proof fn lemma_other_runs(runs: Seq<RunIndexEntry>, id: Seq<char>)
    ensures
        forall|x: RunIndexEntry|
            #[trigger] other_runs(runs, id).to_multiset().count(x) == (if x.run_id@ == id {
                0
            } else {
                runs.to_multiset().count(x)
            }),
    decreases runs.len(),
{
    if runs.len() > 0 {
        lemma_other_runs(runs.drop_last(), id);
        assert(runs =~= runs.drop_last().push(runs.last()));
        assert(runs.to_multiset() =~= runs.drop_last().to_multiset().insert(runs.last()));
        let o = other_runs(runs.drop_last(), id);
        if runs.last().run_id@ != id {
            assert(o.push(runs.last()).to_multiset() =~= o.to_multiset().insert(runs.last()));
        }
    }
}

/// The index after recording `manifest`: the entries of other runs, plus the
/// manifest's entry, in index order.
pub open spec fn upserted(runs: Seq<RunIndexEntry>, m: RunManifest) -> Seq<RunIndexEntry> {
    sort_entries(other_runs(runs, m.run_id@).push(index_entry_of(m)))
}

/// The index after recording `manifest`: any entry of the same run is replaced
/// by the manifest's entry, and the entries are sorted.
pub fn upsert_index(index: &RunIndex, manifest: &RunManifest) -> (r: RunIndex)
    ensures
        r.runs@ == upserted(index.runs@, *manifest),
{
    let mut kept: Vec<RunIndexEntry> = Vec::new();
    let mut i: usize = 0;
    while i < index.runs.len()
        invariant
            i <= index.runs.len(),
            kept@ == other_runs(index.runs@.take(i as int), manifest.run_id@),
        decreases index.runs.len() - i,
    {
        assert(index.runs@.take(i + 1).drop_last() =~= index.runs@.take(i as int));
        if !str_eq(index.runs[i].run_id.as_str(), manifest.run_id.as_str()) {
            kept.push(index.runs[i].duplicate());
        }
        i = i + 1;
    }
    assert(index.runs@.take(index.runs.len() as int) =~= index.runs@);
    kept.push(RunIndexEntry::from_manifest(manifest));
    RunIndex { runs: sort_index_entries(&kept) }
}

/// Law: after recording a manifest, the index holds exactly one entry of that
/// run, the manifest's own entry; every entry of another run is kept as often as
/// it was there; and the index is in order.
pub proof fn law_upsert_index(runs: Seq<RunIndexEntry>, m: RunManifest)
    ensures
        entries_sorted(upserted(runs, m)),
        upserted(runs, m).to_multiset().count(index_entry_of(m)) == 1,
        forall|x: RunIndexEntry|
            x.run_id@ == m.run_id@ && #[trigger] upserted(runs, m).to_multiset().count(x) > 0
                ==> x == index_entry_of(m),
        forall|x: RunIndexEntry|
            x.run_id@ != m.run_id@ ==> #[trigger] upserted(runs, m).to_multiset().count(x)
                == runs.to_multiset().count(x),
{
    let o = other_runs(runs, m.run_id@);
    lemma_other_runs(runs, m.run_id@);
    lemma_sort_entries(o.push(index_entry_of(m)));
    assert(o.to_multiset().count(index_entry_of(m)) == 0);
}

proof fn lemma_sort_sorted_is_identity(s: Seq<RunIndexEntry>)
    requires
        entries_sorted(s),
    ensures
        sort_entries(s) == s,
    decreases s.len(),
{
    if s.len() > 0 {
        let t = s.drop_last();
        assert(entries_sorted(t)) by {
            assert forall|i: int, j: int| 0 <= i < j < t.len() implies entry_le(
                #[trigger] t[i],
                #[trigger] t[j],
            ) by {
                assert(t[i] == s[i] && t[j] == s[j]);
            }
        }
        lemma_sort_sorted_is_identity(t);
        if t.len() > 0 {
            assert(entry_le(s[t.len() - 1], s[s.len() - 1]));
        }
        assert(t.push(s.last()) =~= s);
    }
}

proof fn lemma_other_runs_insert(s: Seq<RunIndexEntry>, e: RunIndexEntry, id: Seq<char>)
    requires
        e.run_id@ == id,
    ensures
        other_runs(insert_sorted(s, e), id) == other_runs(s, id),
    decreases s.len(),
{
    if s.len() == 0 {
        assert(seq![e].drop_last() =~= Seq::<RunIndexEntry>::empty());
        assert(seq![e].last() == e);
        assert(other_runs(seq![e], id) == other_runs(Seq::<RunIndexEntry>::empty(), id));
    } else if entry_le(s.last(), e) {
        assert(s.push(e).drop_last() =~= s);
        assert(s.push(e).last() == e);
    } else {
        lemma_other_runs_insert(s.drop_last(), e, id);
        let u = insert_sorted(s.drop_last(), e);
        assert(u.push(s.last()).drop_last() =~= u);
        assert(u.push(s.last()).last() == s.last());
    }
}

proof fn lemma_other_runs_none(s: Seq<RunIndexEntry>, id: Seq<char>)
    requires
        forall|i: int| 0 <= i < s.len() ==> (#[trigger] s[i]).run_id@ != id,
    ensures
        other_runs(s, id) == s,
    decreases s.len(),
{
    if s.len() > 0 {
        lemma_other_runs_none(s.drop_last(), id);
        assert(s.drop_last().push(s.last()) =~= s);
    }
}

/// Law: recording the same manifest twice leaves the index as recording it once.
pub proof fn law_upsert_idempotent(runs: Seq<RunIndexEntry>, m: RunManifest)
    ensures
        upserted(upserted(runs, m), m) == upserted(runs, m),
{
    let id = m.run_id@;
    let e = index_entry_of(m);
    let o = other_runs(runs, id);
    let so = sort_entries(o);
    lemma_other_runs(runs, id);
    lemma_sort_entries(o);
    assert forall|i: int| 0 <= i < so.len() implies (#[trigger] so[i]).run_id@ != id by {
        assert(so.contains(so[i]));
        assert(so.to_multiset().count(so[i]) > 0);
        assert(o.to_multiset().count(so[i]) > 0);
    }
    assert(o.push(e).drop_last() =~= o);
    assert(upserted(runs, m) == insert_sorted(so, e));
    lemma_other_runs_insert(so, e, id);
    lemma_other_runs_none(so, id);
    lemma_sort_sorted_is_identity(so);
    assert(so.push(e).drop_last() =~= so);
}

/// Whether `s[k]` is ordered no earlier than every entry of `s`.
pub open spec fn is_latest(s: Seq<RunIndexEntry>, k: int) -> bool {
    0 <= k < s.len() && forall|j: int| 0 <= j < s.len() ==> entry_le(#[trigger] s[j], s[k])
}

/// Law: a run recorded with a start time later than that of every other run
/// in the index is the latest run of the updated index, and any latest entry is
/// that run's.
pub proof fn law_recorded_run_is_latest(runs: Seq<RunIndexEntry>, m: RunManifest)
    requires
        forall|i: int|
            0 <= i < runs.len() && (#[trigger] runs[i]).run_id@ != m.run_id@ ==> runs[i].started_at_unix
                < m.started_at_unix,
    ensures
        exists|k: int|
            is_latest(upserted(runs, m), k) && #[trigger] upserted(runs, m)[k] == index_entry_of(m),
        forall|k: int| is_latest(upserted(runs, m), k) ==> (#[trigger] upserted(runs, m)[k]).run_id@
            == m.run_id@,
{
    let u = upserted(runs, m);
    let e = index_entry_of(m);
    law_upsert_index(runs, m);
    assert(u.to_multiset().count(e) > 0);
    assert(u.contains(e));
    let k = choose|k: int| 0 <= k < u.len() && u[k] == e;
    assert forall|j: int| 0 <= j < u.len() implies entry_le(#[trigger] u[j], u[k]) by {
        let x = u[j];
        assert(u.contains(x));
        assert(u.to_multiset().count(x) > 0);
        if x.run_id@ == m.run_id@ {
            assert(x == e);
            lemma_entry_le_order(e, e, e);
        } else {
            assert(runs.to_multiset().count(x) > 0);
            assert(runs.contains(x));
            let i = choose|i: int| 0 <= i < runs.len() && runs[i] == x;
            assert(runs[i].started_at_unix < m.started_at_unix);
        }
    }
    assert(is_latest(u, k));
    assert forall|l: int| is_latest(u, l) implies (#[trigger] u[l]).run_id@ == m.run_id@ by {
        law_latest_is_unique(u, k, l);
    }
}

/// Why a run cannot be inspected, diffed or applied.
#[derive(Debug, Clone, PartialEq, Eq)]
pub enum RunStateError {
    NoRuns { runs_dir: String },
    IterationOutOfRange { iteration: usize, iterations: usize },
    CandidateMissing { candidate_path: String },
    SourceChanged { source_path: String },
}

/// The text that reports a run state error.
pub open spec fn run_error_text(e: RunStateError) -> Seq<char> {
    match e {
        RunStateError::NoRuns { runs_dir } => "no runs found in "@ + runs_dir@,
        RunStateError::IterationOutOfRange { iteration, iterations } => "iteration "@ + decimal(
            iteration as nat,
        ) + " is outside run range 1..="@ + decimal(iterations as nat),
        RunStateError::CandidateMissing { candidate_path } => "candidate artifact missing: "@
            + candidate_path@,
        RunStateError::SourceChanged { source_path } =>
            "source artifact changed since run started; use --force to apply anyway: "@
            + source_path@,
    }
}

impl RunStateError {
    /// The message that reports this error.
    pub fn message(&self) -> (m: String)
        ensures
            m@ == run_error_text(*self),
    {
        let mut m = String::new();
        match self {
            RunStateError::NoRuns { runs_dir } => {
                m.append("no runs found in ");
                m.append(runs_dir.as_str());
            },
            RunStateError::IterationOutOfRange { iteration, iterations } => {
                m.append("iteration ");
                push_decimal(&mut m, *iteration as u64);
                m.append(" is outside run range 1..=");
                push_decimal(&mut m, *iterations as u64);
            },
            RunStateError::CandidateMissing { candidate_path } => {
                m.append("candidate artifact missing: ");
                m.append(candidate_path.as_str());
            },
            RunStateError::SourceChanged { source_path } => {
                m.append("source artifact changed since run started; use --force to apply anyway: ");
                m.append(source_path.as_str());
            },
        }
        m
    }
}

/// The id of the latest run: the entry ordered last by start time, then run id.
pub fn latest_run_id(index: &RunIndex, runs_dir: &str) -> (r: Result<String, RunStateError>)
    ensures
        index.runs@.len() == 0 ==> (r matches Err(RunStateError::NoRuns { runs_dir: d })
            && d@ == runs_dir@),
        index.runs@.len() > 0 ==> (r matches Ok(id) && exists|k: int|
            is_latest(index.runs@, k) && id == #[trigger] index.runs@[k].run_id),
{
    if index.runs.len() == 0 {
        return Err(RunStateError::NoRuns { runs_dir: string_of(runs_dir) });
    }
    let mut best: usize = 0;
    let mut i: usize = 1;
    proof {
        lemma_entry_le_order(index.runs@[0], index.runs@[0], index.runs@[0]);
    }
    while i < index.runs.len()
        invariant
            0 < i <= index.runs.len(),
            best < i,
            forall|j: int| 0 <= j < i ==> entry_le(#[trigger] index.runs@[j], index.runs@[best as int]),
        decreases index.runs.len() - i,
    {
        if entry_le_exec(&index.runs[best], &index.runs[i]) {
            proof {
                assert forall|j: int| 0 <= j < i implies entry_le(
                    #[trigger] index.runs@[j],
                    index.runs@[i as int],
                ) by {
                    lemma_entry_le_order(index.runs@[j], index.runs@[best as int], index.runs@[i as int]);
                }
                lemma_entry_le_order(index.runs@[i as int], index.runs@[i as int], index.runs@[i as int]);
            }
            best = i;
        } else {
            proof {
                lemma_entry_le_order(index.runs@[i as int], index.runs@[best as int], index.runs@[i as int]);
            }
        }
        i = i + 1;
    }
    Ok(index.runs[best].run_id.clone())
}

/// Law: the latest run is ordered no earlier than any run of the index, so every
/// latest entry has the same start time and the same run id.
pub proof fn law_latest_is_unique(s: Seq<RunIndexEntry>, k: int, l: int)
    requires
        is_latest(s, k),
        is_latest(s, l),
    ensures
        s[k].run_id@ == s[l].run_id@,
        s[k].started_at_unix == s[l].started_at_unix,
{
    lemma_entry_le_order(s[k], s[l], s[k]);
}

/// The iteration that `requested` names, the last one when it names none.
pub open spec fn resolved_iteration(iterations: usize, requested: Option<usize>) -> usize {
    match requested {
        Some(i) => i,
        None => iterations,
    }
}

/// The iteration to diff or apply: the requested one or the last one, which must
/// lie in `1..=iterations`.
pub fn resolve_iteration(iterations: usize, requested: Option<usize>) -> (r: Result<
    usize,
    RunStateError,
>)
    ensures
        ({
            let i = resolved_iteration(iterations, requested);
            if 1 <= i <= iterations {
                r == Ok::<usize, RunStateError>(i)
            } else {
                r matches Err(RunStateError::IterationOutOfRange { iteration, iterations: n })
                    && iteration == i && n == iterations
            }
        }),
{
    let iteration = match requested {
        Some(i) => i,
        None => iterations,
    };
    if iteration == 0 || iteration > iterations {
        return Err(RunStateError::IterationOutOfRange { iteration, iterations });
    }
    Ok(iteration)
}

/// What `diff` reports: the run, the iteration, the two files compared, whether
/// they differ, and the rendered diff.
#[derive(Debug, Clone, PartialEq, Eq)]
pub struct DiffResult {
    pub run_id: String,
    pub iteration: usize,
    pub artifact: String,
    pub source_path: String,
    pub candidate_path: String,
    pub changed: bool,
    pub diff: String,
}

/// Each line prefixed by `mark` and ended by a newline.
pub open spec fn marked_lines(mark: char, ls: Seq<Seq<char>>) -> Seq<char>
    decreases ls.len(),
{
    if ls.len() == 0 {
        seq![]
    } else {
        marked_lines(mark, ls.drop_last()) + seq![mark] + ls.last() + seq!['\n']
    }
}

/// The text diff: a header naming both files, then `(no changes)` when they are
/// equal, else every source line marked `-` followed by every candidate line
/// marked `+`.
pub open spec fn diff_text(
    source_path: Seq<char>,
    candidate_path: Seq<char>,
    source: Seq<char>,
    candidate: Seq<char>,
) -> Seq<char> {
    let header = "--- "@ + source_path + "\n+++ "@ + candidate_path + "\n"@;
    if source == candidate {
        header + "(no changes)\n"@
    } else {
        header + marked_lines('-', lines(source)) + marked_lines('+', lines(candidate))
    }
}

fn push_marked_lines(out: &mut String, mark: char, text: &str)
    ensures
        final(out)@ == old(out)@ + marked_lines(mark, lines(text@)),
{
    let cs = chars_of(text);
    let ranges = line_ranges(&cs);
    let ghost ls = lines(text@);
    let mut k: usize = 0;
    while k < ranges.len()
        invariant
            cs@ == text@,
            ls == lines(cs@),
            ranges@.len() == ls.len(),
            forall|j: int|
                0 <= j < ranges@.len() ==> {
                    let (a, b) = #[trigger] ranges@[j];
                    &&& a <= b <= cs@.len()
                    &&& cs@.subrange(a as int, b as int) == ls[j]
                },
            k <= ranges.len(),
            out@ == old(out)@ + marked_lines(mark, ls.take(k as int)),
        decreases ranges.len() - k,
    {
        let (a, b) = ranges[k];
        assert(ls.take(k + 1).drop_last() =~= ls.take(k as int));
        push_char(out, mark);
        push_chars(out, &cs, a, b);
        push_char(out, '\n');
        assert(out@ =~= old(out)@ + marked_lines(mark, ls.take(k + 1)));
        k = k + 1;
    }
    assert(ls.take(ranges.len() as int) =~= ls);
}

/// The text diff between the source artifact and a candidate.
pub fn render_text_diff(source_path: &str, candidate_path: &str, source: &str, candidate: &str) -> (d:
    String)
    ensures
        d@ == diff_text(source_path@, candidate_path@, source@, candidate@),
{
    let mut d = string_of("--- ");
    d.append(source_path);
    d.append("\n+++ ");
    d.append(candidate_path);
    d.append("\n");
    if str_eq(source, candidate) {
        d.append("(no changes)\n");
        return d;
    }
    push_marked_lines(&mut d, '-', source);
    push_marked_lines(&mut d, '+', candidate);
    assert(d@ =~= diff_text(source_path@, candidate_path@, source@, candidate@));
    d
}

/// The diff of a run's candidate against the source artifact.
pub fn diff_result(
    run_id: String,
    iteration: usize,
    artifact: String,
    source_path: String,
    candidate_path: String,
    source: &str,
    candidate: &str,
) -> (r: DiffResult)
    ensures
        r.run_id == run_id,
        r.iteration == iteration,
        r.artifact == artifact,
        r.source_path == source_path,
        r.candidate_path == candidate_path,
        r.changed == (source@ != candidate@),
        r.diff@ == diff_text(source_path@, candidate_path@, source@, candidate@),
{
    let changed = !str_eq(source, candidate);
    let diff = render_text_diff(source_path.as_str(), candidate_path.as_str(), source, candidate);
    DiffResult { run_id, iteration, artifact, source_path, candidate_path, changed, diff }
}

/// What `apply` reports.
#[derive(Debug, Clone, PartialEq, Eq)]
pub struct ApplyOutcome {
    pub run_id: String,
    pub iteration: usize,
    pub artifact: String,
    pub source_path: String,
    pub candidate_path: String,
    pub applied: bool,
    pub dry_run: bool,
    pub verification: Option<VerifyResult>,
}

/// The candidate of the chosen iteration must exist.
pub fn check_candidate(candidate_exists: bool, candidate_path: &str) -> (r: Result<(), RunStateError>)
    ensures
        candidate_exists ==> r is Ok,
        !candidate_exists ==> (r matches Err(RunStateError::CandidateMissing { candidate_path: p })
            && p@ == candidate_path@),
{
    if candidate_exists {
        Ok(())
    } else {
        Err(RunStateError::CandidateMissing { candidate_path: string_of(candidate_path) })
    }
}

/// The source artifact must still hash as it did when the run started, unless
/// the apply is forced.
pub fn check_source_unchanged(
    current_hash: &str,
    recorded_hash: &str,
    force: bool,
    source_path: &str,
) -> (r: Result<(), RunStateError>)
    ensures
        (current_hash@ == recorded_hash@ || force) ==> r is Ok,
        !(current_hash@ == recorded_hash@ || force) ==> (r matches Err(
            RunStateError::SourceChanged { source_path: p },
        ) && p@ == source_path@),
{
    if !str_eq(current_hash, recorded_hash) && !force {
        return Err(RunStateError::SourceChanged { source_path: string_of(source_path) });
    }
    Ok(())
}

/// The steps of an apply, in order: the `pre_apply` hook (required to pass),
/// copying the candidate over the source, the run's verify command, and the
/// `post_apply` hook (required to pass). A dry run takes none of them.
#[derive(Debug, Clone, PartialEq, Eq)]
pub struct ApplyPlan {
    pub pre_apply: Option<String>,
    pub copy_candidate: bool,
    pub verify: Option<String>,
    pub post_apply: Option<String>,
}

/// The steps of applying a run whose manifest is `manifest`.
pub fn plan_apply(manifest: &RunManifest, dry_run: bool, verify_after: bool) -> (p: ApplyPlan)
    ensures
        p.copy_candidate == !dry_run,
        dry_run ==> p.pre_apply is None && p.verify is None && p.post_apply is None,
        !dry_run ==> p.pre_apply == manifest.hooks.pre_apply && p.post_apply
            == manifest.hooks.post_apply,
        !dry_run && verify_after ==> p.verify == Some(manifest.verify),
        !verify_after ==> p.verify is None,
{
    if dry_run {
        return ApplyPlan { pre_apply: None, copy_candidate: false, verify: None, post_apply: None };
    }
    ApplyPlan {
        pre_apply: copy_opt(&manifest.hooks.pre_apply),
        copy_candidate: true,
        verify: if verify_after {
            Some(manifest.verify.clone())
        } else {
            None
        },
        post_apply: copy_opt(&manifest.hooks.post_apply),
    }
}

/// The report of an apply; the source was written exactly when it was no dry run.
pub fn apply_outcome(
    run_id: String,
    iteration: usize,
    artifact: String,
    source_path: String,
    candidate_path: String,
    dry_run: bool,
    verification: Option<VerifyResult>,
) -> (o: ApplyOutcome)
    ensures
        o.run_id == run_id,
        o.iteration == iteration,
        o.artifact == artifact,
        o.source_path == source_path,
        o.candidate_path == candidate_path,
        o.applied == !dry_run,
        o.dry_run == dry_run,
        o.verification == verification,
{
    ApplyOutcome {
        run_id,
        iteration,
        artifact,
        source_path,
        candidate_path,
        applied: !dry_run,
        dry_run,
        verification,
    }
}

/// A status as `{:?}` formats it.
pub open spec fn status_text(s: RunStatus) -> Seq<char> {
    match s {
        RunStatus::Running => "Running"@,
        RunStatus::Passed => "Passed"@,
        RunStatus::Failed => "Failed"@,
    }
}

/// Appends a status as `{:?}` formats it.
pub fn push_status(out: &mut String, s: RunStatus)
    ensures
        final(out)@ == old(out)@ + status_text(s),
{
    match s {
        RunStatus::Running => out.append("Running"),
        RunStatus::Passed => out.append("Passed"),
        RunStatus::Failed => out.append("Failed"),
    }
}

/// Whether the last recorded iteration passed validation (false with no record).
pub open spec fn final_passed(outcomes: Seq<IterationOutcome>) -> bool {
    outcomes.len() > 0 && outcomes.last().validation.passed
}

/// The summary line of one iteration, with its first remaining delta when that
/// is not blank.
pub open spec fn iteration_summary(o: IterationOutcome) -> Seq<char> {
    let line = "- Iteration "@ + decimal(o.iteration as nat) + ": passed="@ + bool_text(
        o.validation.passed,
    ) + ", returncode="@ + signed_decimal(o.validation.returncode as int) + "\n"@;
    if o.remaining_delta@.len() > 0 && trim(o.remaining_delta@[0]@).len() > 0 {
        line + "  - Remaining delta: `"@ + trim(o.remaining_delta@[0]@) + "`\n"@
    } else {
        line
    }
}

/// The summary lines of the iterations, in order.
pub open spec fn iterations_summary(outcomes: Seq<IterationOutcome>) -> Seq<char>
    decreases outcomes.len(),
{
    if outcomes.len() == 0 {
        seq![]
    } else {
        iterations_summary(outcomes.drop_last()) + iteration_summary(outcomes.last())
    }
}

/// The head of `summary.md`: the run, its status, artifact, goal, iterations,
/// whether the final validation passed, and the final artifact and record.
pub open spec fn summary_head(m: RunManifest, passed: bool) -> Seq<char> {
    "# Loopsmith Run "@ + m.run_id@ + "\n\n- Status: "@ + status_text(m.status)
        + "\n- Artifact: `"@ + m.artifact@ + "`\n- Goal: "@ + m.goal@ + "\n- Iterations: "@
        + decimal(m.iterations as nat) + "\n- Final validation passed: "@ + bool_text(passed)
        + "\n"@ + optional_line("- Final artifact: `"@, m.final_artifact_path) + optional_line(
        "- Final record: `"@,
        m.final_record_path,
    )
}

/// The line `<label><path>` and a closing backquote, when there is a path.
pub open spec fn optional_line(label: Seq<char>, path: Option<String>) -> Seq<char> {
    match path {
        Some(p) => label + p@ + "`\n"@,
        None => seq![],
    }
}

/// The `summary.md` of a run.
pub open spec fn summary_text(m: RunManifest, outcomes: Seq<IterationOutcome>) -> Seq<char> {
    summary_head(m, final_passed(outcomes)) + "\n## Iterations\n\n"@ + iterations_summary(outcomes)
}

/// Law: the summary's `Final validation passed:` line says `true` exactly when
/// the last iteration record passed validation, and `false` when it failed or
/// there is no record.
pub proof fn law_summary_final_validation(m: RunManifest, outcomes: Seq<IterationOutcome>)
    ensures
        ({
            let t = summary_text(m, outcomes);
            let pre = "# Loopsmith Run "@ + m.run_id@ + "\n\n- Status: "@ + status_text(m.status)
                + "\n- Artifact: `"@ + m.artifact@ + "`\n- Goal: "@ + m.goal@
                + "\n- Iterations: "@ + decimal(m.iterations as nat)
                + "\n- Final validation passed: "@;
            let flag = if outcomes.len() > 0 && outcomes[outcomes.len() - 1].validation.passed {
                "true\n"@
            } else {
                "false\n"@
            };
            &&& t.take(pre.len() as int) == pre
            &&& t.subrange(pre.len() as int, (pre.len() + flag.len()) as int) == flag
        }),
{
    reveal_strlit("true\n");
    reveal_strlit("false\n");
    let t = summary_text(m, outcomes);
    let pre = "# Loopsmith Run "@ + m.run_id@ + "\n\n- Status: "@ + status_text(m.status)
        + "\n- Artifact: `"@ + m.artifact@ + "`\n- Goal: "@ + m.goal@ + "\n- Iterations: "@
        + decimal(m.iterations as nat) + "\n- Final validation passed: "@;
    let passed = outcomes.len() > 0 && outcomes[outcomes.len() - 1].validation.passed;
    let flag = if passed {
        "true\n"@
    } else {
        "false\n"@
    };
    reveal_strlit("\n");
    assert(bool_text(passed) + "\n"@ =~= flag);
    let rest = optional_line("- Final artifact: `"@, m.final_artifact_path) + optional_line(
        "- Final record: `"@,
        m.final_record_path,
    ) + "\n## Iterations\n\n"@ + iterations_summary(outcomes);
    assert(t =~= pre + flag + rest);
    assert(t.take(pre.len() as int) =~= pre);
    assert(t.subrange(pre.len() as int, (pre.len() + flag.len()) as int) =~= flag);
}

/// Law: the iteration lines of two runs of records, one after the other, are
/// the lines of the first followed by those of the second: each record gives
/// its own lines, in record order.
pub proof fn law_iterations_summary_concat(a: Seq<IterationOutcome>, b: Seq<IterationOutcome>)
    ensures
        iterations_summary(a + b) == iterations_summary(a) + iterations_summary(b),
    decreases b.len(),
{
    if b.len() == 0 {
        assert(a + b =~= a);
    } else {
        assert((a + b).drop_last() =~= a + b.drop_last());
        law_iterations_summary_concat(a, b.drop_last());
        assert(iterations_summary(a + b) =~= iterations_summary(a) + iterations_summary(b));
    }
}

fn push_optional_line(out: &mut String, label: &str, path: &Option<String>)
    ensures
        final(out)@ == old(out)@ + optional_line(label@, *path),
{
    if let Some(p) = path {
        out.append(label);
        out.append(p.as_str());
        out.append("`\n");
    }
}

fn push_summary_head(s: &mut String, manifest: &RunManifest, passed: bool)
    ensures
        final(s)@ == old(s)@ + summary_head(*manifest, passed),
{
    s.append("# Loopsmith Run ");
    s.append(manifest.run_id.as_str());
    s.append("\n\n- Status: ");
    push_status(s, manifest.status);
    s.append("\n- Artifact: `");
    s.append(manifest.artifact.as_str());
    s.append("`\n- Goal: ");
    s.append(manifest.goal.as_str());
    s.append("\n- Iterations: ");
    push_decimal(s, manifest.iterations as u64);
    s.append("\n- Final validation passed: ");
    push_bool(s, passed);
    s.append("\n");
    push_optional_line(s, "- Final artifact: `", &manifest.final_artifact_path);
    push_optional_line(s, "- Final record: `", &manifest.final_record_path);
    assert(s@ =~= old(s)@ + summary_head(*manifest, passed));
}

fn push_iteration_summary(out: &mut String, o: &IterationOutcome)
    ensures
        final(out)@ == old(out)@ + iteration_summary(*o),
{
    out.append("- Iteration ");
    push_decimal(out, o.iteration as u64);
    out.append(": passed=");
    push_bool(out, o.validation.passed);
    out.append(", returncode=");
    push_signed_decimal(out, o.validation.returncode);
    out.append("\n");
    if o.remaining_delta.len() > 0 {
        let delta = trimmed(o.remaining_delta[0].as_str());
        if !delta.as_str().is_empty() {
            out.append("  - Remaining delta: `");
            out.append(delta.as_str());
            out.append("`\n");
        }
    }
}

/// The `summary.md` of a run, from its manifest and its iteration records.
pub fn render_summary(manifest: &RunManifest, outcomes: &Vec<IterationOutcome>) -> (s: String)
    ensures
        s@ == summary_text(*manifest, outcomes@),
{
    let passed = outcomes.len() > 0 && outcomes[outcomes.len() - 1].validation.passed;
    let mut s = String::new();
    push_summary_head(&mut s, manifest, passed);
    s.append("\n## Iterations\n\n");
    let ghost head = s@;
    let mut k: usize = 0;
    while k < outcomes.len()
        invariant
            k <= outcomes.len(),
            s@ == head + iterations_summary(outcomes@.take(k as int)),
        decreases outcomes.len() - k,
    {
        assert(outcomes@.take(k + 1).drop_last() =~= outcomes@.take(k as int));
        push_iteration_summary(&mut s, &outcomes[k]);
        assert(s@ =~= head + iterations_summary(outcomes@.take(k + 1)));
        k = k + 1;
    }
    assert(outcomes@.take(outcomes.len() as int) =~= outcomes@);
    assert(s@ =~= summary_text(*manifest, outcomes@));
    s
}

} // verus!
