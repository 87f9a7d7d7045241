//! Grouping mutants by source file and line, in the order of paths and line
//! numbers.
use vstd::prelude::*;

use crate::reporter::json::{reported_path, rewrite_of};
use crate::reporter::rewriter::PathRewriter;
use crate::reporter::{accumulate_outcomes, counts_of, MutationOutcome, OutcomeCounts, ReportableMutant};
use vstd::utf8::encode_utf8;

verus! {

/// The mutants of one line.
pub struct LineMutants {
    pub line: u64,
    /// Indices of the mutants, in increasing order.
    pub mutants: Vec<usize>,
}

/// The mutants of one source file, by line.
pub struct FileMutants {
    pub file: String,
    pub lines: Vec<LineMutants>,
}

/// Byte strings in lexicographic order.
pub open spec fn bytes_lt(a: Seq<u8>, b: Seq<u8>) -> bool
    decreases a.len(),
{
    if a.len() == 0 {
        b.len() > 0
    } else if b.len() == 0 {
        false
    } else if a[0] != b[0] {
        a[0] < b[0]
    } else {
        bytes_lt(a.drop_first(), b.drop_first())
    }
}

/// Paths in the order of their UTF-8 bytes, which is the order of `String`.
pub open spec fn path_lt(a: Seq<char>, b: Seq<char>) -> bool {
    bytes_lt(encode_utf8(a), encode_utf8(b))
}

/// Where a mutant is reported: its (rewritten) file and its line, if the
/// location knows both.
pub open spec fn report_key(m: ReportableMutant, rewrite: Option<(Seq<char>, Seq<char>)>) -> Option<(Seq<char>, u64)> {
    match (m.location.file, m.location.line) {
        (Some(f), Some(l)) => Some((reported_path(f@, rewrite), l)),
        _ => None,
    }
}

/// The indices among the first `upto` mutants that are reported at `key`,
/// in increasing order.
pub open spec fn indices_at(
    ms: Seq<ReportableMutant>,
    rewrite: Option<(Seq<char>, Seq<char>)>,
    key: (Seq<char>, u64),
    upto: int,
) -> Seq<usize>
    decreases upto,
{
    if upto <= 0 {
        Seq::empty()
    } else {
        let rest = indices_at(ms, rewrite, key, upto - 1);
        if report_key(ms[upto - 1], rewrite) == Some(key) {
            rest.push((upto - 1) as usize)
        } else {
            rest
        }
    }
}

/// The value of the first entry of `s` with key `k`.
pub open spec fn lookup_key<K, V>(s: Seq<(K, V)>, k: K) -> Option<V>
    decreases s.len(),
{
    if s.len() == 0 {
        None
    } else if s[0].0 == k {
        Some(s[0].1)
    } else {
        lookup_key(s.drop_first(), k)
    }
}

/// The abstract content of the groups of one file.
pub open spec fn lines_view(lines: Seq<LineMutants>) -> Seq<(u64, Seq<usize>)> {
    lines.map_values(|l: LineMutants| (l.line, l.mutants@))
}

/// The abstract content of a grouping.
pub open spec fn files_view(files: Seq<FileMutants>) -> Seq<(Seq<char>, Seq<(u64, Seq<usize>)>)> {
    files.map_values(|f: FileMutants| (f.file@, lines_view(f.lines@)))
}

/// The indices grouped under `key`: none where there is no group.
pub open spec fn grouped_at(files: Seq<(Seq<char>, Seq<(u64, Seq<usize>)>)>, key: (Seq<char>, u64)) -> Seq<usize> {
    match lookup_key(files, key.0) {
        Some(lines) => match lookup_key(lines, key.1) {
            Some(ms) => ms,
            None => Seq::empty(),
        },
        None => Seq::empty(),
    }
}

/// Lines in increasing order, each with some mutants.
pub open spec fn lines_well_formed(lines: Seq<(u64, Seq<usize>)>) -> bool {
    &&& forall|a: int, b: int| 0 <= a < b < lines.len() ==> lines[a].0 < lines[b].0
    &&& forall|a: int| 0 <= a < lines.len() ==> (#[trigger] lines[a]).1.len() > 0
}

/// Files in path order, each with well-formed lines and at least one.
pub open spec fn files_well_formed(files: Seq<(Seq<char>, Seq<(u64, Seq<usize>)>)>) -> bool {
    &&& forall|a: int, b: int| 0 <= a < b < files.len() ==> path_lt(files[a].0, files[b].0)
    &&& forall|a: int| 0 <= a < files.len() ==> lines_well_formed((#[trigger] files[a]).1) && files[a].1.len() > 0
}

/// `files` groups the first `upto` mutants: files in path order, lines in
/// increasing order, and under every (file, line) exactly the indices of the
/// mutants reported there, in increasing order.
pub open spec fn groups_mutants(
    files: Seq<(Seq<char>, Seq<(u64, Seq<usize>)>)>,
    ms: Seq<ReportableMutant>,
    rewrite: Option<(Seq<char>, Seq<char>)>,
    upto: int,
) -> bool {
    &&& files_well_formed(files)
    &&& forall|key: (Seq<char>, u64)| #[trigger] grouped_at(files, key) == indices_at(ms, rewrite, key, upto)
}

/// Keys that occur once at most.
pub open spec fn keys_distinct<K, V>(s: Seq<(K, V)>) -> bool {
    forall|a: int, b: int| 0 <= a < b < s.len() ==> s[a].0 != s[b].0
}

proof fn lemma_lookup_found<K, V>(s: Seq<(K, V)>, k: K, q: int)
    requires
        keys_distinct(s),
        0 <= q < s.len(),
        s[q].0 == k,
    ensures
        lookup_key(s, k) == Some(s[q].1),
    decreases s.len(),
{
    if q > 0 {
        assert(s[0].0 != s[q].0);
        let t = s.drop_first();
        assert(t[q - 1] == s[q]);
        assert forall|a: int, b: int| 0 <= a < b < t.len() implies t[a].0 != t[b].0 by {
            assert(t[a] == s[a + 1] && t[b] == s[b + 1]);
        }
        lemma_lookup_found(t, k, q - 1);
    }
}

proof fn lemma_lookup_absent<K, V>(s: Seq<(K, V)>, k: K)
    requires
        forall|a: int| 0 <= a < s.len() ==> (#[trigger] s[a]).0 != k,
    ensures
        lookup_key(s, k) is None,
    decreases s.len(),
{
    if s.len() > 0 {
        assert(s[0].0 != k);
        let t = s.drop_first();
        assert forall|a: int| 0 <= a < t.len() implies (#[trigger] t[a]).0 != k by {
            assert(t[a] == s[a + 1]);
        }
        lemma_lookup_absent(t, k);
    }
}

proof fn lemma_bytes_lt_irreflexive(a: Seq<u8>)
    ensures
        !bytes_lt(a, a),
    decreases a.len(),
{
    if a.len() > 0 {
        lemma_bytes_lt_irreflexive(a.drop_first());
    }
}

proof fn lemma_bytes_lt_transitive(a: Seq<u8>, b: Seq<u8>, c: Seq<u8>)
    requires
        bytes_lt(a, b),
        bytes_lt(b, c),
    ensures
        bytes_lt(a, c),
    decreases a.len(),
{
    if a.len() > 0 && b.len() > 0 && c.len() > 0 && a[0] == b[0] && b[0] == c[0] {
        lemma_bytes_lt_transitive(a.drop_first(), b.drop_first(), c.drop_first());
    }
}

proof fn lemma_bytes_lt_total(a: Seq<u8>, b: Seq<u8>)
    requires
        a != b,
    ensures
        bytes_lt(a, b) || bytes_lt(b, a),
    decreases a.len(),
{
    if a.len() > 0 && b.len() > 0 && a[0] == b[0] {
        if a.drop_first() == b.drop_first() {
            assert(a =~= seq![a[0]] + a.drop_first());
            assert(b =~= seq![b[0]] + b.drop_first());
        }
        lemma_bytes_lt_total(a.drop_first(), b.drop_first());
    } else if a.len() == 0 && b.len() == 0 {
        assert(a =~= b);
    }
}

/// Path order is a strict total order.
proof fn lemma_path_order(a: Seq<char>, b: Seq<char>, c: Seq<char>)
    ensures
        !path_lt(a, a),
        path_lt(a, b) && path_lt(b, c) ==> path_lt(a, c),
        a != b ==> path_lt(a, b) || path_lt(b, a),
        path_lt(a, b) ==> a != b,
{
    lemma_bytes_lt_irreflexive(encode_utf8(a));
    if path_lt(a, b) && path_lt(b, c) {
        lemma_bytes_lt_transitive(encode_utf8(a), encode_utf8(b), encode_utf8(c));
    }
    if a != b {
        vstd::utf8::encode_utf8_decode_utf8(a);
        vstd::utf8::encode_utf8_decode_utf8(b);
        lemma_bytes_lt_total(encode_utf8(a), encode_utf8(b));
    }
}

/// Compare two byte strings: less, equal or greater as -1, 0, 1.
fn compare_bytes(a: &Vec<u8>, b: &Vec<u8>) -> (r: i8)
    ensures
        r == -1 <==> bytes_lt(a@, b@),
        r == 0 <==> a@ == b@,
        r == 1 <==> bytes_lt(b@, a@),
        r == -1 || r == 0 || r == 1,
{
    let mut i: usize = 0;
    assert(a@.skip(0) =~= a@);
    assert(b@.skip(0) =~= b@);
    while i < a.len() && i < b.len()
        invariant
            i <= a@.len(),
            i <= b@.len(),
            a@.subrange(0, i as int) == b@.subrange(0, i as int),
            bytes_lt(a@, b@) == bytes_lt(a@.skip(i as int), b@.skip(i as int)),
            bytes_lt(b@, a@) == bytes_lt(b@.skip(i as int), a@.skip(i as int)),
        decreases a.len() - i,
    {
        if a[i] != b[i] {
            assert(a@.skip(i as int)[0] == a@[i as int]);
            assert(b@.skip(i as int)[0] == b@[i as int]);
            if a[i] < b[i] {
                return -1;
            } else {
                return 1;
            }
        }
        assert(a@.skip(i as int).drop_first() =~= a@.skip(i + 1));
        assert(b@.skip(i as int).drop_first() =~= b@.skip(i + 1));
        assert(a@.subrange(0, i + 1) =~= a@.subrange(0, i as int).push(a@[i as int]));
        assert(b@.subrange(0, i + 1) =~= b@.subrange(0, i as int).push(b@[i as int]));
        i = i + 1;
    }
    if a.len() == b.len() {
        assert(a@ =~= a@.subrange(0, i as int));
        assert(b@ =~= b@.subrange(0, i as int));
        proof {
            lemma_bytes_lt_irreflexive(a@);
        }
        0
    } else if i == a.len() {
        assert(a@.skip(i as int).len() == 0);
        assert(a@ != b@);
        -1
    } else {
        assert(b@.skip(i as int).len() == 0);
        assert(a@.len() != b@.len());
        1
    }
}

} // verus!

verus! {

/// Sorted keys are distinct.
proof fn lemma_sorted_lines_distinct(lines: Seq<(u64, Seq<usize>)>)
    requires
        lines_well_formed(lines),
    ensures
        keys_distinct(lines),
{
}

proof fn lemma_sorted_files_distinct(files: Seq<(Seq<char>, Seq<(u64, Seq<usize>)>)>)
    requires
        files_well_formed(files),
    ensures
        keys_distinct(files),
{
    assert forall|a: int, b: int| 0 <= a < b < files.len() implies files[a].0 != files[b].0 by {
        lemma_path_order(files[a].0, files[b].0, files[b].0);
    }
}

/// Add mutant `i` to the group of line `line`, creating the group where
/// there is none.
fn add_to_lines(lines: &mut Vec<LineMutants>, line: u64, i: usize)
    requires
        lines_well_formed(lines_view(old(lines)@)),
    ensures
        lines_well_formed(lines_view(final(lines)@)),
        lines_view(final(lines)@).len() > 0,
        forall|l: u64|
            #[trigger] lookup_key(lines_view(final(lines)@), l) == if l == line {
                Some(
                    match lookup_key(lines_view(old(lines)@), l) {
                        Some(ms) => ms,
                        None => Seq::empty(),
                    }.push(i),
                )
            } else {
                lookup_key(lines_view(old(lines)@), l)
            },
{
    let ghost old_v = lines_view(lines@);
    proof {
        lemma_sorted_lines_distinct(old_v);
    }
    let mut p: usize = 0;
    while p < lines.len() && lines[p].line < line
        invariant
            p <= lines@.len(),
            old_v == lines_view(lines@),
            forall|a: int| 0 <= a < p ==> (#[trigger] old_v[a]).0 < line,
        decreases lines.len() - p,
    {
        assert(old_v[p as int].0 == lines@[p as int].line);
        p = p + 1;
    }
    if p < lines.len() && lines[p].line == line {
        assert(old_v[p as int].0 == line);
        let mut entry = lines.remove(p);
        entry.mutants.push(i);
        lines.insert(p, entry);
        proof {
            let new_v = lines_view(lines@);
            assert(new_v =~= old_v.update(p as int, (line, old_v[p as int].1.push(i))));
            assert(lines_well_formed(new_v));
            lemma_sorted_lines_distinct(new_v);
            assert forall|l: u64|
                #[trigger] lookup_key(new_v, l) == if l == line {
                    Some(
                        match lookup_key(old_v, l) {
                            Some(ms) => ms,
                            None => Seq::empty(),
                        }.push(i),
                    )
                } else {
                    lookup_key(old_v, l)
                } by {
                if l == line {
                    lemma_lookup_found(new_v, l, p as int);
                    lemma_lookup_found(old_v, l, p as int);
                } else if exists|q: int| 0 <= q < old_v.len() && old_v[q].0 == l {
                    let q = choose|q: int| 0 <= q < old_v.len() && old_v[q].0 == l;
                    lemma_lookup_found(new_v, l, q);
                    lemma_lookup_found(old_v, l, q);
                } else {
                    lemma_lookup_absent(new_v, l);
                    lemma_lookup_absent(old_v, l);
                }
            }
        }
    } else {
        proof {
            if p < lines.len() {
                assert(old_v[p as int].0 > line);
            }
            assert forall|a: int| p <= a < old_v.len() implies (#[trigger] old_v[a]).0 > line by {
                if a > p {
                    assert(old_v[p as int].0 < old_v[a].0);
                }
            }
        }
        let mut fresh: Vec<usize> = Vec::new();
        fresh.push(i);
        assert(fresh@ =~= seq![i]);
        lines.insert(p, LineMutants { line, mutants: fresh });
        proof {
            let new_v = lines_view(lines@);
            assert(new_v =~= old_v.insert(p as int, (line, seq![i])));
            assert forall|a: int, b: int| 0 <= a < b < new_v.len() implies new_v[a].0 < new_v[b].0 by {
                if b < p {
                } else if b == p {
                } else if a < p {
                    assert(new_v[b] == old_v[b - 1]);
                } else if a == p {
                    assert(new_v[b] == old_v[b - 1]);
                } else {
                    assert(new_v[a] == old_v[a - 1] && new_v[b] == old_v[b - 1]);
                }
            }
            assert forall|a: int| 0 <= a < new_v.len() implies (#[trigger] new_v[a]).1.len() > 0 by {
                if a < p {
                    assert(new_v[a] == old_v[a]);
                } else if a > p {
                    assert(new_v[a] == old_v[a - 1]);
                }
            }
            lemma_sorted_lines_distinct(new_v);
            assert forall|l: u64|
                #[trigger] lookup_key(new_v, l) == if l == line {
                    Some(
                        match lookup_key(old_v, l) {
                            Some(ms) => ms,
                            None => Seq::empty(),
                        }.push(i),
                    )
                } else {
                    lookup_key(old_v, l)
                } by {
                if l == line {
                    lemma_lookup_found(new_v, l, p as int);
                    assert forall|a: int| 0 <= a < old_v.len() implies (#[trigger] old_v[a]).0 != l by {
                        if a >= p {
                            assert(old_v[a].0 > line);
                        }
                    }
                    lemma_lookup_absent(old_v, l);
                    assert(seq![i] =~= Seq::<usize>::empty().push(i));
                } else if exists|q: int| 0 <= q < old_v.len() && old_v[q].0 == l {
                    let q = choose|q: int| 0 <= q < old_v.len() && old_v[q].0 == l;
                    let q2 = if q < p {
                        q
                    } else {
                        q + 1
                    };
                    assert(new_v[q2] == old_v[q]);
                    lemma_lookup_found(new_v, l, q2);
                    lemma_lookup_found(old_v, l, q);
                } else {
                    assert forall|a: int| 0 <= a < new_v.len() implies (#[trigger] new_v[a]).0 != l by {
                        if a < p {
                            assert(new_v[a] == old_v[a]);
                        } else if a > p {
                            assert(new_v[a] == old_v[a - 1]);
                        }
                    }
                    lemma_lookup_absent(new_v, l);
                    lemma_lookup_absent(old_v, l);
                }
            }
        }
    }
}

/// The rewriting that an optional path rewriter applies.
pub open spec fn rewrite_by(path_rewriter: Option<&PathRewriter>) -> Option<(Seq<char>, Seq<char>)> {
    match path_rewriter {
        Some(p) => Some((p.spec_pattern(), p.spec_replacement())),
        None => None,
    }
}

/// The groups of one line that holds only mutant `i`.
proof fn lemma_single_line(v: Seq<(u64, Seq<usize>)>, line: u64, i: usize)
    requires
        v == seq![(line, seq![i])],
    ensures
        lines_well_formed(v),
        forall|l: u64|
            #[trigger] lookup_key(v, l) == if l == line {
                Some(Seq::<usize>::empty().push(i))
            } else {
                None::<Seq<usize>>
            },
{
    assert(seq![i] =~= Seq::<usize>::empty().push(i));
    assert forall|l: u64|
        #[trigger] lookup_key(v, l) == if l == line {
            Some(Seq::<usize>::empty().push(i))
        } else {
            None::<Seq<usize>>
        } by {
        if l == line {
            lemma_lookup_found(v, l, 0);
        } else {
            lemma_lookup_absent(v, l);
        }
    }
}

/// Add mutant `i` to the group of (`file`, `line`), creating the groups of
/// the file and of the line where there are none.
fn add_to_files(files: &mut Vec<FileMutants>, file: String, line: u64, i: usize)
    requires
        files_well_formed(files_view(old(files)@)),
    ensures
        files_well_formed(files_view(final(files)@)),
        forall|key: (Seq<char>, u64)|
            #[trigger] grouped_at(files_view(final(files)@), key) == if key == (file@, line) {
                grouped_at(files_view(old(files)@), key).push(i)
            } else {
                grouped_at(files_view(old(files)@), key)
            },
{
    let ghost old_v = files_view(files@);
    let ghost path = file@;
    proof {
        lemma_sorted_files_distinct(old_v);
    }
    let key_bytes = file.as_str().as_bytes_vec();
    let mut p: usize = 0;
    let mut c: i8 = 1;
    if files.len() > 0 {
        c = compare_bytes(&files[0].file.as_str().as_bytes_vec(), &key_bytes);
        proof {
            vstd::utf8::encode_utf8_decode_utf8(old_v[0].0);
            vstd::utf8::encode_utf8_decode_utf8(path);
        }
    }
    while p < files.len() && c == -1
        invariant
            p <= files@.len(),
            old_v == files_view(files@),
            key_bytes@ == encode_utf8(path),
            p < files@.len() ==> (c == -1 <==> path_lt(old_v[p as int].0, path)),
            p < files@.len() ==> (c == 0 <==> old_v[p as int].0 == path),
            p < files@.len() ==> (c == 1 <==> path_lt(path, old_v[p as int].0)),
            forall|a: int| 0 <= a < p ==> path_lt((#[trigger] old_v[a]).0, path),
        decreases files.len() - p,
    {
        p = p + 1;
        if p < files.len() {
            c = compare_bytes(&files[p].file.as_str().as_bytes_vec(), &key_bytes);
            proof {
                let other = old_v[p as int].0;
                vstd::utf8::encode_utf8_decode_utf8(other);
                vstd::utf8::encode_utf8_decode_utf8(path);
            }
        }
    }
    if p < files.len() && c == 0 {
        let mut entry = files.remove(p);
        let ghost old_lines = lines_view(entry.lines@);
        add_to_lines(&mut entry.lines, line, i);
        let ghost new_lines = lines_view(entry.lines@);
        files.insert(p, entry);
        proof {
            let new_v = files_view(files@);
            assert(new_v =~= old_v.update(p as int, (path, new_lines)));
            assert(old_v[p as int] == (path, old_lines));
            assert(files_well_formed(new_v));
            lemma_sorted_files_distinct(new_v);
            assert forall|key: (Seq<char>, u64)|
                #[trigger] grouped_at(new_v, key) == if key == (path, line) {
                    grouped_at(old_v, key).push(i)
                } else {
                    grouped_at(old_v, key)
                } by {
                if key.0 == path {
                    lemma_lookup_found(new_v, key.0, p as int);
                    lemma_lookup_found(old_v, key.0, p as int);
                    assert(lookup_key(new_lines, key.1) == lookup_key(new_lines, key.1));
                } else if exists|q: int| 0 <= q < old_v.len() && old_v[q].0 == key.0 {
                    let q = choose|q: int| 0 <= q < old_v.len() && old_v[q].0 == key.0;
                    lemma_lookup_found(new_v, key.0, q);
                    lemma_lookup_found(old_v, key.0, q);
                } else {
                    lemma_lookup_absent(new_v, key.0);
                    lemma_lookup_absent(old_v, key.0);
                }
            }
        }
    } else {
        proof {
            assert forall|a: int| p <= a < old_v.len() implies path_lt(path, (#[trigger] old_v[a]).0) by {
                lemma_path_order(path, old_v[p as int].0, old_v[a].0);
            }
        }
        let mut fresh: Vec<usize> = Vec::new();
        fresh.push(i);
        let mut lines: Vec<LineMutants> = Vec::new();
        lines.push(LineMutants { line, mutants: fresh });
        let ghost new_lines = lines_view(lines@);
        proof {
            assert(new_lines =~= seq![(line, seq![i])]);
            lemma_single_line(new_lines, line, i);
        }
        files.insert(p, FileMutants { file, lines });
        proof {
            let new_v = files_view(files@);
            assert(new_v =~= old_v.insert(p as int, (path, new_lines)));
            assert forall|a: int, b: int| 0 <= a < b < new_v.len() implies path_lt(new_v[a].0, new_v[b].0) by {
                if b < p {
                } else if b == p {
                } else if a < p {
                    assert(new_v[b] == old_v[b - 1]);
                    lemma_path_order(new_v[a].0, path, new_v[b].0);
                } else if a == p {
                    assert(new_v[b] == old_v[b - 1]);
                } else {
                    assert(new_v[a] == old_v[a - 1] && new_v[b] == old_v[b - 1]);
                }
            }
            assert forall|a: int| 0 <= a < new_v.len() implies lines_well_formed((#[trigger] new_v[a]).1) && new_v[a].1.len() > 0 by {
                if a < p {
                    assert(new_v[a] == old_v[a]);
                } else if a > p {
                    assert(new_v[a] == old_v[a - 1]);
                }
            }
            lemma_sorted_files_distinct(new_v);
            assert forall|key: (Seq<char>, u64)|
                #[trigger] grouped_at(new_v, key) == if key == (path, line) {
                    grouped_at(old_v, key).push(i)
                } else {
                    grouped_at(old_v, key)
                } by {
                if key.0 == path {
                    lemma_lookup_found(new_v, key.0, p as int);
                    assert forall|a: int| 0 <= a < old_v.len() implies (#[trigger] old_v[a]).0 != key.0 by {
                        if a >= p {
                            lemma_path_order(path, old_v[a].0, old_v[a].0);
                        } else {
                            lemma_path_order(old_v[a].0, path, path);
                        }
                    }
                    lemma_lookup_absent(old_v, key.0);
                    assert(lookup_key(new_lines, key.1) == lookup_key(new_lines, key.1));
                } else if exists|q: int| 0 <= q < old_v.len() && old_v[q].0 == key.0 {
                    let q = choose|q: int| 0 <= q < old_v.len() && old_v[q].0 == key.0;
                    let q2 = if q < p {
                        q
                    } else {
                        q + 1
                    };
                    assert(new_v[q2] == old_v[q]);
                    lemma_lookup_found(new_v, key.0, q2);
                    lemma_lookup_found(old_v, key.0, q);
                } else {
                    assert forall|a: int| 0 <= a < new_v.len() implies (#[trigger] new_v[a]).0 != key.0 by {
                        if a < p {
                            assert(new_v[a] == old_v[a]);
                        } else if a > p {
                            assert(new_v[a] == old_v[a - 1]);
                        }
                    }
                    lemma_lookup_absent(new_v, key.0);
                    lemma_lookup_absent(old_v, key.0);
                }
            }
        }
    }
}

/// Group the mutants that have a file and a line by file, after rewriting
/// the path, and within a file by line: files in path order, lines in
/// increasing order, and the mutants of each line by their index in
/// `executed_mutants`, in the order given. Mutants without a file or a line
/// are left out.
pub fn map_mutants_to_files(executed_mutants: &[ReportableMutant], path_rewriter: Option<&PathRewriter>) -> (r: Vec<FileMutants>)
    ensures
        groups_mutants(files_view(r@), executed_mutants@, rewrite_by(path_rewriter), executed_mutants@.len() as int),
{
    let ghost ms = executed_mutants@;
    let ghost rw = rewrite_by(path_rewriter);
    let mut files: Vec<FileMutants> = Vec::new();
    proof {
        assert(files_view(files@) =~= Seq::empty());
        assert forall|key: (Seq<char>, u64)| #[trigger] grouped_at(files_view(files@), key) == indices_at(ms, rw, key, 0) by {
        }
    }
    let mut i: usize = 0;
    while i < executed_mutants.len()
        invariant
            i <= ms.len(),
            ms == executed_mutants@,
            rw == rewrite_by(path_rewriter),
            groups_mutants(files_view(files@), ms, rw, i as int),
        decreases executed_mutants.len() - i,
    {
        let m = &executed_mutants[i];
        let ghost before = files_view(files@);
        match (&m.location.file, m.location.line) {
            (Some(f), Some(l)) => {
                let path = match path_rewriter {
                    Some(pr) => pr.rewrite(f.as_str()),
                    None => f.clone(),
                };
                assert(report_key(ms[i as int], rw) == Some((path@, l)));
                add_to_files(&mut files, path, l, i);
                proof {
                    assert forall|key: (Seq<char>, u64)|
                        #[trigger] grouped_at(files_view(files@), key) == indices_at(ms, rw, key, i + 1) by {
                        assert(grouped_at(before, key) == indices_at(ms, rw, key, i as int));
                    }
                }
            },
            _ => {
                assert(report_key(ms[i as int], rw) is None);
                proof {
                    assert forall|key: (Seq<char>, u64)|
                        #[trigger] grouped_at(files_view(files@), key) == indices_at(ms, rw, key, i + 1) by {
                        assert(grouped_at(before, key) == indices_at(ms, rw, key, i as int));
                    }
                }
            },
        }
        i = i + 1;
    }
    files
}

/// The outcomes of the mutants with indices `ids`, in that order.
pub open spec fn line_outcomes(ids: Seq<usize>, ms: Seq<ReportableMutant>) -> Seq<MutationOutcome> {
    ids.map_values(|j: usize| ms[j as int].outcome)
}

/// The outcomes of the mutants of all lines, line after line.
pub open spec fn file_outcomes(lines: Seq<(u64, Seq<usize>)>, ms: Seq<ReportableMutant>) -> Seq<MutationOutcome>
    decreases lines.len(),
{
    if lines.len() == 0 {
        Seq::empty()
    } else {
        file_outcomes(lines.drop_last(), ms) + line_outcomes(lines.last().1, ms)
    }
}

/// Count the outcomes of the mutants of one file.
pub fn accumulate_outcomes_for_file(file: &FileMutants, executed_mutants: &[ReportableMutant]) -> (r: OutcomeCounts)
    requires
        forall|a: int, b: int|
            0 <= a < file.lines@.len() && 0 <= b < file.lines@[a].mutants@.len()
                ==> #[trigger] file.lines@[a].mutants@[b] < executed_mutants@.len(),
        file_outcomes(lines_view(file.lines@), executed_mutants@).len() <= i32::MAX,
    ensures
        r == counts_of(file_outcomes(lines_view(file.lines@), executed_mutants@)),
{
    let ghost lv = lines_view(file.lines@);
    let ghost ms = executed_mutants@;
    let mut outcomes: Vec<MutationOutcome> = Vec::new();
    let mut k: usize = 0;
    assert(lv.take(0) =~= Seq::<(u64, Seq<usize>)>::empty());
    while k < file.lines.len()
        invariant
            k <= file.lines@.len(),
            lv == lines_view(file.lines@),
            ms == executed_mutants@,
            outcomes@ == file_outcomes(lv.take(k as int), ms),
            forall|a: int, b: int|
                0 <= a < file.lines@.len() && 0 <= b < file.lines@[a].mutants@.len()
                    ==> #[trigger] file.lines@[a].mutants@[b] < executed_mutants@.len(),
        decreases file.lines.len() - k,
    {
        let ids = &file.lines[k].mutants;
        let ghost before = outcomes@;
        let mut j: usize = 0;
        while j < ids.len()
            invariant
                j <= ids@.len(),
                ids == file.lines@[k as int].mutants,
                k < file.lines@.len(),
                ms == executed_mutants@,
                outcomes@ == before + line_outcomes(ids@.take(j as int), ms),
                forall|b: int| 0 <= b < ids@.len() ==> #[trigger] ids@[b] < executed_mutants@.len(),
            decreases ids.len() - j,
        {
            let idx = ids[j];
            outcomes.push(executed_mutants[idx].outcome);
            assert(line_outcomes(ids@.take(j + 1), ms) =~= line_outcomes(ids@.take(j as int), ms).push(
                ms[idx as int].outcome,
            ));
            j = j + 1;
        }
        proof {
            assert(ids@.take(j as int) =~= ids@);
            let t = lv.take(k + 1);
            assert(t.drop_last() =~= lv.take(k as int));
            assert(t.last() == lv[k as int]);
        }
        k = k + 1;
    }
    assert(lv.take(k as int) =~= lv);
    accumulate_outcomes(outcomes.as_slice())
}

} // verus!
