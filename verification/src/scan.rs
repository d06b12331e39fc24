use crate::filter::{is_candidate, spec_is_candidate};
use crate::text::{lemma_lex_total, lemma_lex_trans, lex_le, str_le};
use crate::MAX_FILE_SIZE;
use vstd::prelude::*;

verus! {

/// One direct child of the scanned directory, as the surrounding shell
/// reports it: its absolute path, its file name, its byte size where the
/// metadata could be read, and whether it is a regular file.
pub struct FsEntry {
    pub path: String,
    pub name: String,
    pub size: Option<u64>,
    pub is_file: bool,
}

/// A file that passed the name filter and the size check and is eligible
/// for classification.
pub struct Candidate {
    pub path: String,
    pub name: String,
    pub size: u64,
}

/// Why a screenshot file was left out of a scan.
#[derive(PartialEq, Eq, Structural, Clone, Copy, Debug)]
pub enum SkipReason {
    ExceedsSizeLimit,
}

/// A screenshot file that was reported as skipped rather than dispatched.
pub struct SkipRecord {
    pub name: String,
    pub size: u64,
    pub reason: SkipReason,
}

/// One row of the read-only folder listing shown to the caller.
pub struct FileInfo {
    pub path: String,
    pub name: String,
    pub size: u64,
    pub is_valid: bool,
}

/// What one scan pass over a directory produced.
pub struct ScanResult {
    pub candidates: Vec<Candidate>,
    pub skipped: Vec<SkipRecord>,
}

impl SkipReason {
    /// The reason as the fixed human-readable string carried by skip events.
    pub fn message(&self) -> (r: String)
        ensures
            r@ == "exceeds 5MB limit"@,
    {
        "exceeds 5MB limit".to_owned()
    }
}

/// The entry is a regular file whose name passes the screenshot filter.
pub open spec fn entry_screenshot(e: FsEntry) -> bool {
    e.is_file && spec_is_candidate(e.name@)
}

/// The entry is a screenshot file with readable metadata within the size limit.
pub open spec fn entry_accepted(e: FsEntry) -> bool {
    &&& entry_screenshot(e)
    &&& e.size matches Some(s) && s <= MAX_FILE_SIZE
}

/// The entry is a screenshot file with readable metadata over the size limit.
pub open spec fn entry_oversize(e: FsEntry) -> bool {
    &&& entry_screenshot(e)
    &&& e.size matches Some(s) && s > MAX_FILE_SIZE
}

/// The candidate a scan derives from an accepted entry.
pub open spec fn candidate_of(e: FsEntry) -> Candidate {
    Candidate { path: e.path, name: e.name, size: e.size->0 }
}

/// The skip record a scan derives from an oversize entry.
pub open spec fn skip_of(e: FsEntry) -> SkipRecord {
    SkipRecord { name: e.name, size: e.size->0, reason: SkipReason::ExceedsSizeLimit }
}

/// The candidates of a scan, in directory order.
pub open spec fn spec_candidates(es: Seq<FsEntry>) -> Seq<Candidate>
    decreases es.len(),
{
    if es.len() == 0 {
        Seq::empty()
    } else {
        spec_candidates(es.drop_last()) + (if entry_accepted(es.last()) {
            seq![candidate_of(es.last())]
        } else {
            Seq::empty()
        })
    }
}

/// The skip records of a scan, in directory order.
pub open spec fn spec_skips(es: Seq<FsEntry>) -> Seq<SkipRecord>
    decreases es.len(),
{
    if es.len() == 0 {
        Seq::empty()
    } else {
        spec_skips(es.drop_last()) + (if entry_oversize(es.last()) {
            seq![skip_of(es.last())]
        } else {
            Seq::empty()
        })
    }
}

/// Partitions the direct children of a directory into classification
/// candidates and oversize skips. Entries that are not regular files, fail
/// the name filter, or have unreadable metadata are ignored.
pub fn scan(entries: &Vec<FsEntry>) -> (r: ScanResult)
    ensures
        r.candidates@ == spec_candidates(entries@),
        r.skipped@ == spec_skips(entries@),
{
    let mut cands: Vec<Candidate> = Vec::new();
    let mut skips: Vec<SkipRecord> = Vec::new();
    let n = entries.len();
    let mut i: usize = 0;
    proof {
        assert(entries@.take(0) =~= Seq::<FsEntry>::empty());
    }
    while i < n
        invariant
            n == entries@.len(),
            i <= n,
            cands@ == spec_candidates(entries@.take(i as int)),
            skips@ == spec_skips(entries@.take(i as int)),
        decreases n - i,
    {
        let e = &entries[i];
        if e.is_file && is_candidate(e.name.as_str()) {
            match e.size {
                Some(sz) => {
                    if sz > MAX_FILE_SIZE {
                        skips.push(
                            SkipRecord {
                                name: e.name.clone(),
                                size: sz,
                                reason: SkipReason::ExceedsSizeLimit,
                            },
                        );
                    } else {
                        cands.push(
                            Candidate { path: e.path.clone(), name: e.name.clone(), size: sz },
                        );
                    }
                },
                None => {},
            }
        }
        proof {
            assert(entries@.take(i + 1).drop_last() =~= entries@.take(i as int));
            assert(entries@.take(i + 1).last() == entries@[i as int]);
            assert(cands@ =~= spec_candidates(entries@.take(i + 1)));
            assert(skips@ =~= spec_skips(entries@.take(i + 1)));
        }
        i += 1;
    }
    proof {
        assert(entries@.take(n as int) =~= entries@);
    }
    ScanResult { candidates: cands, skipped: skips }
}

/// Every candidate of a scan passed the name filter and is within the
/// size limit — so a proposal is only ever emitted for such a file; every
/// skip record is over the limit and carries the fixed reason; and every
/// oversize screenshot entry appears among the skips, never among the
/// candidates.
pub proof fn lemma_size_partition(es: Seq<FsEntry>)
    ensures
        forall|i: int|
            0 <= i < spec_candidates(es).len() ==> #[trigger] spec_candidates(es)[i].size
                <= MAX_FILE_SIZE && spec_is_candidate(spec_candidates(es)[i].name@),
        forall|i: int|
            0 <= i < spec_skips(es).len() ==> #[trigger] spec_skips(es)[i].size > MAX_FILE_SIZE
                && spec_skips(es)[i].reason == SkipReason::ExceedsSizeLimit,
        forall|i: int|
            0 <= i < es.len() && #[trigger] entry_oversize(es[i]) ==> spec_skips(es).contains(
                skip_of(es[i]),
            ),
    decreases es.len(),
{
    if es.len() > 0 {
        lemma_size_partition(es.drop_last());
        let prefix = es.drop_last();
        assert forall|i: int|
            0 <= i < spec_candidates(es).len() implies #[trigger] spec_candidates(es)[i].size
            <= MAX_FILE_SIZE && spec_is_candidate(spec_candidates(es)[i].name@) by {
            if i < spec_candidates(prefix).len() {
                assert(spec_candidates(es)[i] == spec_candidates(prefix)[i]);
            } else {
                assert(entry_accepted(es.last()));
                assert(spec_candidates(es)[i] == candidate_of(es.last()));
            }
        }
        assert forall|i: int|
            0 <= i < spec_skips(es).len() implies #[trigger] spec_skips(es)[i].size > MAX_FILE_SIZE
            && spec_skips(es)[i].reason == SkipReason::ExceedsSizeLimit by {
            if i < spec_skips(prefix).len() {
                assert(spec_skips(es)[i] == spec_skips(prefix)[i]);
            } else {
                assert(entry_oversize(es.last()));
                assert(spec_skips(es)[i] == skip_of(es.last()));
            }
        }
        assert forall|i: int|
            0 <= i < es.len() && #[trigger] entry_oversize(es[i]) implies spec_skips(es).contains(
            skip_of(es[i]),
        ) by {
            if i < prefix.len() {
                assert(prefix[i] == es[i]);
                let k = choose|k: int|
                    0 <= k < spec_skips(prefix).len() && spec_skips(prefix)[k] == skip_of(es[i]);
                assert(spec_skips(es)[k] == skip_of(es[i]));
            } else {
                assert(spec_skips(es).last() == skip_of(es[i]));
            }
        }
    }
}

/// The entry is a screenshot file whose metadata could not be read: the
/// scan's partition cannot place it, so it is ignored there and counted
/// separately.
pub open spec fn entry_unreadable(e: FsEntry) -> bool {
    entry_screenshot(e) && e.size is None
}

/// How many screenshot entries the scan had to ignore for unreadable
/// metadata.
pub open spec fn spec_unreadable_count(es: Seq<FsEntry>) -> int
    decreases es.len(),
{
    if es.len() == 0 {
        0
    } else {
        spec_unreadable_count(es.drop_last()) + (if entry_unreadable(es.last()) {
            1int
        } else {
            0int
        })
    }
}

/// Counts the screenshot entries a scan ignores for unreadable metadata,
/// so a run can report them rather than drop them silently.
pub fn count_unreadable(entries: &Vec<FsEntry>) -> (n: usize)
    ensures
        n == spec_unreadable_count(entries@),
{
    let mut n: usize = 0;
    let len = entries.len();
    let mut i: usize = 0;
    proof {
        assert(entries@.take(0) =~= Seq::<FsEntry>::empty());
    }
    while i < len
        invariant
            len == entries@.len(),
            i <= len,
            n <= i,
            n == spec_unreadable_count(entries@.take(i as int)),
        decreases len - i,
    {
        let e = &entries[i];
        if e.is_file && e.size.is_none() && is_candidate(e.name.as_str()) {
            n += 1;
        }
        proof {
            assert(entries@.take(i + 1).drop_last() =~= entries@.take(i as int));
            assert(entries@.take(i + 1).last() == entries@[i as int]);
        }
        i += 1;
    }
    proof {
        assert(entries@.take(len as int) =~= entries@);
    }
    n
}

/// The listing row derived from one screenshot entry: unreadable metadata
/// shows as size zero, and validity means the size is within the limit.
pub open spec fn file_info_of(e: FsEntry) -> FileInfo {
    FileInfo {
        path: e.path,
        name: e.name,
        size: if e.size is Some {
            e.size->0
        } else {
            0
        },
        is_valid: (if e.size is Some {
            e.size->0
        } else {
            0
        }) <= MAX_FILE_SIZE,
    }
}

/// The unsorted rows of the folder listing, in directory order.
pub open spec fn spec_file_infos(es: Seq<FsEntry>) -> Seq<FileInfo>
    decreases es.len(),
{
    if es.len() == 0 {
        Seq::empty()
    } else {
        spec_file_infos(es.drop_last()) + (if entry_screenshot(es.last()) {
            seq![file_info_of(es.last())]
        } else {
            Seq::empty()
        })
    }
}

/// Insertion of one row into a name-sorted sequence, keeping earlier rows
/// of equal name first.
pub open spec fn insert_by_name(s: Seq<FileInfo>, x: FileInfo) -> Seq<FileInfo>
    decreases s.len(),
{
    if s.len() == 0 {
        seq![x]
    } else if lex_le(s[0].name@, x.name@) {
        seq![s[0]] + insert_by_name(s.skip(1), x)
    } else {
        seq![x] + s
    }
}

/// The rows sorted by file name: the fixed order in which a listing is
/// returned to the caller.
pub open spec fn sort_by_name(s: Seq<FileInfo>) -> Seq<FileInfo>
    decreases s.len(),
{
    if s.len() == 0 {
        Seq::empty()
    } else {
        insert_by_name(sort_by_name(s.drop_last()), s.last())
    }
}

/// The rows stand in nondecreasing name order.
pub open spec fn sorted_by_name(s: Seq<FileInfo>) -> bool {
    forall|i: int, j: int| 0 <= i < j < s.len() ==> lex_le(s[i].name@, s[j].name@)
}

proof fn lemma_insert_keeps_sorted(s: Seq<FileInfo>, x: FileInfo)
    requires
        sorted_by_name(s),
    ensures
        sorted_by_name(insert_by_name(s, x)),
        insert_by_name(s, x).len() == s.len() + 1,
        forall|i: int|
            0 <= i < insert_by_name(s, x).len() ==> (#[trigger] insert_by_name(s, x)[i] == x
                || s.contains(insert_by_name(s, x)[i])),
    decreases s.len(),
{
    let r = insert_by_name(s, x);
    if s.len() == 0 {
    } else if lex_le(s[0].name@, x.name@) {
        assert(sorted_by_name(s.skip(1)));
        lemma_insert_keeps_sorted(s.skip(1), x);
        let t = insert_by_name(s.skip(1), x);
        assert forall|i: int, j: int| 0 <= i < j < r.len() implies lex_le(
            r[i].name@,
            r[j].name@,
        ) by {
            if i == 0 {
                assert(r[j] == t[j - 1]);
                if t[j - 1] == x {
                } else {
                    let k = choose|k: int| 0 <= k < s.skip(1).len() && s.skip(1)[k] == t[j - 1];
                    assert(s[k + 1] == t[j - 1]);
                }
            } else {
                assert(r[i] == t[i - 1] && r[j] == t[j - 1]);
            }
        }
        assert forall|i: int| 0 <= i < r.len() implies (#[trigger] r[i] == x || s.contains(
            r[i],
        )) by {
            if i == 0 {
                assert(s.contains(s[0]));
            } else {
                assert(r[i] == t[i - 1]);
                if t[i - 1] != x {
                    let k = choose|k: int| 0 <= k < s.skip(1).len() && s.skip(1)[k] == t[i - 1];
                    assert(s[k + 1] == t[i - 1]);
                    assert(s.contains(s[k + 1]));
                }
            }
        }
    } else {
        lemma_lex_total(s[0].name@, x.name@);
        assert forall|i: int, j: int| 0 <= i < j < r.len() implies lex_le(
            r[i].name@,
            r[j].name@,
        ) by {
            if i == 0 {
                assert(r[j] == s[j - 1]);
                if j == 1 {
                } else {
                    lemma_lex_trans(x.name@, s[0].name@, s[j - 1].name@);
                }
            } else {
                assert(r[i] == s[i - 1] && r[j] == s[j - 1]);
            }
        }
        assert forall|i: int| 0 <= i < r.len() implies (#[trigger] r[i] == x || s.contains(
            r[i],
        )) by {
            if i > 0 {
                assert(r[i] == s[i - 1]);
                assert(s.contains(s[i - 1]));
            }
        }
    }
}

proof fn lemma_sort_sorted(s: Seq<FileInfo>)
    ensures
        sorted_by_name(sort_by_name(s)),
        sort_by_name(s).len() == s.len(),
    decreases s.len(),
{
    if s.len() > 0 {
        lemma_sort_sorted(s.drop_last());
        lemma_insert_keeps_sorted(sort_by_name(s.drop_last()), s.last());
    }
}

proof fn lemma_insert_at(s: Seq<FileInfo>, x: FileInfo, j: int)
    requires
        0 <= j <= s.len(),
        forall|k: int| 0 <= k < j ==> lex_le(#[trigger] s[k].name@, x.name@),
        forall|k: int| j <= k < s.len() ==> !lex_le(#[trigger] s[k].name@, x.name@),
    ensures
        insert_by_name(s, x) == s.take(j) + seq![x] + s.skip(j),
    decreases j,
{
    if j == 0 {
        if s.len() == 0 {
            assert(insert_by_name(s, x) =~= s.take(0) + seq![x] + s.skip(0));
        } else {
            assert(!lex_le(s[0].name@, x.name@));
            assert(insert_by_name(s, x) =~= s.take(0) + seq![x] + s.skip(0));
        }
    } else {
        assert(lex_le(s[0].name@, x.name@));
        assert forall|k: int| 0 <= k < j - 1 implies lex_le(
            #[trigger] s.skip(1)[k].name@,
            x.name@,
        ) by {
            assert(s.skip(1)[k] == s[k + 1]);
        }
        assert forall|k: int| j - 1 <= k < s.skip(1).len() implies !lex_le(
            #[trigger] s.skip(1)[k].name@,
            x.name@,
        ) by {
            assert(s.skip(1)[k] == s[k + 1]);
        }
        lemma_insert_at(s.skip(1), x, j - 1);
        assert(seq![s[0]] + (s.skip(1).take(j - 1) + seq![x] + s.skip(1).skip(j - 1)) =~= s.take(j)
            + seq![x] + s.skip(j));
    }
}

/// Sorts listing rows by file name, preserving directory order among
/// duplicate names.
fn sort_rows(files: Vec<FileInfo>) -> (r: Vec<FileInfo>)
    ensures
        r@ == sort_by_name(files@),
{
    let ghost all = files@;
    let mut rest = files;
    let mut out: Vec<FileInfo> = Vec::new();
    proof {
        assert(all.take(0) =~= Seq::<FileInfo>::empty());
        assert(all.skip(0) =~= all);
    }
    while rest.len() > 0
        invariant
            rest@.len() <= all.len(),
            out@ == sort_by_name(all.take(all.len() - rest@.len())),
            rest@ == all.skip(all.len() - rest@.len()),
        decreases rest@.len(),
    {
        let ghost c = all.len() - rest@.len();
        let x = rest.remove(0);
        proof {
            assert(all.skip(c).remove(0) =~= all.skip(c + 1));
            assert(x == all[c]);
            lemma_sort_sorted(all.take(c));
        }
        let mut j = out.len();
        while j > 0 && !str_le(out[j - 1].name.as_str(), x.name.as_str())
            invariant
                j <= out@.len(),
                sorted_by_name(out@),
                forall|k: int| j <= k < out@.len() ==> !lex_le(#[trigger] out@[k].name@, x.name@),
            decreases j,
        {
            j -= 1;
        }
        proof {
            assert forall|k: int| 0 <= k < j implies lex_le(#[trigger] out@[k].name@, x.name@) by {
                if k == j - 1 {
                } else {
                    lemma_lex_trans(out@[k].name@, out@[j - 1].name@, x.name@);
                }
            }
            lemma_insert_at(out@, x, j as int);
        }
        let ghost pre = out@;
        out.insert(j, x);
        proof {
            assert(pre.insert(j as int, x) =~= pre.take(j as int) + seq![x] + pre.skip(j as int));
            assert(all.take(c + 1).drop_last() =~= all.take(c));
            assert(all.take(c + 1).last() == all[c]);
            assert(out@ == sort_by_name(all.take(c + 1)));
        }
    }
    proof {
        assert(all.take(all.len() as int) =~= all);
    }
    out
}

/// The folder listing: the screenshot rows of the directory, sorted by
/// file name.
pub open spec fn spec_listing(es: Seq<FsEntry>) -> Seq<FileInfo> {
    sort_by_name(spec_file_infos(es))
}

/// Produces the read-only folder listing: one row per screenshot entry,
/// sorted by file name, each flagged valid iff its size is within the
/// limit. It dispatches nothing.
pub fn list_screenshots(entries: &Vec<FsEntry>) -> (r: Vec<FileInfo>)
    ensures
        r@ == spec_listing(entries@),
        sorted_by_name(r@),
{
    let mut rows: Vec<FileInfo> = Vec::new();
    let n = entries.len();
    let mut i: usize = 0;
    proof {
        assert(entries@.take(0) =~= Seq::<FsEntry>::empty());
    }
    while i < n
        invariant
            n == entries@.len(),
            i <= n,
            rows@ == spec_file_infos(entries@.take(i as int)),
        decreases n - i,
    {
        let e = &entries[i];
        if e.is_file && is_candidate(e.name.as_str()) {
            let size = match e.size {
                Some(sz) => sz,
                None => 0,
            };
            rows.push(
                FileInfo {
                    path: e.path.clone(),
                    name: e.name.clone(),
                    size,
                    is_valid: size <= MAX_FILE_SIZE,
                },
            );
        }
        proof {
            assert(entries@.take(i + 1).drop_last() =~= entries@.take(i as int));
            assert(entries@.take(i + 1).last() == entries@[i as int]);
            assert(rows@ =~= spec_file_infos(entries@.take(i + 1)));
        }
        i += 1;
    }
    proof {
        assert(entries@.take(n as int) =~= entries@);
        lemma_sort_sorted(rows@);
    }
    sort_rows(rows)
}

/// Listing an unchanged directory twice returns the same rows in the same
/// order: the listing is a function of the directory's entries alone.
pub proof fn lemma_listing_idempotent(a: Seq<FsEntry>, b: Seq<FsEntry>)
    requires
        a == b,
    ensures
        spec_listing(a) == spec_listing(b),
{
}

} // verus!
