//! Threshold filtering, report ordering, and report rendering.

use vstd::prelude::*;
use vstd::multiset::Multiset;
use vstd::seq_lib::group_to_multiset_ensures;
use vstd::string::StringExecFns;
use crate::count::count_parameters;
use crate::decl::Declaration;
use crate::decl::decl_arity;
use crate::decl::line_of_row;
use crate::extract::rust_decls_of;
use crate::extract::rust_extraction_ready;
use crate::record::FnInfo;
use crate::record::RecordModel;
use crate::record::dec_seq;
use crate::record::dec_str;
use crate::record::lemma_models_drop_last;
use crate::record::lemma_models_push;
use crate::record::models;
use crate::record::render_record;

verus! {

/// The record that one declaration yields, in the file at `path`.
pub open spec fn record_of(path: Seq<char>, d: Declaration) -> RecordModel {
    RecordModel { path: path, name: d.name@, arity: decl_arity(d), line: line_of_row(d.row as nat) }
}

/// The records that a file's declarations yield under threshold `t`: one
/// record per declaration whose arity strictly exceeds `t`, in declaration
/// order.
pub open spec fn records_of(path: Seq<char>, decls: Seq<Declaration>, t: nat) -> Seq<RecordModel>
    decreases decls.len(),
{
    if decls.len() == 0 {
        Seq::empty()
    } else {
        let rest = records_of(path, decls.drop_last(), t);
        if decl_arity(decls.last()) > t {
            rest.push(record_of(path, decls.last()))
        } else {
            rest
        }
    }
}

/// Collect the flagged records of one file's declarations.
pub fn records_for_file(rel_path: &String, decls: &Vec<Declaration>, min_args: usize) -> (r: Vec<
    FnInfo,
>)
    ensures
        models(r@) == records_of(rel_path@, decls@, min_args as nat),
{
    let mut out: Vec<FnInfo> = Vec::new();
    let mut i: usize = 0;
    proof {
        assert(models(out@) =~= Seq::<RecordModel>::empty());
        assert(decls@.take(0) =~= Seq::<Declaration>::empty());
    }
    while i < decls.len()
        invariant
            i <= decls@.len(),
            models(out@) == records_of(rel_path@, decls@.take(i as int), min_args as nat),
        decreases decls@.len() - i,
    {
        let d: &Declaration = &decls[i];
        let arity: usize = count_parameters(&d.param_kinds);
        if arity > min_args {
            let line: usize = if d.row < usize::MAX {
                d.row + 1
            } else {
                d.row
            };
            let rec = FnInfo {
                path: rel_path.clone(),
                name: d.name.clone(),
                arity: arity,
                line: line,
            };
            proof {
                assert(rec@ == record_of(rel_path@, decls@[i as int]));
                lemma_models_push(out@, rec);
            }
            out.push(rec);
        }
        proof {
            assert(decls@.take(i + 1).drop_last() =~= decls@.take(i as int));
            assert(decls@.take(i + 1).last() == decls@[i as int]);
        }
        i = i + 1;
    }
    proof {
        assert(decls@.take(decls@.len() as int) =~= decls@);
    }
    out
}

/// A report sequence ordered by arity, smallest first.
pub open spec fn sorted_by_arity(s: Seq<RecordModel>) -> bool {
    forall|i: int, j: int| 0 <= i <= j < s.len() ==> s[i].arity <= s[j].arity
}

/// Insert a record into a sequence, after every record of equal or smaller
/// arity.
pub open spec fn insert_by_arity(s: Seq<RecordModel>, x: RecordModel) -> Seq<RecordModel>
    decreases s.len(),
{
    if s.len() == 0 {
        seq![x]
    } else if x.arity < s.last().arity {
        insert_by_arity(s.drop_last(), x).push(s.last())
    } else {
        s.push(x)
    }
}

/// The report order: insertion sort by arity, keeping ties in their
/// arrival order.
pub open spec fn sort_by_arity(s: Seq<RecordModel>) -> Seq<RecordModel>
    decreases s.len(),
{
    if s.len() == 0 {
        Seq::empty()
    } else {
        insert_by_arity(sort_by_arity(s.drop_last()), s.last())
    }
}

proof fn lemma_insert_le_bound(s: Seq<RecordModel>, x: RecordModel, b: nat)
    requires
        x.arity <= b,
        forall|i: int| 0 <= i < s.len() ==> s[i].arity <= b,
    ensures
        forall|i: int|
            0 <= i < insert_by_arity(s, x).len() ==> insert_by_arity(s, x)[i].arity <= b,
    decreases s.len(),
{
    if s.len() == 0 {
    } else if x.arity < s.last().arity {
        assert(forall|i: int| 0 <= i < s.drop_last().len() ==> s.drop_last()[i].arity <= b);
        lemma_insert_le_bound(s.drop_last(), x, b);
        let w = insert_by_arity(s.drop_last(), x);
        let r = insert_by_arity(s, x);
        assert(s.last().arity <= b);
        assert forall|i: int| 0 <= i < r.len() implies r[i].arity <= b by {
            if i < r.len() - 1 {
                assert(r[i] == w[i]);
            } else {
                assert(r[i] == s.last());
            }
        }
    } else {
    }
}

/// Inserting into a sorted sequence keeps it sorted.
proof fn lemma_insert_sorted(s: Seq<RecordModel>, x: RecordModel)
    requires
        sorted_by_arity(s),
    ensures
        sorted_by_arity(insert_by_arity(s, x)),
    decreases s.len(),
{
    if s.len() == 0 {
    } else if x.arity < s.last().arity {
        assert(forall|i: int, j: int|
            0 <= i <= j < s.drop_last().len() ==> s.drop_last()[i].arity <= s.drop_last()[j].arity);
        lemma_insert_sorted(s.drop_last(), x);
        assert(forall|i: int| 0 <= i < s.drop_last().len() ==> s.drop_last()[i].arity
            <= s.last().arity);
        lemma_insert_le_bound(s.drop_last(), x, s.last().arity);
    } else {
        assert(forall|i: int| 0 <= i < s.len() ==> s[i].arity <= x.arity);
    }
}

/// Insertion adds exactly the one record.
proof fn lemma_insert_multiset(s: Seq<RecordModel>, x: RecordModel)
    ensures
        insert_by_arity(s, x).to_multiset() == s.to_multiset().insert(x),
    decreases s.len(),
{
    broadcast use group_to_multiset_ensures;

    if s.len() == 0 {
        assert(seq![x] =~= Seq::<RecordModel>::empty().push(x));
        assert(s.to_multiset() =~= Multiset::<RecordModel>::empty());
        assert(insert_by_arity(s, x).to_multiset() =~= s.to_multiset().insert(x));
    } else if x.arity < s.last().arity {
        lemma_insert_multiset(s.drop_last(), x);
        assert(s =~= s.drop_last().push(s.last()));
        assert(s.to_multiset() == s.drop_last().push(s.last()).to_multiset());
        assert(insert_by_arity(s, x).to_multiset() =~= s.to_multiset().insert(x));
    } else {
    }
}

/// Sorting keeps exactly the records that were collected: the report is a
/// reordering, nothing added and nothing dropped.
pub proof fn lemma_sort_same_records(s: Seq<RecordModel>)
    ensures
        sort_by_arity(s).to_multiset() == s.to_multiset(),
        forall|x: RecordModel| sort_by_arity(s).contains(x) <==> s.contains(x),
    decreases s.len(),
{
    broadcast use group_to_multiset_ensures;

    if s.len() == 0 {
    } else {
        lemma_sort_same_records(s.drop_last());
        lemma_insert_multiset(sort_by_arity(s.drop_last()), s.last());
        assert(s =~= s.drop_last().push(s.last()));
        assert(s.to_multiset() == s.drop_last().push(s.last()).to_multiset());
        assert forall|x: RecordModel| sort_by_arity(s).contains(x) <==> s.contains(x) by {
            assert(sort_by_arity(s).to_multiset().count(x) == s.to_multiset().count(x));
        }
    }
}

/// The report is ordered: records come out non-decreasing in arity.
pub proof fn lemma_sort_sorted(s: Seq<RecordModel>)
    ensures
        sorted_by_arity(sort_by_arity(s)),
    decreases s.len(),
{
    if s.len() == 0 {
    } else {
        lemma_sort_sorted(s.drop_last());
        lemma_insert_sorted(sort_by_arity(s.drop_last()), s.last());
    }
}

/// Insert a record into an already collected report, keeping it ordered.
fn insert_record(v: Vec<FnInfo>, x: FnInfo) -> (r: Vec<FnInfo>)
    ensures
        models(r@) == insert_by_arity(models(v@), x@),
    decreases v@.len(),
{
    let mut v = v;
    let ghost orig = v@;
    match v.pop() {
        None => {
            proof {
                assert(models(orig) =~= Seq::<RecordModel>::empty());
                lemma_models_push(v@, x);
                assert(models(orig).push(x@) =~= seq![x@]);
            }
            v.push(x);
            v
        },
        Some(last) => {
            proof {
                lemma_models_drop_last(orig);
            }
            if x.arity < last.arity {
                let mut r = insert_record(v, x);
                proof {
                    lemma_models_push(r@, last);
                }
                r.push(last);
                r
            } else {
                proof {
                    lemma_models_push(v@, last);
                    assert(models(orig.drop_last()).push(last@) =~= models(orig));
                }
                v.push(last);
                proof {
                    lemma_models_push(v@, x);
                }
                v.push(x);
                v
            }
        },
    }
}

/// Order the collected records by arity, smallest first.
pub fn sort_records(v: Vec<FnInfo>) -> (r: Vec<FnInfo>)
    ensures
        models(r@) == sort_by_arity(models(v@)),
    decreases v@.len(),
{
    let mut v = v;
    let ghost orig = v@;
    match v.pop() {
        None => {
            proof {
                assert(models(orig) =~= Seq::<RecordModel>::empty());
            }
            v
        },
        Some(last) => {
            proof {
                lemma_models_drop_last(orig);
            }
            let s = sort_records(v);
            let r = insert_record(s, last);
            r
        },
    }
}

/// The printed record lines, one per record in order, each followed by a
/// line break.
pub open spec fn render_lines(rs: Seq<RecordModel>) -> Seq<char>
    decreases rs.len(),
{
    if rs.len() == 0 {
        Seq::empty()
    } else {
        render_lines(rs.drop_last()) + render_record(rs.last()) + "\n"@
    }
}

/// The whole printed report: the record lines, a blank line, then the
/// summary naming the total of flagged declarations and the threshold.
pub open spec fn render_report_spec(rs: Seq<RecordModel>, t: nat) -> Seq<char> {
    render_lines(rs) + "\n"@ + "Found "@ + dec_seq(rs.len()) + " functions with more than "@
        + dec_seq(t) + " arguments"@ + "\n"@
}

/// Print the report for the given records and threshold.
pub fn render_report(records: &Vec<FnInfo>, min_args: usize) -> (r: String)
    ensures
        r@ == render_report_spec(models(records@), min_args as nat),
{
    let mut s = String::new();
    let mut i: usize = 0;
    proof {
        assert(models(records@).take(0) =~= Seq::<RecordModel>::empty());
    }
    while i < records.len()
        invariant
            i <= records@.len(),
            s@ == render_lines(models(records@).take(i as int)),
        decreases records@.len() - i,
    {
        let line = records[i].render();
        s.append(line.as_str());
        s.append("\n");
        proof {
            let ms = models(records@);
            assert(ms.take(i + 1).drop_last() =~= ms.take(i as int));
            assert(ms.take(i + 1).last() == records@[i as int]@);
            assert(s@ =~= render_lines(ms.take(i + 1)));
        }
        i = i + 1;
    }
    proof {
        assert(models(records@).take(records@.len() as int) =~= models(records@));
    }
    s.append("\n");
    s.append("Found ");
    let total_s = dec_str(records.len());
    s.append(total_s.as_str());
    s.append(" functions with more than ");
    let min_s = dec_str(min_args);
    s.append(min_s.as_str());
    s.append(" arguments");
    s.append("\n");
    proof {
        assert(s@ =~= render_report_spec(models(records@), min_args as nat));
    }
    s
}

/// A file with no matching declarations contributes no records, and so
/// nothing to the total.
pub proof fn lemma_no_declarations_no_records(path: Seq<char>, t: nat)
    ensures
        records_of(path, Seq::empty(), t) == Seq::<RecordModel>::empty(),
        records_of(path, Seq::empty(), t).len() == 0,
{
}

/// The threshold filter is exact: every collected record has an arity
/// strictly above the threshold and carries the file's path, and every
/// declaration whose arity is strictly above the threshold is collected.
pub proof fn lemma_records_exactly_flagged(path: Seq<char>, decls: Seq<Declaration>, t: nat)
    ensures
        forall|i: int|
            0 <= i < records_of(path, decls, t).len() ==> records_of(path, decls, t)[i].arity > t,
        forall|i: int|
            0 <= i < records_of(path, decls, t).len() ==> records_of(path, decls, t)[i].path
                == path,
        forall|j: int|
            0 <= j < decls.len() && decl_arity(decls[j]) > t ==> records_of(path, decls, t)
                .contains(record_of(path, decls[j])),
    decreases decls.len(),
{
    if decls.len() == 0 {
    } else {
        lemma_records_exactly_flagged(path, decls.drop_last(), t);
        let rest = records_of(path, decls.drop_last(), t);
        let full = records_of(path, decls, t);
        assert forall|j: int|
            0 <= j < decls.len() && decl_arity(decls[j]) > t implies full.contains(
            record_of(path, decls[j]),
        ) by {
            if j < decls.len() - 1 {
                assert(decls.drop_last()[j] == decls[j]);
                let k = choose|k: int|
                    0 <= k < rest.len() && rest[k] == record_of(path, decls[j]);
                assert(full[k] == record_of(path, decls[j]));
            } else {
                assert(decls[j] == decls.last());
                assert(full.last() == record_of(path, decls.last()));
            }
        }
    }
}

/// When every collected record stands strictly above the threshold, so
/// does every record of the printed, ordered report: ordering neither adds
/// an unflagged record nor loses a flagged one.
pub proof fn lemma_sorted_report_flagged(s: Seq<RecordModel>, t: nat)
    requires
        forall|i: int| 0 <= i < s.len() ==> s[i].arity > t,
    ensures
        forall|i: int| 0 <= i < sort_by_arity(s).len() ==> sort_by_arity(s)[i].arity > t,
{
    lemma_sort_same_records(s);
    assert forall|i: int| 0 <= i < sort_by_arity(s).len() implies sort_by_arity(s)[i].arity
        > t by {
        let x = sort_by_arity(s)[i];
        assert(sort_by_arity(s).contains(x));
        assert(s.contains(x));
        let k = choose|k: int| 0 <= k < s.len() && s[k] == x;
        assert(s[k].arity > t);
    }
}

/// The flagged records of one source text, under the path its file is
/// reported as: `None` exactly when the text yields no syntax tree, and
/// otherwise precisely the threshold filter over what the pattern finds in
/// the text.  Every record carries the given path and an arity strictly
/// above the threshold.
pub fn process_source(rel_path: &String, text: &str, min_args: usize) -> (r: Option<Vec<FnInfo>>)
    ensures
        r is Some <==> rust_extraction_ready(text@),
        r matches Some(v) ==> models(v@) == records_of(
            rel_path@,
            rust_decls_of(text@),
            min_args as nat,
        ),
        r matches Some(v) ==> forall|i: int|
            0 <= i < v@.len() ==> (#[trigger] v@[i])@.arity > min_args && v@[i]@.path == rel_path@,
{
    match crate::extract::extract_declarations(text) {
        None => None,
        Some(decls) => {
            let out = records_for_file(rel_path, &decls, min_args);
            proof {
                lemma_records_exactly_flagged(rel_path@, decls@, min_args as nat);
                assert(forall|i: int|
                    0 <= i < out@.len() ==> (#[trigger] out@[i])@ == models(out@)[i]);
                assert(models(out@) == records_of(rel_path@, decls@, min_args as nat));
            }
            Some(out)
        },
    }
}

/// The end of a run.  A parse failure anywhere (`None`) yields no report
/// at all — fail-fast, no partial summary.  Otherwise the collected
/// records are ordered by arity and rendered, summary line included.
pub fn report_after_scan(outcome: Option<Vec<FnInfo>>, min_args: usize) -> (r: Option<String>)
    ensures
        r is Some <==> outcome is Some,
        outcome matches Some(v) ==> r matches Some(s) && s@ == render_report_spec(
            sort_by_arity(models(v@)),
            min_args as nat,
        ),
{
    match outcome {
        None => None,
        Some(v) => {
            let sorted = sort_records(v);
            Some(render_report(&sorted, min_args))
        },
    }
}

/// The same records and the same threshold always print the same report:
/// a second run over unchanged input repeats the first, byte for byte.
pub proof fn lemma_report_deterministic(a: Seq<RecordModel>, b: Seq<RecordModel>, t: nat)
    requires
        a == b,
    ensures
        render_report_spec(sort_by_arity(a), t) == render_report_spec(sort_by_arity(b), t),
{
}

} // verus!
