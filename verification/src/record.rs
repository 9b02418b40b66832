//! The reported record: one flagged declaration, and how it is printed.

use vstd::prelude::*;
use vstd::string::StringExecFns;

verus! {

/// One flagged declaration: the file it stands in (relative to the scan
/// root), its name, its counted arity, and the 1-based line of its
/// parameter list.
pub struct FnInfo {
    pub path: String,
    pub name: String,
    pub arity: usize,
    pub line: usize,
}

/// The mathematical content of a `FnInfo`.
pub struct RecordModel {
    pub path: Seq<char>,
    pub name: Seq<char>,
    pub arity: nat,
    pub line: nat,
}

impl View for FnInfo {
    type V = RecordModel;

    open spec fn view(&self) -> RecordModel {
        RecordModel {
            path: self.path@,
            name: self.name@,
            arity: self.arity as nat,
            line: self.line as nat,
        }
    }
}

/// The models of a sequence of records.
pub open spec fn models(s: Seq<FnInfo>) -> Seq<RecordModel> {
    s.map_values(|f: FnInfo| f@)
}

pub proof fn lemma_models_push(s: Seq<FnInfo>, x: FnInfo)
    ensures
        models(s.push(x)) == models(s).push(x@),
{
    assert(models(s.push(x)) =~= models(s).push(x@));
}

pub proof fn lemma_models_drop_last(s: Seq<FnInfo>)
    requires
        s.len() > 0,
    ensures
        models(s.drop_last()) == models(s).drop_last(),
        models(s).last() == s.last()@,
{
    assert(models(s.drop_last()) =~= models(s).drop_last());
}

/// The decimal digit character for `d` below ten.
pub open spec fn digit_seq(d: nat) -> Seq<char> {
    if d == 0 {
        "0"@
    } else if d == 1 {
        "1"@
    } else if d == 2 {
        "2"@
    } else if d == 3 {
        "3"@
    } else if d == 4 {
        "4"@
    } else if d == 5 {
        "5"@
    } else if d == 6 {
        "6"@
    } else if d == 7 {
        "7"@
    } else if d == 8 {
        "8"@
    } else {
        "9"@
    }
}

/// The decimal numeral of `n`, most significant digit first.
pub open spec fn dec_seq(n: nat) -> Seq<char>
    decreases n,
{
    if n < 10 {
        digit_seq(n)
    } else {
        dec_seq(n / 10) + digit_seq(n % 10)
    }
}

fn digit_str(d: usize) -> (r: &'static str)
    requires
        d < 10,
    ensures
        r@ == digit_seq(d as nat),
{
    if d == 0 {
        "0"
    } else if d == 1 {
        "1"
    } else if d == 2 {
        "2"
    } else if d == 3 {
        "3"
    } else if d == 4 {
        "4"
    } else if d == 5 {
        "5"
    } else if d == 6 {
        "6"
    } else if d == 7 {
        "7"
    } else if d == 8 {
        "8"
    } else {
        "9"
    }
}

/// The decimal numeral of `n` as a string.
pub fn dec_str(n: usize) -> (r: String)
    ensures
        r@ == dec_seq(n as nat),
    decreases n,
{
    if n < 10 {
        digit_str(n).to_owned()
    } else {
        let mut r = dec_str(n / 10);
        r.append(digit_str(n % 10));
        r
    }
}

/// How one record is printed: `path:line: fn name/arity`.
pub open spec fn render_record(r: RecordModel) -> Seq<char> {
    r.path + ":"@ + dec_seq(r.line) + ": fn "@ + r.name + "/"@ + dec_seq(r.arity)
}

impl FnInfo {
    /// The printed form of this record.
    pub fn render(&self) -> (r: String)
        ensures
            r@ == render_record(self@),
    {
        let mut s = self.path.clone();
        s.append(":");
        let line_s = dec_str(self.line);
        s.append(line_s.as_str());
        s.append(": fn ");
        s.append(self.name.as_str());
        s.append("/");
        let arity_s = dec_str(self.arity);
        s.append(arity_s.as_str());
        proof {
            assert(s@ =~= render_record(self@));
        }
        s
    }
}

} // verus!
