//! Where a batch and its jobs extract to: the batch takes a directory
//! `{root}/{stamp}` that it creates fresh (`{root}/{stamp}.{n}` when that name
//! is taken), and job `i` extracts into `{batch directory}/{i}`.
use vstd::prelude::*;
use crate::text::{
    decimal, lemma_decimal_injective, lemma_decimal_shape, lemma_no_slash_concat,
    no_slash, pad2, pad4, push_decimal,
};
use crate::timestamp::{stamp_text, year_text, Timestamp};

verus! {

/// The entry `name` of directory `dir`.
pub open spec fn child(dir: Seq<char>, name: Seq<char>) -> Seq<char> {
    dir + seq!['/'] + name
}

/// `a` lies inside directory `b`, at any depth.
pub open spec fn inside(a: Seq<char>, b: Seq<char>) -> bool {
    &&& a.len() > b.len()
    &&& a.subrange(0, b.len() as int) == b
    &&& a[b.len() as int] == '/'
}

/// Neither path is the other, nor lies inside it.
pub open spec fn apart(a: Seq<char>, b: Seq<char>) -> bool {
    a != b && !inside(a, b) && !inside(b, a)
}

/// The name of a batch directory at the given attempt.
pub open spec fn batch_name(stamp: Seq<char>, attempt: nat) -> Seq<char> {
    if attempt == 0 {
        stamp
    } else {
        stamp + seq!['.'] + decimal(attempt)
    }
}

/// The batch directory tried at `attempt` under `root`.
pub open spec fn batch_dir_path(root: Seq<char>, stamp: Seq<char>, attempt: nat) -> Seq<char> {
    child(root, batch_name(stamp, attempt))
}

/// The workspace of job `index` in batch directory `dir`.
pub open spec fn workspace_path(dir: Seq<char>, index: nat) -> Seq<char> {
    child(dir, decimal(index))
}

/// Builds the batch directory to try at `attempt`.
pub fn batch_dir(root: &String, stamp: &String, attempt: u64) -> (r: String)
    ensures
        r@ == batch_dir_path(root@, stamp@, attempt as nat),
{
    let mut s = root.clone();
    proof {
        reveal_strlit("/");
        reveal_strlit(".");
    }
    s.append("/");
    s.append(stamp.as_str());
    if attempt > 0 {
        s.append(".");
        push_decimal(&mut s, attempt);
    }
    assert(s@ =~= batch_dir_path(root@, stamp@, attempt as nat));
    s
}

/// Builds the workspace path of job `index` in batch directory `dir`.
pub fn workspace_for(dir: &String, index: usize) -> (r: String)
    ensures
        r@ == workspace_path(dir@, index as nat),
{
    let mut s = dir.clone();
    proof { reveal_strlit("/"); }
    s.append("/");
    push_decimal(&mut s, index as u64);
    assert(s@ =~= workspace_path(dir@, index as nat));
    s
}

/// The outcome of creating a candidate batch directory.
#[derive(Clone, Debug, PartialEq, Eq)]
pub enum DirEvent {
    /// The directory did not exist and was created.
    Created,
    /// Something of that name exists already.
    AlreadyExists,
    /// Creation failed for another reason.
    Failed(String),
}

/// What to do after trying a candidate batch directory.
#[derive(Clone, Debug, PartialEq, Eq)]
pub enum DirDecision {
    /// Use the candidate just created.
    Ready,
    /// Try the candidate of this attempt.
    Retry(u64),
    /// Every attempt number is used up.
    Exhausted,
    /// No batch directory can be had; the jobs fail with this reason.
    Unavailable(String),
}

/// Decides after the candidate of `attempt` was tried: a directory created
/// fresh is used, a taken name moves on to the next attempt.
pub fn batch_dir_step(attempt: u64, event: DirEvent) -> (d: DirDecision)
    ensures
        event is Created ==> d == DirDecision::Ready,
        event is AlreadyExists && attempt < u64::MAX ==> d == DirDecision::Retry(
            (attempt + 1) as u64,
        ),
        event is AlreadyExists && attempt == u64::MAX ==> d == DirDecision::Exhausted,
        event matches DirEvent::Failed(m) ==> d == DirDecision::Unavailable(m),
{
    match event {
        DirEvent::Created => DirDecision::Ready,
        DirEvent::AlreadyExists => if attempt < u64::MAX {
            DirDecision::Retry(attempt + 1)
        } else {
            DirDecision::Exhausted
        },
        DirEvent::Failed(m) => DirDecision::Unavailable(m),
    }
}

/// `c2` is `c1`, or a directory that `c1` lies inside; never so for two
/// entries of directories apart, nor for two distinct entries of one.
proof fn lemma_child_not_within(d1: Seq<char>, s1: Seq<char>, d2: Seq<char>, s2: Seq<char>)
    requires
        no_slash(s1),
        no_slash(s2),
        d1 == d2 ==> s1 != s2,
        d1 != d2 ==> apart(d1, d2),
    ensures
        !(child(d2, s2) == child(d1, s1) || inside(child(d1, s1), child(d2, s2))),
{
    let c1 = child(d1, s1);
    let c2 = child(d2, s2);
    if c2 == c1 || inside(c1, c2) {
        assert(c1.subrange(0, c2.len() as int) == c2);
        let l1 = d1.len() as int;
        let l2 = d2.len() as int;
        assert(c2[l2] == '/');
        assert(c1[l2] == c2[l2]);
        if l2 > l1 {
            assert(c1[l2] == s1[l2 - l1 - 1]);
        } else if l2 < l1 {
            assert(c1[l2] == d1[l2]);
            assert(d1.subrange(0, l2) =~= c1.subrange(0, l2));
            assert(c2.subrange(0, l2) =~= d2);
            assert(c1.subrange(0, l2) =~= c2.subrange(0, l2));
        } else {
            assert(d1 =~= c1.subrange(0, l1));
            assert(d2 =~= c2.subrange(0, l1));
            assert(c1.subrange(0, l1) =~= c2.subrange(0, l1));
            if c1.len() == c2.len() {
                assert(s1 =~= c1.subrange(l1 + 1, c1.len() as int));
                assert(s2 =~= c2.subrange(l1 + 1, c2.len() as int));
            } else {
                assert(c1[c2.len() as int] == s1[c2.len() - l1 - 1]);
            }
        }
    }
}

/// Entries of two directories that are apart are apart, and so are two
/// distinct entries of one directory.
pub proof fn lemma_children_apart(d1: Seq<char>, s1: Seq<char>, d2: Seq<char>, s2: Seq<char>)
    requires
        no_slash(s1),
        no_slash(s2),
        d1 == d2 ==> s1 != s2,
        d1 != d2 ==> apart(d1, d2),
    ensures
        apart(child(d1, s1), child(d2, s2)),
{
    lemma_child_not_within(d1, s1, d2, s2);
    lemma_child_not_within(d2, s2, d1, s1);
}

/// Two jobs of one batch never share a workspace, nor nest one in another.
pub proof fn lemma_workspaces_distinct(dir: Seq<char>, i: nat, j: nat)
    requires
        i != j,
    ensures
        apart(workspace_path(dir, i), workspace_path(dir, j)),
{
    lemma_decimal_shape(i);
    lemma_decimal_shape(j);
    if decimal(i) == decimal(j) {
        lemma_decimal_injective(i, j);
    }
    lemma_children_apart(dir, decimal(i), dir, decimal(j));
}

proof fn lemma_batch_name_no_slash(stamp: Seq<char>, attempt: nat)
    requires
        no_slash(stamp),
    ensures
        no_slash(batch_name(stamp, attempt)),
{
    if attempt > 0 {
        lemma_decimal_shape(attempt);
        lemma_no_slash_concat(stamp, seq!['.']);
        lemma_no_slash_concat(stamp + seq!['.'], decimal(attempt));
    }
}

/// Distinct attempts of one stamp name distinct batch directories, neither
/// inside the other.
pub proof fn lemma_attempts_apart(root: Seq<char>, stamp: Seq<char>, a1: nat, a2: nat)
    requires
        no_slash(stamp),
        a1 != a2,
    ensures
        apart(batch_dir_path(root, stamp, a1), batch_dir_path(root, stamp, a2)),
{
    lemma_batch_name_no_slash(stamp, a1);
    lemma_batch_name_no_slash(stamp, a2);
    lemma_decimal_shape(a1);
    lemma_decimal_shape(a2);
    let n1 = batch_name(stamp, a1);
    let n2 = batch_name(stamp, a2);
    if n1 == n2 {
        if a1 > 0 && a2 > 0 {
            let k = stamp.len() as int + 1;
            assert(n1.subrange(k, n1.len() as int) =~= decimal(a1));
            assert(n2.subrange(k, n2.len() as int) =~= decimal(a2));
            lemma_decimal_injective(a1, a2);
        }
    }
    lemma_children_apart(root, n1, root, n2);
}

/// Workspaces of two batches whose directories differ, under one root, are
/// apart: a batch directory is created fresh, so a later run never takes the
/// directory of an earlier one.
pub proof fn lemma_runs_apart(
    root: Seq<char>,
    stamp1: Seq<char>,
    a1: nat,
    stamp2: Seq<char>,
    a2: nat,
    i: nat,
    j: nat,
)
    requires
        no_slash(stamp1),
        no_slash(stamp2),
        batch_dir_path(root, stamp1, a1) != batch_dir_path(root, stamp2, a2),
    ensures
        apart(
            workspace_path(batch_dir_path(root, stamp1, a1), i),
            workspace_path(batch_dir_path(root, stamp2, a2), j),
        ),
{
    lemma_batch_name_no_slash(stamp1, a1);
    lemma_batch_name_no_slash(stamp2, a2);
    lemma_children_apart(root, batch_name(stamp1, a1), root, batch_name(stamp2, a2));
    lemma_decimal_shape(i);
    lemma_decimal_shape(j);
    lemma_children_apart(
        batch_dir_path(root, stamp1, a1),
        decimal(i),
        batch_dir_path(root, stamp2, a2),
        decimal(j),
    );
}

/// Workspaces of batches under two output roots that are apart are apart.
pub proof fn lemma_roots_apart(
    root1: Seq<char>,
    stamp1: Seq<char>,
    a1: nat,
    root2: Seq<char>,
    stamp2: Seq<char>,
    a2: nat,
    i: nat,
    j: nat,
)
    requires
        no_slash(stamp1),
        no_slash(stamp2),
        apart(root1, root2),
    ensures
        apart(
            workspace_path(batch_dir_path(root1, stamp1, a1), i),
            workspace_path(batch_dir_path(root2, stamp2, a2), j),
        ),
{
    lemma_batch_name_no_slash(stamp1, a1);
    lemma_batch_name_no_slash(stamp2, a2);
    lemma_children_apart(root1, batch_name(stamp1, a1), root2, batch_name(stamp2, a2));
    lemma_decimal_shape(i);
    lemma_decimal_shape(j);
    lemma_children_apart(
        batch_dir_path(root1, stamp1, a1),
        decimal(i),
        batch_dir_path(root2, stamp2, a2),
        decimal(j),
    );
}

proof fn lemma_pad_no_slash(n: int)
    ensures
        no_slash(pad2(n)),
        no_slash(pad4(n)),
{
}

/// A directory name made from a moment holds no path separator.
pub proof fn lemma_stamp_no_slash(t: Timestamp)
    ensures
        no_slash(stamp_text(t)),
{
    let y = t.year as int;
    let m = if y < 0 { -y } else { y };
    lemma_pad_no_slash(y);
    lemma_pad_no_slash(m);
    lemma_decimal_shape(m as nat);
    if !(0 <= y < 10000) {
        let sign = seq![if y < 0 { '-' } else { '+' }];
        let digits = if m < 10000 { pad4(m) } else { decimal(m as nat) };
        lemma_no_slash_concat(sign, digits);
        assert(year_text(y) == sign + digits);
    }
    let dash = seq!['-'];
    let under = seq!['_'];
    lemma_pad_no_slash(t.month as int);
    lemma_pad_no_slash(t.day as int);
    lemma_pad_no_slash(t.hour as int);
    lemma_pad_no_slash(t.minute as int);
    lemma_pad_no_slash(t.second as int);
    let s1 = year_text(y) + dash;
    lemma_no_slash_concat(year_text(y), dash);
    let s2 = s1 + pad2(t.month as int);
    lemma_no_slash_concat(s1, pad2(t.month as int));
    let s3 = s2 + dash;
    lemma_no_slash_concat(s2, dash);
    let s4 = s3 + pad2(t.day as int);
    lemma_no_slash_concat(s3, pad2(t.day as int));
    let s5 = s4 + under;
    lemma_no_slash_concat(s4, under);
    let s6 = s5 + pad2(t.hour as int);
    lemma_no_slash_concat(s5, pad2(t.hour as int));
    let s7 = s6 + dash;
    lemma_no_slash_concat(s6, dash);
    let s8 = s7 + pad2(t.minute as int);
    lemma_no_slash_concat(s7, pad2(t.minute as int));
    let s9 = s8 + dash;
    lemma_no_slash_concat(s8, dash);
    lemma_no_slash_concat(s9, pad2(t.second as int));
}

} // verus!
