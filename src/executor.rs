//! The decisions of query execution: which of the traversed entries a query
//! selects, and which permission changes an update applies. The traversal
//! itself and the changes on disk are the caller's.
use vstd::prelude::*;

use crate::ast::{chars_of, updates_view, CondView, FileAttribute, FileAttributeUpdate, FileCondition};
use crate::eval::{
    eval_spec, evaluate_condition, ExecErrorKind, ExecutorError, FileResult,
};

verus! {

pub open spec fn cond_ref_view(c: Option<&FileCondition>) -> Option<CondView> {
    match c {
        Some(c) => Some(c@),
        None => None,
    }
}

pub open spec fn entries_result_view(r: Result<Vec<FileResult>, ExecutorError>) -> Result<
    Seq<FileResult>,
    ExecErrorKind,
> {
    match r {
        Ok(v) => Ok(v@),
        Err(e) => Err(e.kind()),
    }
}

/// The entries of `files` for which `c` holds, in order; or the first error
/// that evaluating `c` meets.
pub open spec fn filter_spec(files: Seq<FileResult>, c: CondView) -> Result<
    Seq<FileResult>,
    ExecErrorKind,
>
    decreases files.len(),
{
    if files.len() == 0 {
        Ok(Seq::empty())
    } else {
        match filter_spec(files.drop_last(), c) {
            Ok(kept) => match eval_spec(files.last(), c) {
                Ok(true) => Ok(kept.push(files.last())),
                Ok(false) => Ok(kept),
                Err(e) => Err(e),
            },
            Err(e) => Err(e),
        }
    }
}

/// What a `SELECT` returns for the traversed entries `files`.
pub open spec fn select_spec(files: Seq<FileResult>, c: Option<CondView>) -> Result<
    Seq<FileResult>,
    ExecErrorKind,
> {
    match c {
        Some(c) => filter_spec(files, c),
        None => Ok(files),
    }
}

/// Once a prefix of the entries fails, every longer run fails the same way.
proof fn lemma_filter_error_extends(files: Seq<FileResult>, c: CondView, i: int)
    requires
        0 <= i <= files.len(),
        filter_spec(files.take(i), c) is Err,
    ensures
        filter_spec(files, c) == filter_spec(files.take(i), c),
    decreases files.len(),
{
    if i == files.len() {
        assert(files.take(i) =~= files);
    } else {
        assert(files.drop_last().take(i) =~= files.take(i));
        lemma_filter_error_extends(files.drop_last(), c, i);
    }
}

/// Keeps the entries for which `condition` holds, in traversal order; with
/// no condition, keeps them all. An evaluation error ends the selection.
pub fn select_matching(files: Vec<FileResult>, condition: Option<&FileCondition>) -> (r: Result<
    Vec<FileResult>,
    ExecutorError,
>)
    ensures
        entries_result_view(r) == select_spec(files@, cond_ref_view(condition)),
{
    let cond = match condition {
        Some(c) => c,
        None => {
            return Ok(files);
        },
    };
    let mut kept: Vec<FileResult> = Vec::new();
    let mut i: usize = 0;
    assert(files@.take(0) =~= Seq::<FileResult>::empty());
    while i < files.len()
        invariant
            cond_ref_view(condition) == Some(cond@),
            i <= files.len(),
            filter_spec(files@.take(i as int), cond@) == Ok::<Seq<FileResult>, ExecErrorKind>(
                kept@,
            ),
        decreases files.len() - i,
    {
        assert(files@.take(i + 1).drop_last() =~= files@.take(i as int));
        assert(files@.take(i + 1).last() == files@[i as int]);
        match evaluate_condition(&files[i], cond) {
            Ok(true) => {
                kept.push(files[i].clone());
            },
            Ok(false) => {},
            Err(e) => {
                proof {
                    let pre = files@.take(i + 1);
                    assert(pre.len() > 0);
                    assert(filter_spec(pre, cond@) == Err::<Seq<FileResult>, ExecErrorKind>(
                        e.kind(),
                    ));
                    lemma_filter_error_extends(files@, cond@, i + 1);
                }
                return Err(e);
            },
        }
        i += 1;
    }
    assert(files@.take(i as int) =~= files@);
    Ok(kept)
}

pub open spec fn is_octal_digit(c: char) -> bool {
    '0' <= c <= '7'
}

pub open spec fn all_octal(d: Seq<char>) -> bool {
    forall|i: int| 0 <= i < d.len() ==> is_octal_digit(#[trigger] d[i])
}

pub open spec fn octal_value(s: Seq<char>) -> nat
    decreases s.len(),
{
    if s.len() == 0 {
        0
    } else {
        octal_value(s.drop_last()) * 8 + (s.last() as nat - '0' as nat) as nat
    }
}

/// The digits of a permissions value: what follows an optional leading `+`.
pub open spec fn octal_digits(s: Seq<char>) -> Seq<char> {
    if s.len() > 0 && s[0] == '+' {
        s.skip(1)
    } else {
        s
    }
}

/// The mode bits that a permissions value stands for, read as
/// `u32::from_str_radix(s, 8)` reads it: an optional `+`, then one or more
/// octal digits whose value fits in 32 bits (`"755"`, `"0644"`).
pub open spec fn octal_mode(s: Seq<char>) -> Option<u32> {
    let d = octal_digits(s);
    if d.len() > 0 && all_octal(d) && octal_value(d) <= u32::MAX {
        Some(octal_value(d) as u32)
    } else {
        None
    }
}

proof fn lemma_octal_prefix(d: Seq<char>, j: int)
    requires
        all_octal(d),
        0 <= j <= d.len(),
    ensures
        octal_value(d.take(j)) <= octal_value(d),
    decreases d.len(),
{
    if j < d.len() {
        assert(d.drop_last().take(j) =~= d.take(j));
        assert(all_octal(d.drop_last()));
        lemma_octal_prefix(d.drop_last(), j);
    } else {
        assert(d.take(j) =~= d);
    }
}

/// Reads a permissions value written in octal.
pub fn parse_octal_mode(s: &str) -> (r: Option<u32>)
    ensures
        r == octal_mode(s@),
{
    let v = chars_of(s);
    let start: usize = if v.len() > 0 && v[0] == '+' {
        1
    } else {
        0
    };
    let ghost d = octal_digits(s@);
    assert(d =~= v@.skip(start as int));
    if start == v.len() {
        return None;
    }
    let mut acc: u32 = 0;
    let mut i: usize = start;
    assert(d.take(0) =~= Seq::<char>::empty());
    while i < v.len()
        invariant
            v@ == s@,
            d == v@.skip(start as int),
            d == octal_digits(s@),
            start <= i <= v.len(),
            acc as nat == octal_value(d.take(i - start)),
            forall|j: int| 0 <= j < i - start ==> is_octal_digit(#[trigger] d[j]),
        decreases v.len() - i,
    {
        let c = v[i];
        assert(d[i - start] == c);
        if !('0' <= c && c <= '7') {
            assert(!is_octal_digit(d[i - start]));
            return None;
        }
        let dig: u32 = (c as u32) - ('0' as u32);
        assert(d.take(i - start + 1).drop_last() =~= d.take(i - start));
        assert(d.take(i - start + 1).last() == c);
        assert(octal_value(d.take(i - start + 1)) == acc as nat * 8 + dig as nat);
        if acc > 536870911 {
            proof {
                if all_octal(d) {
                    lemma_octal_prefix(d, i - start + 1);
                }
            }
            return None;
        }
        acc = acc * 8 + dig;
        i += 1;
    }
    assert(d.take(i - start) =~= d);
    Some(acc)
}

/// Some assignment changes the owner.
pub open spec fn sets_owner(us: Seq<(FileAttribute, Seq<char>)>) -> bool {
    exists|i: int| 0 <= i < us.len() && (#[trigger] us[i]).0 == FileAttribute::Owner
}

/// Some assignment changes an attribute other than the permissions.
pub open spec fn sets_other_than_permissions(us: Seq<(FileAttribute, Seq<char>)>) -> bool {
    exists|i: int| 0 <= i < us.len() && (#[trigger] us[i]).0 != FileAttribute::Permissions
}

/// Every assignment has a valid octal value.
pub open spec fn all_modes_valid(us: Seq<(FileAttribute, Seq<char>)>) -> bool {
    forall|i: int| 0 <= i < us.len() ==> (#[trigger] octal_mode(us[i].1)) is Some
}

pub open spec fn mode_of(u: (FileAttribute, Seq<char>)) -> u32 {
    octal_mode(u.1)->0
}

/// The modes that the assignments of an `UPDATE` set, in order, or why it
/// cannot be applied. Only permissions can be changed, and the reasons rank:
/// changing the owner is `UnsupportedOperation`; else any other attribute is
/// `UnsupportedAttribute`; else a value that is not octal is `TypeError`.
pub open spec fn update_modes_spec(us: Seq<(FileAttribute, Seq<char>)>) -> Result<
    Seq<u32>,
    ExecErrorKind,
> {
    if sets_owner(us) {
        Err(ExecErrorKind::UnsupportedOperation)
    } else if sets_other_than_permissions(us) {
        Err(ExecErrorKind::UnsupportedAttribute)
    } else if !all_modes_valid(us) {
        Err(ExecErrorKind::TypeError)
    } else {
        Ok(us.map_values(|u: (FileAttribute, Seq<char>)| mode_of(u)))
    }
}

pub open spec fn modes_result_view(r: Result<Vec<u32>, ExecutorError>) -> Result<
    Seq<u32>,
    ExecErrorKind,
> {
    match r {
        Ok(v) => Ok(v@),
        Err(e) => Err(e.kind()),
    }
}

/// Checks the assignments of an `UPDATE` before anything is changed and
/// returns the modes they set. Changing the owner is refused with
/// `UnsupportedOperation` whatever else is assigned; otherwise any attribute
/// but permissions is refused with `UnsupportedAttribute`; otherwise a
/// permissions value that is not octal is refused with `TypeError`.
pub fn update_modes(updates: &Vec<FileAttributeUpdate>) -> (r: Result<Vec<u32>, ExecutorError>)
    ensures
        modes_result_view(r) == update_modes_spec(updates_view(updates@)),
{
    let ghost us = updates_view(updates@);
    let mut i: usize = 0;
    while i < updates.len()
        invariant
            us == updates_view(updates@),
            i <= updates.len(),
            forall|j: int| 0 <= j < i ==> (#[trigger] us[j]).0 != FileAttribute::Owner,
        decreases updates.len() - i,
    {
        assert(us[i as int] == updates@[i as int]@);
        if matches!(updates[i].attribute, FileAttribute::Owner) {
            return Err(
                ExecutorError::UnsupportedOperation(
                    "changing the owner of a file is not supported".to_string(),
                ),
            );
        }
        i += 1;
    }
    let mut i: usize = 0;
    while i < updates.len()
        invariant
            us == updates_view(updates@),
            !sets_owner(us),
            i <= updates.len(),
            forall|j: int| 0 <= j < i ==> (#[trigger] us[j]).0 == FileAttribute::Permissions,
        decreases updates.len() - i,
    {
        assert(us[i as int] == updates@[i as int]@);
        if !matches!(updates[i].attribute, FileAttribute::Permissions) {
            return Err(
                ExecutorError::UnsupportedAttribute(
                    "only permissions can be updated".to_string(),
                ),
            );
        }
        i += 1;
    }
    let mut modes: Vec<u32> = Vec::new();
    let mut i: usize = 0;
    while i < updates.len()
        invariant
            us == updates_view(updates@),
            !sets_owner(us),
            !sets_other_than_permissions(us),
            i <= updates.len(),
            forall|j: int| 0 <= j < i ==> (#[trigger] octal_mode(us[j].1)) is Some,
            modes@ =~= us.take(i as int).map_values(|u: (FileAttribute, Seq<char>)| mode_of(u)),
        decreases updates.len() - i,
    {
        assert(us[i as int] == updates@[i as int]@);
        match parse_octal_mode(updates[i].value.as_str()) {
            Some(m) => {
                modes.push(m);
            },
            None => {
                assert(octal_mode(us[i as int].1) is None);
                return Err(
                    ExecutorError::TypeError(
                        "permissions must be written in octal".to_string(),
                    ),
                );
            },
        }
        assert(us.take(i + 1).map_values(|u: (FileAttribute, Seq<char>)| mode_of(u))
            =~= us.take(i as int).map_values(|u: (FileAttribute, Seq<char>)| mode_of(u)).push(
            mode_of(us[i as int]),
        ));
        i += 1;
    }
    assert(us.take(i as int) =~= us);
    Ok(modes)
}

/// The entries that an `UPDATE` setting `modes` changes: none when it sets
/// nothing, else those that its condition selects.
pub open spec fn update_targets_spec(
    files: Seq<FileResult>,
    modes: Seq<u32>,
    c: Option<CondView>,
) -> Result<Seq<FileResult>, ExecErrorKind> {
    if modes.len() == 0 {
        Ok(Seq::empty())
    } else {
        select_spec(files, c)
    }
}

/// Chooses, among the entries of the whole tree, those that an `UPDATE`
/// changes; each of them then gets every mode of `modes`, in order.
pub fn update_targets(
    files: Vec<FileResult>,
    modes: &Vec<u32>,
    condition: Option<&FileCondition>,
) -> (r: Result<Vec<FileResult>, ExecutorError>)
    ensures
        entries_result_view(r) == update_targets_spec(files@, modes@, cond_ref_view(condition)),
{
    if modes.len() == 0 {
        Ok(Vec::new())
    } else {
        select_matching(files, condition)
    }
}

} // verus!
