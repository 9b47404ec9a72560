//! Laws of the query engine, stated over the spec functions that the
//! contracts of the evaluator, the executor and the listing use.
use vstd::prelude::*;

use crate::ast::{CondView, ComparisonOperator, FileAttribute, ValueView};
use crate::cli::{GroupByOption, SortOption};
use crate::eval::{
    attribute_value, compare_spec, eval_spec, like_body, like_piece, like_regex, lower_of,
    text_order, ExecErrorKind, FileResult,
};
use crate::executor::{
    filter_spec, octal_mode, select_spec, sets_owner, sets_other_than_permissions,
    update_modes_spec,
};
use crate::listing::{extension_of, listing_order, FileInfo};

verus! {

/// Without a condition, a selection returns every traversed entry, in
/// traversal order, directories included.
pub proof fn lemma_select_without_condition_keeps_all(files: Seq<FileResult>)
    ensures
        select_spec(files, None) == Ok::<Seq<FileResult>, ExecErrorKind>(files),
        select_spec(files, None) matches Ok(r) && r.len() == files.len(),
{
}

/// Every entry that a filter keeps satisfies the condition.
pub proof fn lemma_filter_keeps_only_matches(files: Seq<FileResult>, c: CondView)
    ensures
        filter_spec(files, c) matches Ok(kept) ==> forall|i: int|
            0 <= i < kept.len() ==> eval_spec(#[trigger] kept[i], c) == Ok::<bool, ExecErrorKind>(
                true,
            ),
    decreases files.len(),
{
    if files.len() > 0 {
        lemma_filter_keeps_only_matches(files.drop_last(), c);
    }
}

/// Every traversed entry that satisfies the condition is kept.
pub proof fn lemma_filter_keeps_all_matches(files: Seq<FileResult>, c: CondView)
    ensures
        filter_spec(files, c) matches Ok(kept) ==> forall|i: int|
            0 <= i < files.len() && eval_spec(#[trigger] files[i], c) == Ok::<bool, ExecErrorKind>(
                true,
            ) ==> kept.contains(files[i]),
    decreases files.len(),
{
    if files.len() > 0 {
        lemma_filter_keeps_all_matches(files.drop_last(), c);
        if let Ok(kept) = filter_spec(files, c) {
            let prev = filter_spec(files.drop_last(), c)->Ok_0;
            assert forall|i: int|
                0 <= i < files.len() && eval_spec(#[trigger] files[i], c) == Ok::<
                    bool,
                    ExecErrorKind,
                >(true) implies kept.contains(files[i]) by {
                if i < files.len() - 1 {
                    assert(files.drop_last()[i] == files[i]);
                    let j = choose|j: int| 0 <= j < prev.len() && prev[j] == files[i];
                    assert(kept[j] == files[i]);
                } else {
                    assert(kept[kept.len() - 1] == files[i]);
                }
            }
        }
    }
}

proof fn lemma_filter_all_matching(files: Seq<FileResult>, c: CondView)
    requires
        forall|i: int|
            0 <= i < files.len() ==> eval_spec(#[trigger] files[i], c) == Ok::<bool, ExecErrorKind>(
                true,
            ),
    ensures
        filter_spec(files, c) == Ok::<Seq<FileResult>, ExecErrorKind>(files),
    decreases files.len(),
{
    if files.len() > 0 {
        assert forall|i: int| 0 <= i < files.drop_last().len() implies eval_spec(
            #[trigger] files.drop_last()[i],
            c,
        ) == Ok::<bool, ExecErrorKind>(true) by {
            assert(files.drop_last()[i] == files[i]);
        }
        lemma_filter_all_matching(files.drop_last(), c);
        assert(eval_spec(files.last(), c) == Ok::<bool, ExecErrorKind>(true));
        assert(files.drop_last().push(files.last()) =~= files);
    } else {
        assert(files =~= Seq::<FileResult>::empty());
    }
}

/// A selection depends only on the traversed entries and the condition: run
/// twice over an unchanged tree it returns the same entries, and run again
/// over its own result it returns that result unchanged.
pub proof fn lemma_select_repeatable(
    files: Seq<FileResult>,
    again: Seq<FileResult>,
    c: Option<CondView>,
)
    requires
        files == again,
    ensures
        select_spec(files, c) == select_spec(again, c),
        select_spec(files, c) matches Ok(kept) ==> select_spec(kept, c) == Ok::<
            Seq<FileResult>,
            ExecErrorKind,
        >(kept),
{
    if let Some(c) = c {
        lemma_filter_keeps_only_matches(files, c);
        if let Ok(kept) = filter_spec(files, c) {
            lemma_filter_all_matching(kept, c);
        }
    }
}

/// A `LIKE` without case sensitivity gives the same outcome for names that
/// differ only in case, and for patterns that differ only in case.
pub proof fn lemma_like_ignores_case(
    f: FileResult,
    g: FileResult,
    pattern: Seq<char>,
    other: Seq<char>,
)
    requires
        lower_of(f.name@) == lower_of(g.name@),
        lower_of(pattern) == lower_of(other),
    ensures
        eval_spec(
            f,
            CondView::Like { attribute: FileAttribute::Name, pattern, case_sensitive: false },
        ) == eval_spec(
            g,
            CondView::Like { attribute: FileAttribute::Name, pattern: other, case_sensitive: false },
        ),
{
}

pub open spec fn has_wildcard(x: Seq<char>) -> bool {
    exists|i: int| 0 <= i < x.len() && (x[i] == '%' || x[i] == '_')
}

proof fn lemma_like_body_concat(a: Seq<char>, b: Seq<char>)
    ensures
        like_body(a + b) == like_body(a) + like_body(b),
    decreases b.len(),
{
    if b.len() == 0 {
        assert(a + b =~= a);
        assert(like_body(a) + like_body(b) =~= like_body(a));
    } else {
        assert((a + b).drop_last() =~= a + b.drop_last());
        assert((a + b).last() == b.last());
        lemma_like_body_concat(a, b.drop_last());
        assert(like_body(a + b) =~= like_body(a) + like_body(b));
    }
}

proof fn lemma_like_body_literal(x: Seq<char>)
    requires
        !has_wildcard(x),
    ensures
        like_body(x) == x,
    decreases x.len(),
{
    if x.len() > 0 {
        assert(!has_wildcard(x.drop_last())) by {
            if has_wildcard(x.drop_last()) {
                let i = choose|i: int|
                    0 <= i < x.drop_last().len() && (x.drop_last()[i] == '%' || x.drop_last()[i]
                        == '_');
                assert(x[i] == x.drop_last()[i]);
            }
        }
        lemma_like_body_literal(x.drop_last());
        assert(!(x[x.len() - 1] == '%' || x[x.len() - 1] == '_'));
        assert(like_piece(x.last()) == seq![x.last()]);
        assert(x.drop_last().push(x.last()) =~= x);
        assert(like_body(x) =~= x);
    }
}

/// `%` in a `LIKE` pattern leaves its side open and the other side stays
/// anchored: `'X%'` matches names that start with `X`, `'%X'` names that
/// end with it, `'%X%'` names that contain it.
pub proof fn lemma_like_anchors(x: Seq<char>)
    requires
        !has_wildcard(x),
    ensures
        like_regex(x + seq!['%']) == seq!['^'] + x + seq!['.', '*', '$'],
        like_regex(seq!['%'] + x) == seq!['^', '.', '*'] + x + seq!['$'],
        like_regex(seq!['%'] + x + seq!['%']) == seq!['^', '.', '*'] + x + seq!['.', '*', '$'],
{
    let pct = seq!['%'];
    assert(pct.drop_last() =~= Seq::<char>::empty());
    assert(pct.last() == '%');
    assert(like_body(Seq::<char>::empty()) == Seq::<char>::empty());
    assert(like_body(pct) =~= seq!['.', '*']);
    lemma_like_body_literal(x);
    lemma_like_body_concat(x, pct);
    lemma_like_body_concat(pct, x);
    lemma_like_body_concat(pct + x, pct);
    assert(like_regex(x + pct) =~= seq!['^'] + x + seq!['.', '*', '$']);
    assert(like_regex(pct + x) =~= seq!['^', '.', '*'] + x + seq!['$']);
    assert(like_regex(pct + x + pct) =~= seq!['^', '.', '*'] + x + seq!['.', '*', '$']);
}

/// `attribute BETWEEN lower AND upper` evaluates as
/// `attribute >= lower AND attribute <= upper`.
pub proof fn lemma_between_is_range(
    f: FileResult,
    attribute: FileAttribute,
    lower: ValueView,
    upper: ValueView,
)
    ensures
        eval_spec(f, CondView::Between { attribute, lower, upper }) == eval_spec(
            f,
            CondView::And(
                Box::new(
                    CondView::Compare { attribute, operator: ComparisonOperator::GtEq, value: lower },
                ),
                Box::new(
                    CondView::Compare { attribute, operator: ComparisonOperator::LtEq, value: upper },
                ),
            ),
        ),
{
    let ge = CondView::Compare { attribute, operator: ComparisonOperator::GtEq, value: lower };
    let le = CondView::Compare { attribute, operator: ComparisonOperator::LtEq, value: upper };
    assert(eval_spec(f, ge) == match attribute_value(f, attribute) {
        Ok(v) => compare_spec(v, ComparisonOperator::GtEq, lower),
        Err(e) => Err(e),
    });
    assert(eval_spec(f, le) == match attribute_value(f, attribute) {
        Ok(v) => compare_spec(v, ComparisonOperator::LtEq, upper),
        Err(e) => Err(e),
    });
}

/// De Morgan: `NOT (a AND b)` evaluates as `(NOT a) OR (NOT b)`, errors
/// included.
pub proof fn lemma_not_and_is_or_not(f: FileResult, a: CondView, b: CondView)
    ensures
        eval_spec(f, CondView::Not(Box::new(CondView::And(Box::new(a), Box::new(b))))) == eval_spec(
            f,
            CondView::Or(
                Box::new(CondView::Not(Box::new(a))),
                Box::new(CondView::Not(Box::new(b))),
            ),
        ),
{
    let and_ab = CondView::And(Box::new(a), Box::new(b));
    assert(eval_spec(f, CondView::Not(Box::new(a))) == match eval_spec(f, a) {
        Ok(x) => Ok::<bool, ExecErrorKind>(!x),
        Err(e) => Err(e),
    });
    assert(eval_spec(f, CondView::Not(Box::new(b))) == match eval_spec(f, b) {
        Ok(x) => Ok::<bool, ExecErrorKind>(!x),
        Err(e) => Err(e),
    });
    assert(eval_spec(f, and_ab) == match eval_spec(f, a) {
        Ok(true) => eval_spec(f, b),
        Ok(false) => Ok::<bool, ExecErrorKind>(false),
        Err(e) => Err(e),
    });
}

/// An `UPDATE` that sets valid permissions changes only the entries that
/// satisfy its condition, and all of them; the mode it sets is the octal
/// value written.
pub proof fn lemma_permission_update_targets(
    files: Seq<FileResult>,
    value: Seq<char>,
    c: CondView,
)
    requires
        octal_mode(value) is Some,
    ensures
        update_modes_spec(seq![(FileAttribute::Permissions, value)]) == Ok::<
            Seq<u32>,
            ExecErrorKind,
        >(seq![octal_mode(value)->0]),
        filter_spec(files, c) matches Ok(kept) ==> (forall|i: int|
            0 <= i < kept.len() ==> eval_spec(#[trigger] kept[i], c) == Ok::<bool, ExecErrorKind>(
                true,
            )) && (forall|i: int|
            0 <= i < files.len() && eval_spec(#[trigger] files[i], c) == Ok::<bool, ExecErrorKind>(
                true,
            ) ==> kept.contains(files[i])),
{
    let us = seq![(FileAttribute::Permissions, value)];
    assert(!sets_owner(us)) by {
        if sets_owner(us) {
            let i = choose|i: int| 0 <= i < us.len() && (#[trigger] us[i]).0 == FileAttribute::Owner;
            assert(i == 0);
        }
    }
    assert(!sets_other_than_permissions(us)) by {
        if sets_other_than_permissions(us) {
            let i = choose|i: int|
                0 <= i < us.len() && (#[trigger] us[i]).0 != FileAttribute::Permissions;
            assert(i == 0);
        }
    }
    assert(us.map_values(|u: (FileAttribute, Seq<char>)| crate::executor::mode_of(u)) =~= seq![
        octal_mode(value)->0,
    ]);
    lemma_filter_keeps_only_matches(files, c);
    lemma_filter_keeps_all_matches(files, c);
}

/// An `UPDATE` that changes the owner never succeeds: it fails with
/// `UnsupportedOperation`, whatever the other assignments are.
pub proof fn lemma_owner_update_refused(us: Seq<(FileAttribute, Seq<char>)>, i: int)
    requires
        0 <= i < us.len(),
        us[i].0 == FileAttribute::Owner,
    ensures
        update_modes_spec(us) == Err::<Seq<u32>, ExecErrorKind>(
            ExecErrorKind::UnsupportedOperation,
        ),
{
    assert(sets_owner(us));
}

/// An `UPDATE` that names an attribute other than the permissions never
/// succeeds: it fails with `UnsupportedOperation` (when one of them is the
/// owner) or `UnsupportedAttribute`, whatever the other assignments are.
pub proof fn lemma_unsupported_update_refused(us: Seq<(FileAttribute, Seq<char>)>, i: int)
    requires
        0 <= i < us.len(),
        us[i].0 != FileAttribute::Permissions,
    ensures
        update_modes_spec(us) == Err::<Seq<u32>, ExecErrorKind>(
            ExecErrorKind::UnsupportedOperation,
        ) || update_modes_spec(us) == Err::<Seq<u32>, ExecErrorKind>(
            ExecErrorKind::UnsupportedAttribute,
        ),
        us[i].0 != FileAttribute::Owner && !sets_owner(us) ==> update_modes_spec(us) == Err::<
            Seq<u32>,
            ExecErrorKind,
        >(ExecErrorKind::UnsupportedAttribute),
{
    assert(sets_other_than_permissions(us));
}

/// `NULL` equals no text: with `=` the comparison is false, with `!=` true,
/// and an ordering comparison is an error, on either side.
pub proof fn lemma_null_never_equals_text(x: Seq<char>)
    ensures
        compare_spec(ValueView::Null, ComparisonOperator::Eq, ValueView::Str(x)) == Ok::<
            bool,
            ExecErrorKind,
        >(false),
        compare_spec(ValueView::Null, ComparisonOperator::NotEq, ValueView::Str(x)) == Ok::<
            bool,
            ExecErrorKind,
        >(true),
        compare_spec(ValueView::Null, ComparisonOperator::Lt, ValueView::Str(x)) is Err,
        compare_spec(ValueView::Null, ComparisonOperator::Gt, ValueView::Str(x)) is Err,
        compare_spec(ValueView::Str(x), ComparisonOperator::Eq, ValueView::Null) == Ok::<
            bool,
            ExecErrorKind,
        >(false),
        compare_spec(ValueView::Str(x), ComparisonOperator::NotEq, ValueView::Null) == Ok::<
            bool,
            ExecErrorKind,
        >(true),
        compare_spec(ValueView::Str(x), ComparisonOperator::Lt, ValueView::Null) is Err,
        compare_spec(ValueView::Str(x), ComparisonOperator::Gt, ValueView::Null) is Err,
{
}

proof fn lemma_text_order_antisymmetric(a: Seq<char>, b: Seq<char>)
    ensures
        text_order(a, b) == -text_order(b, a),
    decreases a.len(),
{
    if a.len() > 0 && b.len() > 0 && a[0] == b[0] {
        lemma_text_order_antisymmetric(a.drop_first(), b.drop_first());
    }
}

proof fn lemma_text_order_transitive(a: Seq<char>, b: Seq<char>, c: Seq<char>)
    requires
        text_order(a, b) <= 0,
        text_order(b, c) <= 0,
    ensures
        text_order(a, c) <= 0,
        text_order(a, b) < 0 || text_order(b, c) < 0 ==> text_order(a, c) < 0,
    decreases a.len(),
{
    if a.len() > 0 && b.len() > 0 && c.len() > 0 && a[0] == b[0] && b[0] == c[0] {
        lemma_text_order_transitive(a.drop_first(), b.drop_first(), c.drop_first());
    }
}

proof fn lemma_texts_ordered(a: Seq<char>, b: Seq<char>, c: Seq<char>)
    ensures
        text_order(a, b) == -text_order(b, a),
        text_order(b, c) == -text_order(c, b),
        text_order(a, c) == -text_order(c, a),
        text_order(a, b) <= 0 && text_order(b, c) <= 0 ==> text_order(a, c) <= 0,
        text_order(a, b) <= 0 && text_order(b, c) <= 0 && (text_order(a, b) < 0 || text_order(
            b,
            c,
        ) < 0) ==> text_order(a, c) < 0,
        text_order(a, b) == 0 && text_order(b, c) == 0 ==> text_order(a, c) == 0,
{
    lemma_text_order_antisymmetric(a, b);
    lemma_text_order_antisymmetric(b, c);
    lemma_text_order_antisymmetric(a, c);
    if text_order(a, b) <= 0 && text_order(b, c) <= 0 {
        lemma_text_order_transitive(a, b, c);
        if text_order(a, b) == 0 && text_order(b, c) == 0 {
            lemma_text_order_antisymmetric(b, a);
            lemma_text_order_antisymmetric(c, b);
            lemma_text_order_transitive(c, b, a);
        }
    }
}

/// The order of a listing is a total preorder: swapping two entries flips
/// it, and it is transitive. Sorting by it is therefore well defined.
pub proof fn lemma_listing_order_total_preorder(
    a: FileInfo,
    b: FileInfo,
    c: FileInfo,
    sort_by: SortOption,
    group_by: GroupByOption,
)
    ensures
        listing_order(a, b, sort_by, group_by) == -listing_order(b, a, sort_by, group_by),
        listing_order(a, b, sort_by, group_by) <= 0 && listing_order(b, c, sort_by, group_by) <= 0
            ==> listing_order(a, c, sort_by, group_by) <= 0,
{
    lemma_texts_ordered(a.name@, b.name@, c.name@);
    lemma_texts_ordered(extension_of(a.name@), extension_of(b.name@), extension_of(c.name@));
}

} // verus!
