//! Properties that hold of every input, stated over the models that the
//! functions' contracts use.
use vstd::prelude::*;

use crate::classify::{classification, Classification};
use crate::config::ConfigModel;
use crate::organize::{copy_action, day_dir, is_target_for, writes_file, CopyAction, Target};
use crate::text::{ascii_lower, decimal, digit_char, join, signed_decimal, two_digits};
use crate::walk::{child_paths, is_skipped, kept_names, skipped_names};

verus! {

/// An extension whose lower-case form is in the image set is an image,
/// whatever the case it is written in.
pub proof fn image_in_any_case(c: ConfigModel, ext: Seq<char>)
    requires
        c.images.contains(ascii_lower(ext)),
    ensures
        classification(c, Some(ext)) == Classification::Image,
{
}

/// Two spellings of an extension that differ only in ASCII case are
/// classified alike.
pub proof fn classification_ignores_case(c: ConfigModel, a: Seq<char>, b: Seq<char>)
    requires
        ascii_lower(a) == ascii_lower(b),
    ensures
        classification(c, Some(a)) == classification(c, Some(b)),
{
}

/// An extension in neither set is unknown, and a file without an extension
/// is classified as having none.
pub proof fn unlisted_is_unknown(c: ConfigModel, ext: Seq<char>)
    requires
        !c.images.contains(ascii_lower(ext)),
        !c.others.contains(ascii_lower(ext)),
    ensures
        classification(c, Some(ext)) == Classification::Unknown,
        classification(c, None) == Classification::NoExtension,
{
}

/// A number below 100 is written with exactly two digits, tens first.
pub proof fn two_digits_are_padded(n: nat)
    requires
        n < 100,
    ensures
        two_digits(n) == seq![digit_char(n / 10), digit_char(n % 10)],
{
    if n >= 10 {
        assert(decimal(n / 10) == seq![digit_char(n / 10)]);
        assert(decimal(n) =~= seq![digit_char(n / 10), digit_char(n % 10)]);
    }
}

/// The destination of a file is `destination/YYYY/MM/DD/name`, with the
/// month and the day as two digits; nothing else, in particular nothing of
/// where the file was found, enters into it.
pub proof fn target_layout(
    c: ConfigModel,
    year: int,
    month: nat,
    day: nat,
    name: Seq<char>,
    t: Target,
)
    requires
        c.destination.len() > 0,
        c.destination.last() != '/',
        1 <= month <= 12,
        1 <= day <= 31,
        is_target_for(c, year, month, day, name, t),
    ensures
        t.path@ == c.destination + seq!['/'] + signed_decimal(year) + seq!['/'] + seq![
            digit_char(month / 10),
            digit_char(month % 10),
        ] + seq!['/'] + seq![digit_char(day / 10), digit_char(day % 10)] + seq!['/'] + name,
{
    two_digits_are_padded(month);
    two_digits_are_padded(day);
    let y = signed_decimal(year);
    assert(y.len() > 0) by {
        if year < 0 {
            assert(y == seq!['-'] + decimal((-year) as nat));
        } else {
            assert(decimal(year as nat).len() > 0) by {
                reveal_with_fuel(decimal, 1);
            }
        }
    }
    let d1 = join(c.destination, y);
    assert(d1.last() == y.last());
    let d2 = join(d1, two_digits(month));
    assert(d2.last() == two_digits(month).last());
    let d3 = join(d2, two_digits(day));
    assert(d3 == day_dir(c.destination, year, month, day));
    assert(d3.last() == two_digits(day).last());
    assert(t.path@ =~= c.destination + seq!['/'] + y + seq!['/'] + two_digits(month) + seq!['/']
        + two_digits(day) + seq!['/'] + name);
}

/// With overwriting off, a file whose destination exists, as it does after
/// an earlier run placed it there, is skipped and nothing is written: a
/// second run changes nothing.
pub proof fn rerun_without_overwrite_is_noop(c: ConfigModel)
    requires
        !c.overwrite,
    ensures
        copy_action(c, true) == CopyAction::Skip,
        !writes_file(c, copy_action(c, true)),
{
}

/// With overwriting on, a file whose destination exists is copied again,
/// unless the run is a dry one.
pub proof fn rerun_with_overwrite_recopies(c: ConfigModel)
    requires
        c.overwrite,
    ensures
        copy_action(c, true) == CopyAction::Overwrite,
        writes_file(c, copy_action(c, true)) == !c.dry,
{
}

proof fn kept_are_not_skipped(c: ConfigModel, names: Seq<Seq<char>>)
    ensures
        forall|k: int| 0 <= k < kept_names(c, names).len() ==> !is_skipped(c, #[trigger] kept_names(c, names)[k]),
    decreases names.len(),
{
    if names.len() > 0 {
        kept_are_not_skipped(c, names.drop_last());
        let prev = kept_names(c, names.drop_last());
        if !is_skipped(c, names.last()) {
            assert forall|k: int| 0 <= k < kept_names(c, names).len() implies !is_skipped(
                c,
                #[trigger] kept_names(c, names)[k],
            ) by {
                if k < prev.len() {
                    assert(kept_names(c, names)[k] == prev[k]);
                }
            }
        }
    }
}

/// `join` with the same base never maps two different names to one path.
proof fn join_is_injective(dir: Seq<char>, a: Seq<char>, b: Seq<char>)
    requires
        join(dir, a) == join(dir, b),
    ensures
        a == b,
{
    let p = join(dir, a);
    let offset = p.len() - a.len();
    assert(a =~= p.subrange(offset, p.len() as int));
    assert(b =~= p.subrange(offset, p.len() as int));
}

/// An entry that is hidden or on the skip list is never put on the stack,
/// so nothing below it is ever visited.
pub proof fn skipped_entry_never_descended(c: ConfigModel, dir: Seq<char>, names: Seq<Seq<char>>, i: int)
    requires
        0 <= i < names.len(),
        is_skipped(c, names[i]),
    ensures
        !child_paths(c, dir, names).contains(join(dir, names[i])),
{
    kept_are_not_skipped(c, names);
    if child_paths(c, dir, names).contains(join(dir, names[i])) {
        let k = choose|k: int|
            0 <= k < child_paths(c, dir, names).len() && child_paths(c, dir, names)[k] == join(dir, names[i]);
        join_is_injective(dir, kept_names(c, names)[k], names[i]);
        assert(!is_skipped(c, kept_names(c, names)[k]));
    }
}

/// Entering a directory makes its first descended entry the next path to
/// visit; the remaining entries follow in listing order, each before
/// whatever was pending when the directory was entered. The walk is thus
/// depth-first and pre-order.
pub proof fn first_child_is_visited_next(
    c: ConfigModel,
    pending: Seq<Seq<char>>,
    dir: Seq<char>,
    names: Seq<Seq<char>>,
)
    requires
        child_paths(c, dir, names).len() > 0,
    ensures
        ({
            let children = child_paths(c, dir, names);
            let after = pending + children.reverse();
            &&& after.last() == children[0]
            &&& after.drop_last() == pending + children.drop_first().reverse()
        }),
{
    let children = child_paths(c, dir, names);
    assert((pending + children.reverse()).drop_last() =~= pending + children.drop_first().reverse());
}

/// A dry run decides exactly as a real one: the same classes, the same
/// entries skipped and descended into, the same destinations and the same
/// actions; but it writes no file and creates no directory.
pub proof fn dry_run_decides_alike(
    actual: ConfigModel,
    simulated: ConfigModel,
    ext: Option<Seq<char>>,
    dir: Seq<char>,
    names: Seq<Seq<char>>,
    dest_exists: bool,
    year: int,
    month: nat,
    day: nat,
    name: Seq<char>,
    t: Target,
)
    requires
        simulated == (ConfigModel { dry: true, ..actual }),
    ensures
        classification(simulated, ext) == classification(actual, ext),
        kept_names(simulated, names) == kept_names(actual, names),
        skipped_names(simulated, names) == skipped_names(actual, names),
        is_target_for(simulated, year, month, day, name, t) == is_target_for(actual, year, month, day, name, t),
        copy_action(simulated, dest_exists) == copy_action(actual, dest_exists),
        !writes_file(simulated, copy_action(simulated, dest_exists)),
        simulated.dry,
    decreases names.len(),
{
    if names.len() > 0 {
        dry_run_decides_alike(actual, simulated, ext, dir, names.drop_last(), dest_exists, year, month, day, name, t);
    }
}

} // verus!
