//! Where an image file goes, and what happens to it there.
use vstd::prelude::*;

use crate::calendar::{utc_date, utc_date_of, CivilDate, DATE_RANGE_SECS};
use crate::config::{Config, ConfigModel};
use crate::text::{join, join_path, signed_decimal, signed_decimal_string, two_digit_string, two_digits};

verus! {

/// The destination of one file: the day directory and the file's path in it.
pub struct Target {
    pub dir: String,
    pub path: String,
}

/// The day directory `destination/YYYY/MM/DD` for a date, with the month
/// and the day zero-padded to two digits.
pub open spec fn day_dir(destination: Seq<char>, year: int, month: nat, day: nat) -> Seq<char> {
    join(join(join(destination, signed_decimal(year)), two_digits(month)), two_digits(day))
}

/// Whether `t` is the destination of a file named `name` dated `date` under
/// the settings `c`.
pub open spec fn is_target_for(c: ConfigModel, year: int, month: nat, day: nat, name: Seq<char>, t: Target) -> bool {
    &&& t.dir@ == day_dir(c.destination, year, month, day)
    &&& t.path@ == join(t.dir@, name)
}

/// The destination of a file named `file_name` dated `date`. The name is
/// kept as it is; only the date decides the directory.
pub fn target_for_date(config: &Config, date: CivilDate, file_name: &str) -> (r: Target)
    ensures
        is_target_for(config@, date.year as int, date.month as nat, date.day as nat, file_name@, r),
{
    let year = signed_decimal_string(date.year);
    let month = two_digit_string(date.month);
    let day = two_digit_string(date.day);
    let d1 = join_path(config.destination.as_str(), year.as_str());
    let d2 = join_path(d1.as_str(), month.as_str());
    let dir = join_path(d2.as_str(), day.as_str());
    let path = join_path(dir.as_str(), file_name);
    Target { dir, path }
}

/// What is to be done with a file classified as an image.
pub enum ImagePlan {
    /// Smaller than the configured minimum: never copied.
    TooSmall,
    /// No date could be found for the file: skipped and reported.
    NoTimestamp,
    /// Goes to this destination.
    Place(Target),
}

/// Plans an image file of `size` bytes named `file_name` whose last
/// modification lies `mtime` whole seconds after the epoch, when that time
/// is known.
pub fn plan_image(config: &Config, file_name: &str, size: u64, mtime: Option<i64>) -> (r: ImagePlan)
    ensures
        (size < config.min_size) <==> r is TooSmall,
        size >= config.min_size && mtime is None ==> r is NoTimestamp,
        size >= config.min_size && mtime is Some && -DATE_RANGE_SECS <= mtime->0 <= DATE_RANGE_SECS
            ==> r is Place,
        r is NoTimestamp ==> mtime is None || !(-DATE_RANGE_SECS <= mtime->0 <= DATE_RANGE_SECS),
        r is Place ==> {
            let (year, month, day) = utc_date_of(mtime->0 as int);
            &&& mtime is Some
            &&& 1 <= month <= 12
            &&& 1 <= day <= 31
            &&& is_target_for(config@, year, month as nat, day as nat, file_name@, r->Place_0)
        },
{
    if size < config.min_size {
        return ImagePlan::TooSmall;
    }
    match mtime {
        None => ImagePlan::NoTimestamp,
        Some(secs) => match utc_date(secs) {
            None => ImagePlan::NoTimestamp,
            Some(date) => ImagePlan::Place(target_for_date(config, date, file_name)),
        },
    }
}

/// What is decided for a file whose destination is known.
#[derive(Clone, Copy, Debug, PartialEq, Eq, Structural)]
pub enum CopyAction {
    /// The destination is free: copy the file there.
    Copy,
    /// The destination is taken and overwriting is on: replace it.
    Overwrite,
    /// The destination is taken and overwriting is off: leave it.
    Skip,
}

/// The action for a destination that exists or not, under the settings `c`.
pub open spec fn copy_action(c: ConfigModel, dest_exists: bool) -> CopyAction {
    if !dest_exists {
        CopyAction::Copy
    } else if c.overwrite {
        CopyAction::Overwrite
    } else {
        CopyAction::Skip
    }
}

/// Decides what to do with a file whose destination exists or not.
pub fn decide_copy(config: &Config, dest_exists: bool) -> (r: CopyAction)
    ensures
        r == copy_action(config@, dest_exists),
{
    if !dest_exists {
        CopyAction::Copy
    } else if config.overwrite {
        CopyAction::Overwrite
    } else {
        CopyAction::Skip
    }
}

/// Whether the action writes a file under the settings `c`: never in a dry
/// run, and never for [`CopyAction::Skip`].
pub open spec fn writes_file(c: ConfigModel, action: CopyAction) -> bool {
    !c.dry && action != CopyAction::Skip
}

/// Whether `action` is to be carried out on disk.
pub fn performs_write(config: &Config, action: CopyAction) -> (r: bool)
    ensures
        r == writes_file(config@, action),
{
    !config.dry && action != CopyAction::Skip
}

/// Whether a destination's day directory is to be created: in every run but
/// a dry one.
pub fn creates_dirs(config: &Config) -> (r: bool)
    ensures
        r == !config@.dry,
{
    !config.dry
}

} // verus!
