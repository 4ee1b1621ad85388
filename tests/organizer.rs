use photo_sort::calendar::{epoch_seconds, CivilDate};
use photo_sort::classify::{classify, normalize_extension, Classification};
use photo_sort::config::Config;
use photo_sort::organize::{
    creates_dirs, decide_copy, performs_write, plan_image, target_for_date, CopyAction, ImagePlan,
};
use photo_sort::text::{
    decimal_string, join_path, signed_decimal_string, split_list, two_digit_string,
};
use photo_sort::walk::{skips_entry, Walk};

fn config(dest: &str, dry: bool, min_size: u64) -> Config {
    Config::new(
        dest.to_string(),
        "jpg|jpeg|cr2|mp4",
        "xmp|cocatalogdb|backup 1",
        "Cache|Thumbnails",
        dry,
        min_size,
    )
}

fn placed(plan: ImagePlan) -> (String, String) {
    match plan {
        ImagePlan::Place(t) => (t.dir, t.path),
        ImagePlan::TooSmall => panic!("unexpected: too small"),
        ImagePlan::NoTimestamp => panic!("unexpected: no timestamp"),
    }
}

// 2022-07-01T00:00:00Z
const JULY_FIRST_2022: i64 = 1_656_633_600;
// 2023-03-05T12:00:00Z
const MARCH_FIFTH_2023: i64 = 1_678_017_600;

#[test]
fn split_list_keeps_empty_pieces() {
    assert_eq!(split_list("a|bc||d"), vec!["a", "bc", "", "d"]);
    assert_eq!(split_list(""), vec![""]);
    assert_eq!(split_list("one"), vec!["one"]);
    assert_eq!(split_list("x|"), vec!["x", ""]);
}

#[test]
fn config_new_reads_lists() {
    let c = config("/dest", true, 40960);
    assert_eq!(c.destination, "/dest");
    assert_eq!(c.image_extensions, vec!["jpg", "jpeg", "cr2", "mp4"]);
    assert_eq!(c.other_extensions, vec!["xmp", "cocatalogdb", "backup 1"]);
    assert_eq!(c.folders_to_skip, vec!["Cache", "Thumbnails"]);
    assert_eq!(c.min_size, 40960);
    assert!(c.dry);
    assert!(!c.overwrite);
    let c = c.with_overwrite(true);
    assert!(c.overwrite);
    assert!(c.dry);
}

#[test]
fn image_extensions_match_in_any_case() {
    let c = config("dest", false, 0);
    for e in ["jpg", "JPG", "Jpg", "jPg", "CR2", "Mp4", "JPEG"] {
        assert_eq!(classify(&c, Some(e)), Classification::Image, "{}", e);
    }
}

#[test]
fn other_known_unknown_and_none() {
    let c = config("dest", false, 0);
    assert_eq!(classify(&c, Some("XMP")), Classification::KnownOther);
    assert_eq!(classify(&c, Some("backup 1")), Classification::KnownOther);
    assert_eq!(classify(&c, Some("txt")), Classification::Unknown);
    assert_eq!(classify(&c, Some("")), Classification::Unknown);
    assert_eq!(classify(&c, Some("jpgx")), Classification::Unknown);
    assert_eq!(classify(&c, None), Classification::NoExtension);
}

#[test]
fn image_set_is_consulted_first() {
    let c = Config::new("d".to_string(), "raw", "raw|xmp", "", false, 0);
    assert_eq!(classify(&c, Some("RAW")), Classification::Image);
}

#[test]
fn normalize_extension_lowers_ascii_only() {
    assert_eq!(normalize_extension("JPeG"), "jpeg");
    assert_eq!(normalize_extension("ÉTÉ"), "ÉtÉ");
    assert_eq!(normalize_extension("a1_B"), "a1_b");
}

#[test]
fn number_formatting() {
    assert_eq!(decimal_string(0), "0");
    assert_eq!(decimal_string(2022), "2022");
    assert_eq!(decimal_string(u32::MAX), "4294967295");
    assert_eq!(signed_decimal_string(-44), "-44");
    assert_eq!(signed_decimal_string(i32::MIN), "-2147483648");
    assert_eq!(two_digit_string(7), "07");
    assert_eq!(two_digit_string(12), "12");
    assert_eq!(two_digit_string(0), "00");
}

#[test]
fn join_path_adds_one_separator() {
    assert_eq!(join_path("dest", "2022"), "dest/2022");
    assert_eq!(join_path("dest/", "2022"), "dest/2022");
    assert_eq!(join_path("", "2022"), "2022");
    assert_eq!(join_path("/", "x"), "/x");
}

#[test]
fn target_is_zero_padded_date_path() {
    let c = config("dest", false, 0);
    let date = CivilDate { year: 2023, month: 3, day: 5 };
    let t = target_for_date(&c, date, "name.jpg");
    assert_eq!(t.dir, "dest/2023/03/05");
    assert_eq!(t.path, "dest/2023/03/05/name.jpg");
    let c = config("/media/out/", false, 0);
    let t = target_for_date(&c, CivilDate { year: 1999, month: 12, day: 31 }, "a.CR2");
    assert_eq!(t.path, "/media/out/1999/12/31/a.CR2");
}

#[test]
fn plan_uses_modification_date() {
    let c = config("dest", false, 0);
    let (dir, path) = placed(plan_image(&c, "name.jpg", 10, Some(MARCH_FIFTH_2023)));
    assert_eq!(dir, "dest/2023/03/05");
    assert_eq!(path, "dest/2023/03/05/name.jpg");
}

#[test]
fn plan_before_epoch() {
    let c = config("dest", false, 0);
    let (_, path) = placed(plan_image(&c, "old.jpg", 10, Some(-1)));
    assert_eq!(path, "dest/1969/12/31/old.jpg");
}

#[test]
fn plan_without_date() {
    let c = config("dest", false, 0);
    assert!(matches!(plan_image(&c, "a.jpg", 10, None), ImagePlan::NoTimestamp));
    assert!(matches!(plan_image(&c, "a.jpg", 10, Some(i64::MAX)), ImagePlan::NoTimestamp));
}

#[test]
fn too_small_is_never_placed() {
    let c = config("dest", false, 10240);
    assert!(matches!(plan_image(&c, "a.jpg", 10239, Some(0)), ImagePlan::TooSmall));
    assert!(matches!(plan_image(&c, "a.jpg", 0, None), ImagePlan::TooSmall));
    assert!(matches!(plan_image(&c, "a.jpg", 10240, Some(0)), ImagePlan::Place(_)));
}

#[test]
fn end_to_end_copy_decision() {
    let c = config("dest", false, 10240);
    assert_eq!(classify(&c, Some("JPG")), Classification::Image);
    let (dir, path) = placed(plan_image(&c, "photo.JPG", 2 * 1024 * 1024, Some(JULY_FIRST_2022)));
    assert_eq!(dir, "dest/2022/07/01");
    assert_eq!(path, "dest/2022/07/01/photo.JPG");
    assert!(creates_dirs(&c));
    let action = decide_copy(&c, false);
    assert_eq!(action, CopyAction::Copy);
    assert!(performs_write(&c, action));
}

#[test]
fn end_to_end_too_small() {
    let c = config("dest", false, 10240);
    assert_eq!(classify(&c, Some("JPG")), Classification::Image);
    assert!(matches!(
        plan_image(&c, "photo.JPG", 500, Some(JULY_FIRST_2022)),
        ImagePlan::TooSmall
    ));
}

#[test]
fn second_run_without_overwrite_skips() {
    let c = config("dest", false, 0);
    assert_eq!(decide_copy(&c, true), CopyAction::Skip);
    assert!(!performs_write(&c, CopyAction::Skip));
}

#[test]
fn second_run_with_overwrite_recopies() {
    let c = config("dest", false, 0).with_overwrite(true);
    let action = decide_copy(&c, true);
    assert_eq!(action, CopyAction::Overwrite);
    assert!(performs_write(&c, action));
    assert_eq!(decide_copy(&c, false), CopyAction::Copy);
}

#[test]
fn dry_run_decides_but_does_not_write() {
    let live = config("dest", false, 0).with_overwrite(true);
    let dry = config("dest", true, 0).with_overwrite(true);
    for exists in [false, true] {
        let a = decide_copy(&live, exists);
        let b = decide_copy(&dry, exists);
        assert_eq!(a, b);
        assert!(!performs_write(&dry, b));
    }
    assert!(!creates_dirs(&dry));
    let (_, p1) = placed(plan_image(&live, "x.jpg", 1, Some(JULY_FIRST_2022)));
    let (_, p2) = placed(plan_image(&dry, "x.jpg", 1, Some(JULY_FIRST_2022)));
    assert_eq!(p1, p2);
}

#[test]
fn hidden_and_listed_entries_are_skipped() {
    let c = config("dest", false, 0);
    assert!(skips_entry(&c, &".git".to_string()));
    assert!(skips_entry(&c, &"Cache".to_string()));
    assert!(!skips_entry(&c, &"cache".to_string()));
    assert!(!skips_entry(&c, &"Cache2".to_string()));
    assert!(!skips_entry(&c, &"".to_string()));
    assert!(!skips_entry(&c, &"a.b".to_string()));
}

#[test]
fn walk_visits_in_listing_order_and_skips() {
    let c = config("dest", false, 0);
    let mut w = Walk::new("src".to_string());
    assert_eq!(w.next_path(), Some("src".to_string()));
    assert!(w.is_done());
    let names = vec![
        ".hidden".to_string(),
        "a".to_string(),
        "Cache".to_string(),
        "b.jpg".to_string(),
    ];
    let skipped = w.enter_dir(&c, "src", names);
    assert_eq!(skipped, vec![".hidden", "Cache"]);
    assert_eq!(w.next_path(), Some("src/a".to_string()));
    let skipped = w.enter_dir(&c, "src/a", vec!["photo.JPG".to_string(), "Thumbnails".to_string()]);
    assert_eq!(skipped, vec!["Thumbnails"]);
    assert_eq!(w.next_path(), Some("src/a/photo.JPG".to_string()));
    assert_eq!(w.next_path(), Some("src/b.jpg".to_string()));
    assert_eq!(w.next_path(), None);
    assert!(w.is_done());
}

#[test]
fn epoch_seconds_round_down() {
    assert_eq!(epoch_seconds(false, 5, 999), Some(5));
    assert_eq!(epoch_seconds(true, 5, 0), Some(-5));
    assert_eq!(epoch_seconds(true, 5, 1), Some(-6));
    assert_eq!(epoch_seconds(false, u64::MAX, 0), None);
    assert_eq!(epoch_seconds(true, 1u64 << 63, 0), Some(i64::MIN));
    assert_eq!(epoch_seconds(true, 1u64 << 63, 1), None);
}
