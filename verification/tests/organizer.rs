use file_organizer::Category;
use file_organizer::ContentHasher;
use file_organizer::Date;
use file_organizer::Destination;
use file_organizer::FileMeta;
use file_organizer::PlannedMove;
use file_organizer::SeenDigests;
use file_organizer::dest_dir;
use file_organizer::dest_path;
use file_organizer::move_decision;
use file_organizer::plan_pass;
use file_organizer::rel_dest;
use file_organizer::route_file;

fn meta(name: &str, content: &[u8], date: Date) -> FileMeta {
    let mut h = ContentHasher::new();
    h.update(content);
    FileMeta { name: name.to_owned(), digest: h.finalize_hex(), modified: date }
}

fn day(d: u8) -> Date {
    Date { year: 2025, month: 10, day: d }
}

#[test]
fn scenario_duplicates_and_categories() {
    let files = vec![
        meta("a.jpg", b"same bytes", day(1)),
        meta("b.jpg", b"same bytes", day(2)),
        meta("c.txt", b"text", day(3)),
        meta("d.unknownext", b"data", day(4)),
    ];
    let plan: Vec<PlannedMove> = plan_pass(&files);
    assert_eq!(plan.len(), 4);
    assert_eq!(plan[0].name.as_str(), "a.jpg");
    assert_eq!(plan[0].dest, Destination::Classified(Category::Images, day(1)));
    assert_eq!(plan[1].name.as_str(), "b.jpg");
    assert_eq!(plan[1].dest, Destination::Duplicates);
    assert_eq!(plan[2].dest, Destination::Classified(Category::Documents, day(3)));
    assert_eq!(plan[3].dest, Destination::Classified(Category::Others, day(4)));
}

#[test]
fn exactly_one_copy_escapes_duplicates() {
    let files = vec![
        meta("x.png", b"payload", day(5)),
        meta("y.mp3", b"payload", day(6)),
        meta("z", b"payload", day(7)),
    ];
    let plan = plan_pass(&files);
    let originals = plan.iter().filter(|p| p.dest != Destination::Duplicates).count();
    assert_eq!(originals, 1);
    assert_eq!(plan[0].dest, Destination::Classified(Category::Images, day(5)));
    assert_eq!(plan[1].dest, Destination::Duplicates);
    assert_eq!(plan[2].dest, Destination::Duplicates);
}

#[test]
fn duplicate_check_precedes_classification() {
    // the second file's extension differs and would map elsewhere, yet it is
    // routed to duplicates because its bytes repeat the first file's
    let files = vec![meta("a.txt", b"bytes", day(1)), meta("b.zip", b"bytes", day(1))];
    let plan = plan_pass(&files);
    assert_eq!(plan[0].dest, Destination::Classified(Category::Documents, day(1)));
    assert_eq!(plan[1].dest, Destination::Duplicates);
}

#[test]
fn distinct_content_is_classified_by_extension() {
    let files = vec![
        meta("one.gif", b"1", day(9)),
        meta("two.ZIP", b"2", day(10)),
        meta("three", b"3", day(11)),
    ];
    let plan = plan_pass(&files);
    assert_eq!(plan[0].dest, Destination::Classified(Category::Gifs, day(9)));
    assert_eq!(plan[1].dest, Destination::Classified(Category::Archives, day(10)));
    assert_eq!(plan[2].dest, Destination::Classified(Category::Others, day(11)));
}

#[test]
fn empty_listing_plans_nothing() {
    let files: Vec<FileMeta> = vec![];
    let plan = plan_pass(&files);
    assert_eq!(plan.len(), 0);
}

#[test]
fn route_file_records_first_seen_digest_only() {
    let mut seen = SeenDigests::new();
    let first = meta("a.pdf", b"doc", day(2));
    let second = meta("b.mov", b"doc", day(3));
    let third = meta("c.wav", b"song", day(4));
    let d1 = route_file(&mut seen, "a.pdf", first.digest.clone(), first.modified);
    assert_eq!(d1, Destination::Classified(Category::Documents, day(2)));
    let d2 = route_file(&mut seen, "b.mov", second.digest.clone(), second.modified);
    assert_eq!(d2, Destination::Duplicates);
    let d3 = route_file(&mut seen, "c.wav", third.digest.clone(), third.modified);
    assert_eq!(d3, Destination::Classified(Category::Audio, day(4)));
}

#[test]
fn seen_digests_membership() {
    let mut seen = SeenDigests::new();
    let a = "aa".to_owned();
    let b = "bb".to_owned();
    assert!(!seen.contains(&a));
    seen.insert(a.clone());
    assert!(seen.contains(&a));
    assert!(!seen.contains(&b));
}

#[test]
fn move_is_skipped_exactly_when_destination_exists() {
    assert!(move_decision(false));
    assert!(!move_decision(true));
}

#[test]
fn destination_paths() {
    let dup = Destination::Duplicates;
    let img = Destination::Classified(Category::Images, day(25));
    assert_eq!(rel_dest(&dup).as_str(), "duplicates");
    assert_eq!(rel_dest(&img).as_str(), "images/2025-10-25");
    assert_eq!(dest_dir("./Downloads", &img).as_str(), "./Downloads/images/2025-10-25");
    assert_eq!(
        dest_path("./Downloads", &img, "a.jpg").as_str(),
        "./Downloads/images/2025-10-25/a.jpg"
    );
    assert_eq!(dest_path("base", &dup, "b.jpg").as_str(), "base/duplicates/b.jpg");
}
