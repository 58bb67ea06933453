use file_organizer::Category;
use file_organizer::category_of;
use file_organizer::extension_of;
use file_organizer::date_string;
use file_organizer::Date;

#[test]
fn images_extensions() {
    assert_eq!(category_of("jpg"), Category::Images);
    assert_eq!(category_of("jpeg"), Category::Images);
    assert_eq!(category_of("png"), Category::Images);
    assert_eq!(category_of("bmp"), Category::Images);
    assert_eq!(category_of("tiff"), Category::Images);
}

#[test]
fn other_known_extensions() {
    assert_eq!(category_of("gif"), Category::Gifs);
    assert_eq!(category_of("mp4"), Category::Videos);
    assert_eq!(category_of("mov"), Category::Videos);
    assert_eq!(category_of("avi"), Category::Videos);
    assert_eq!(category_of("mkv"), Category::Videos);
    assert_eq!(category_of("mp3"), Category::Audio);
    assert_eq!(category_of("wav"), Category::Audio);
    assert_eq!(category_of("flac"), Category::Audio);
    assert_eq!(category_of("pdf"), Category::Documents);
    assert_eq!(category_of("docx"), Category::Documents);
    assert_eq!(category_of("txt"), Category::Documents);
    assert_eq!(category_of("zip"), Category::Archives);
    assert_eq!(category_of("rar"), Category::Archives);
    assert_eq!(category_of("7z"), Category::Archives);
}

#[test]
fn extension_match_is_case_insensitive() {
    assert_eq!(category_of("JPG"), Category::Images);
    assert_eq!(category_of("Jpeg"), Category::Images);
    assert_eq!(category_of("MP4"), Category::Videos);
    assert_eq!(category_of("PdF"), Category::Documents);
    assert_eq!(category_of("7Z"), Category::Archives);
}

#[test]
fn unknown_and_empty_extensions_fall_to_others() {
    assert_eq!(category_of("unknownext"), Category::Others);
    assert_eq!(category_of("exe"), Category::Others);
    assert_eq!(category_of(""), Category::Others);
    assert_eq!(category_of("jpg2"), Category::Others);
}

#[test]
fn extension_of_simple_names() {
    assert_eq!(extension_of("photo.jpg"), "jpg");
    assert_eq!(extension_of("archive.tar.gz"), "gz");
    assert_eq!(extension_of("a.b.C"), "C");
}

#[test]
fn extension_of_names_without_extension() {
    assert_eq!(extension_of("README"), "");
    assert_eq!(extension_of(".gitignore"), "");
    assert_eq!(extension_of(""), "");
}

#[test]
fn extension_of_trailing_dot_is_empty() {
    assert_eq!(extension_of("note."), "");
}

#[test]
fn date_string_is_zero_padded_iso() {
    let d = Date { year: 2025, month: 10, day: 25 };
    assert_eq!(date_string(&d).as_str(), "2025-10-25");
    let e = Date { year: 7, month: 1, day: 2 };
    assert_eq!(date_string(&e).as_str(), "0007-01-02");
}

#[test]
fn date_string_handles_wide_and_negative_years() {
    let d = Date { year: 12345, month: 12, day: 31 };
    assert_eq!(date_string(&d).as_str(), "12345-12-31");
    let e = Date { year: -44, month: 3, day: 15 };
    assert_eq!(date_string(&e).as_str(), "-0044-03-15");
}
