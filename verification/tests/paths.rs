use sunzip::paths::{
    archive_base_name, check_output, destination_for, entry_name_for, flatten_sources,
    judge_output, OutputRefusal,
};

#[test]
fn ascent_prefixes_are_stripped() {
    assert_eq!(entry_name_for("../x/f.txt"), "x/f.txt");
    assert_eq!(entry_name_for("../y/f.txt"), "y/f.txt");
    assert_eq!(entry_name_for("../../x/f.txt"), "x/f.txt");
}

#[test]
fn sources_that_differ_only_in_ascent_collide() {
    assert_eq!(entry_name_for("../x/f.txt"), entry_name_for("../../x/f.txt"));
    assert_eq!(entry_name_for("x/f.txt"), entry_name_for("../x/f.txt"));
    assert_ne!(entry_name_for("../x/f.txt"), entry_name_for("../y/f.txt"));
}

#[test]
fn names_inside_the_working_directory_stay() {
    assert_eq!(entry_name_for("a.txt"), "a.txt");
    assert_eq!(entry_name_for("sub/b.txt"), "sub/b.txt");
    assert_eq!(entry_name_for(""), "");
    assert_eq!(entry_name_for(".."), "..");
    assert_eq!(entry_name_for("./a"), "./a");
    assert_eq!(entry_name_for("a..b/c"), "a..b/c");
}

#[test]
fn every_ascent_marker_goes_in_one_pass() {
    assert_eq!(entry_name_for("a/../b"), "a/b");
    assert_eq!(entry_name_for("../"), "");
    assert_eq!(entry_name_for("../../"), "");
    assert_eq!(entry_name_for(".../x"), ".x");
    assert_eq!(entry_name_for("....//"), "../");
    assert_eq!(entry_name_for("..././x"), "../x");
    assert_eq!(entry_name_for("\u{e9}../\u{fc}/../z"), "\u{e9}\u{fc}/z");
}

#[test]
fn entry_names_agree_with_plain_replacement() {
    let samples = [
        "", ".", "..", "../", "/..", "/../", "../..", "..//..", "......///", "a/../../b/..",
        "../../../deep/file.bin", "..\\x", "\u{2026}/../x", "x/\u{1f600}../y",
    ];
    for sample in samples {
        assert_eq!(entry_name_for(sample), sample.replace("../", ""));
    }
}

#[test]
fn destination_is_root_then_entry() {
    assert_eq!(destination_for("a.txt", "archive", "/tmp/work"), "/tmp/work/archive/a.txt");
    assert_eq!(
        destination_for("sub/b.txt", "archive", "/tmp/work"),
        "/tmp/work/archive/sub/b.txt"
    );
    assert_eq!(destination_for("sub/b.txt", "backup", "work"), "work/backup/sub/b.txt");
}

#[test]
fn base_name_drops_directory_and_extension() {
    assert_eq!(archive_base_name("/tmp/work/archive.7z"), "archive");
    assert_eq!(archive_base_name("archive.7z"), "archive");
    assert_eq!(archive_base_name("/tmp/work/archive"), "archive");
    assert_eq!(archive_base_name("/tmp/work/photos.2024.7z"), "photos.2024");
}

#[test]
fn unrecognized_extension_is_refused_before_anything_else() {
    let zip = Err(OutputRefusal::UnrecognizedExtension(".zip".to_string()));
    for is_file in [false, true] {
        for is_directory in [false, true] {
            for force in [false, true] {
                assert_eq!(check_output("/tmp/out.zip", is_file, is_directory, force), zip);
                assert_eq!(judge_output(Some(".zip"), is_file, is_directory, force), zip);
            }
        }
    }
    assert_eq!(
        judge_output(Some(".7Z"), false, false, false),
        Err(OutputRefusal::UnrecognizedExtension(".7Z".to_string()))
    );
    assert_eq!(
        judge_output(Some("7z"), false, false, false),
        Err(OutputRefusal::UnrecognizedExtension("7z".to_string()))
    );
}

#[test]
fn only_the_canonical_extension_is_accepted() {
    assert_eq!(check_output("/tmp/out.7z", false, false, false), Ok(()));
    assert_eq!(check_output("out.7z", false, false, true), Ok(()));
    assert_eq!(judge_output(Some(".7z"), false, false, false), Ok(()));
}

#[test]
fn missing_extension_is_refused_before_anything_else() {
    let none = Err(OutputRefusal::UnrecognizedExtension(String::new()));
    for is_file in [false, true] {
        for is_directory in [false, true] {
            for force in [false, true] {
                assert_eq!(check_output("/tmp/out", is_file, is_directory, force), none);
                assert_eq!(judge_output(None, is_file, is_directory, force), none);
            }
        }
    }
    assert_eq!(check_output("/tmp/archive.7z/out", false, false, false), none);
}

#[test]
fn existing_file_needs_force() {
    assert_eq!(check_output("/tmp/out.7z", true, false, false), Err(OutputRefusal::AlreadyExists));
    assert_eq!(check_output("/tmp/out.7z", true, false, true), Ok(()));
    assert_eq!(judge_output(Some(".7z"), true, false, false), Err(OutputRefusal::AlreadyExists));
    assert_eq!(judge_output(Some(".7z"), true, true, false), Err(OutputRefusal::AlreadyExists));
    assert_eq!(judge_output(Some(".7z"), true, true, true), Err(OutputRefusal::IsFolder));
}

#[test]
fn directory_is_never_replaced() {
    assert_eq!(check_output("/tmp/out.7z", false, true, false), Err(OutputRefusal::IsFolder));
    assert_eq!(check_output("/tmp/out.7z", false, true, true), Err(OutputRefusal::IsFolder));
    assert_eq!(judge_output(Some(".7z"), false, true, true), Err(OutputRefusal::IsFolder));
}

#[test]
fn refusals_read_as_lines() {
    assert_eq!(
        OutputRefusal::UnrecognizedExtension(".zip".to_string()).describe("out.zip"),
        "out.zip has an unrecognized extension .zip"
    );
    assert_eq!(
        OutputRefusal::UnrecognizedExtension(String::new()).describe("out"),
        "out has an unrecognized extension "
    );
    assert_eq!(OutputRefusal::AlreadyExists.describe("/tmp/out.7z"), "/tmp/out.7z already exists");
    assert_eq!(OutputRefusal::IsFolder.describe("/tmp/out.7z"), "/tmp/out.7z is a folder");
}

#[test]
fn sources_keep_the_order_of_the_listings() {
    let listings = vec![
        vec!["/w/a.txt".to_string()],
        vec![],
        vec!["/w/sub/c.txt".to_string(), "/w/sub/b.txt".to_string()],
        vec!["/w/a.txt".to_string()],
    ];
    assert_eq!(
        flatten_sources(&listings),
        vec!["/w/a.txt", "/w/sub/c.txt", "/w/sub/b.txt", "/w/a.txt"]
    );
    assert!(flatten_sources(&Vec::new()).is_empty());
    assert!(flatten_sources(&vec![Vec::new(), Vec::new()]).is_empty());
}
