use riot_wrappers::error::{negative_to_error, NumericError};
use riot_wrappers::vfs::{
    mount_point, Dirent, DirentNameError, File, MountPointError, SeekFrom, Stat, Whence,
};

fn entry(bytes: &[u8]) -> Dirent {
    Dirent::read(1, bytes.to_vec()).unwrap()
}

fn error_number<T: std::fmt::Debug>(result: Result<T, NumericError>) -> isize {
    result.unwrap_err().number()
}

#[test]
fn negative_to_error_keeps_what_is_not_negative() {
    assert_eq!(negative_to_error(0), Ok(0));
    assert_eq!(negative_to_error(17), Ok(17));
    assert_eq!(negative_to_error(isize::MAX), Ok(isize::MAX));
}

#[test]
fn negative_to_error_reports_what_is_negative() {
    assert_eq!(error_number(negative_to_error(-1)), -1);
    assert_eq!(error_number(negative_to_error(-22)), -22);
    assert_eq!(error_number(negative_to_error(isize::MIN)), isize::MIN);
}

#[test]
fn numeric_errors_are_equal_when_their_numbers_are() {
    assert_eq!(negative_to_error(-5), negative_to_error(-5));
    assert_ne!(negative_to_error(-5), negative_to_error(-6));
}

#[test]
fn open_keeps_the_descriptor() {
    assert_eq!(File::open(3).unwrap().fileno(), 3);
    assert_eq!(File::open(0).unwrap().fileno(), 0);
    assert_eq!(File::open(i32::MAX).unwrap().fileno(), i32::MAX);
}

#[test]
fn open_reports_the_error() {
    assert_eq!(error_number(File::open(-2)), -2);
    assert_eq!(error_number(File::open(i32::MIN)), i32::MIN as isize);
}

#[test]
fn stat_gives_what_the_kernel_filled_in() {
    let file = File::open(3).unwrap();
    let stat = file.stat(0, Stat { st_size: 1234 }).unwrap();
    assert_eq!(stat, Stat { st_size: 1234 });
    assert_eq!(stat.size(), 1234);
}

#[test]
fn stat_reports_the_error() {
    let file = File::open(3).unwrap();
    assert_eq!(error_number(file.stat(-9, Stat { st_size: 1234 })), -9);
}

#[test]
fn read_gives_the_number_of_bytes() {
    let mut file = File::open(3).unwrap();
    assert_eq!(file.read(0), Ok(0));
    assert_eq!(file.read(64), Ok(64));
    assert_eq!(file.read(isize::MAX), Ok(isize::MAX as usize));
    assert_eq!(file.fileno(), 3);
}

#[test]
fn read_reports_the_error() {
    let mut file = File::open(3).unwrap();
    assert_eq!(error_number(file.read(-5)), -5);
    assert_eq!(file.fileno(), 3);
}

#[test]
fn seek_gives_the_new_position() {
    let mut file = File::open(4).unwrap();
    assert_eq!(file.seek(0), Ok(0));
    assert_eq!(file.seek(4096), Ok(4096));
    assert_eq!(file.fileno(), 4);
}

#[test]
fn seek_reports_the_error() {
    let mut file = File::open(4).unwrap();
    assert_eq!(error_number(file.seek(-22)), -22);
}

#[test]
fn seek_from_the_start() {
    assert_eq!(SeekFrom::Start(0).offset_and_whence(), (0, Whence::Start));
    assert_eq!(SeekFrom::Start(100).offset_and_whence(), (100, Whence::Start));
    assert_eq!(
        SeekFrom::Start(isize::MAX as usize).offset_and_whence(),
        (isize::MAX, Whence::Start)
    );
}

#[test]
fn seek_from_the_start_wraps_past_the_largest_offset() {
    assert_eq!(
        SeekFrom::Start(isize::MAX as usize + 1).offset_and_whence(),
        (isize::MIN, Whence::Start)
    );
    assert_eq!(SeekFrom::Start(usize::MAX).offset_and_whence(), (-1, Whence::Start));
}

#[test]
fn seek_from_the_cursor() {
    assert_eq!(SeekFrom::Current(-3).offset_and_whence(), (-3, Whence::Current));
    assert_eq!(SeekFrom::Current(8).offset_and_whence(), (8, Whence::Current));
}

#[test]
fn seek_from_the_end() {
    assert_eq!(SeekFrom::End(0).offset_and_whence(), (0, Whence::End));
    assert_eq!(SeekFrom::End(-10).offset_and_whence(), (-10, Whence::End));
}

#[test]
fn a_directory_entry_is_read_on_a_positive_answer() {
    assert!(Dirent::read(1, b"a\0".to_vec()).is_some());
    assert!(Dirent::read(i32::MAX, b"a\0".to_vec()).is_some());
}

#[test]
fn a_directory_ends_on_zero_or_an_error() {
    assert!(Dirent::read(0, b"a\0".to_vec()).is_none());
    assert!(Dirent::read(-1, b"a\0".to_vec()).is_none());
    assert!(Dirent::read(i32::MIN, b"a\0".to_vec()).is_none());
}

#[test]
fn name_ends_at_the_first_zero_byte() {
    assert_eq!(entry(b"notes.txt\0").name(), "notes.txt");
    assert_eq!(entry(b"a\0b\0").name(), "a");
    assert_eq!(entry(b"log\0\0\0\0\0").name(), "log");
    assert_eq!(entry(b"log\0garbage").try_name(), Ok("log"));
}

#[test]
fn name_drops_the_slashes_at_its_start() {
    assert_eq!(entry(b"/notes.txt\0").name(), "notes.txt");
    assert_eq!(entry(b"///notes.txt\0").name(), "notes.txt");
}

#[test]
fn name_keeps_the_slashes_further_on() {
    assert_eq!(entry(b"/a/b/\0").name(), "a/b/");
    assert_eq!(entry(b"a//b\0").name(), "a//b");
}

#[test]
fn name_of_nothing_but_slashes_is_empty() {
    assert_eq!(entry(b"/\0").name(), "");
    assert_eq!(entry(b"////\0").name(), "");
}

#[test]
fn name_may_be_empty() {
    assert_eq!(entry(b"\0").name(), "");
    assert_eq!(entry(b"\0/x").name(), "");
}

#[test]
fn name_may_go_beyond_ascii() {
    let mut bytes = "/\u{fc}bung/\u{2603}".as_bytes().to_vec();
    bytes.push(0);
    assert_eq!(entry(&bytes).name(), "\u{fc}bung/\u{2603}");
    assert_eq!(entry(&bytes).try_name(), Ok("\u{fc}bung/\u{2603}"));
}

#[test]
fn name_without_a_zero_byte() {
    assert_eq!(entry(b"notes.txt").try_name(), Err(DirentNameError::NotTerminated));
    assert_eq!(entry(b"").try_name(), Err(DirentNameError::NotTerminated));
}

#[test]
fn name_that_is_no_text() {
    assert_eq!(entry(&[0x2f, 0xff, 0x00]).try_name(), Err(DirentNameError::NotUtf8));
    assert_eq!(entry(&[0xe2, 0x98, 0x00]).try_name(), Err(DirentNameError::NotUtf8));
}

#[test]
fn a_missing_zero_byte_is_found_before_bad_text() {
    assert_eq!(entry(&[0x61, 0xff]).try_name(), Err(DirentNameError::NotTerminated));
}

#[test]
fn bad_text_behind_the_zero_byte_does_not_count() {
    assert_eq!(entry(&[0x2f, 0x61, 0x00, 0xff, 0xfe]).try_name(), Ok("a"));
}

#[test]
fn mount_point_reads_the_path() {
    assert_eq!(mount_point(Some(b"/nvm0")), Ok("/nvm0"));
    assert_eq!(mount_point(Some(b"/")), Ok("/"));
    assert_eq!(mount_point(Some(b"")), Ok(""));
    assert_eq!(mount_point(Some("/\u{fc}ber".as_bytes())), Ok("/\u{fc}ber"));
}

#[test]
fn mount_point_without_a_path() {
    assert_eq!(mount_point(None), Err(MountPointError::Null));
}

#[test]
fn mount_point_that_is_no_text() {
    assert_eq!(mount_point(Some(&[0x2f, 0xff])), Err(MountPointError::NotUtf8));
    assert_eq!(mount_point(Some(&[0x2f, 0xe2, 0x98])), Err(MountPointError::NotUtf8));
}
