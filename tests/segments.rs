use std::collections::HashMap;

use segmented_output::digits::zero_padded_digits;
use segmented_output::paths::{segment_file_name, segment_path, split_stem_ext};
use segmented_output::{Args, Attempt, File};

/// Files by path, standing in for a directory on disk.
struct Disk {
    files: HashMap<String, Vec<u8>>,
    creates: usize,
}

impl Disk {
    fn new() -> Disk {
        Disk { files: HashMap::new(), creates: 0 }
    }
}

/// A sink together with the path of its open segment, driven as the
/// application drives it.
struct Session {
    sink: File,
    current: Option<String>,
    clock: Option<String>,
}

impl Session {
    fn new(path: &str, channel: &str, overwrite: bool) -> Session {
        let args = Args::new(Some(path.to_string()), overwrite);
        let sink = File::new(&args, channel).expect("a configured path gives a sink");
        Session { sink, current: None, clock: None }
    }

    fn with_clock(path: &str, channel: &str, overwrite: bool, timestamp: &str) -> Session {
        let mut session = Session::new(path, channel, overwrite);
        session.clock = Some(timestamp.to_string());
        session
    }

    fn create_segment(&mut self, disk: &mut Disk) -> String {
        let mut attempt = match &self.clock {
            Some(ts) => Attempt { timestamp: ts.clone(), number: 0 },
            None => self.sink.begin_segment(),
        };
        loop {
            let candidate = self.sink.candidate(&attempt);
            if candidate.exclusive && disk.files.contains_key(&candidate.path) {
                attempt = self.sink.retry_after(&attempt, true).expect("collisions are retried");
                continue;
            }
            disk.creates += 1;
            disk.files.insert(candidate.path.clone(), self.sink.segment_prefix());
            assert!(candidate.index >= self.sink.segment_index());
            self.sink.segment_opened(candidate.index);
            return candidate.path;
        }
    }

    fn write_all(&mut self, disk: &mut Disk, data: &[u8]) -> String {
        if !self.sink.is_open() {
            let path = self.create_segment(disk);
            self.current = Some(path);
        }
        let path = self.current.clone().unwrap();
        disk.files.get_mut(&path).unwrap().extend_from_slice(data);
        path
    }

    fn flush(&mut self) {
        self.sink.flush();
        self.current = None;
    }
}

fn expected_path(dir: &str, stem: &str, channel: &str, ts: &str, index: u64, ext: &str) -> String {
    let name = format!("{stem}_{channel}_{ts}_{index:05}.{ext}");
    if dir.is_empty() {
        name
    } else {
        format!("{dir}/{name}")
    }
}

#[test]
fn file_name_has_padded_index() {
    let name = segment_file_name("record", "ch1", "2024-01-02_03-04-05", 0, "ts");
    assert_eq!(name, "record_ch1_2024-01-02_03-04-05_00000.ts");
    let name = segment_file_name("record", "ch1", "2024-01-02_03-04-05", 42, "ts");
    assert_eq!(name, "record_ch1_2024-01-02_03-04-05_00042.ts");
}

#[test]
fn file_name_index_wider_than_five_digits() {
    assert_eq!(segment_file_name("s", "c", "t", 123456, "e"), "s_c_t_123456.e");
    assert_eq!(segment_file_name("s", "c", "t", 99999, "e"), "s_c_t_99999.e");
    assert_eq!(
        segment_file_name("s", "c", "t", u64::MAX, "e"),
        format!("s_c_t_{}.e", u64::MAX)
    );
}

#[test]
fn zero_padded_digits_values() {
    let s: String = zero_padded_digits(7, 5).into_iter().collect();
    assert_eq!(s, "00007");
    let s: String = zero_padded_digits(0, 0).into_iter().collect();
    assert_eq!(s, "0");
    let s: String = zero_padded_digits(1234567, 5).into_iter().collect();
    assert_eq!(s, "1234567");
    let s: String = zero_padded_digits(10, 1).into_iter().collect();
    assert_eq!(s, "10");
}

#[test]
fn stem_and_extension_from_path() {
    assert_eq!(split_stem_ext("out/record.ts"), ("record".to_string(), "ts".to_string()));
    assert_eq!(split_stem_ext("a.b.mkv"), ("a.b".to_string(), "mkv".to_string()));
    assert_eq!(split_stem_ext("dir/noext"), ("noext".to_string(), "ts".to_string()));
}

#[test]
fn stem_and_extension_defaults() {
    assert_eq!(split_stem_ext(""), ("recording".to_string(), "ts".to_string()));
    assert_eq!(split_stem_ext("/"), ("recording".to_string(), "ts".to_string()));
    assert_eq!(split_stem_ext("dir/.hidden"), (".hidden".to_string(), "ts".to_string()));
}

#[test]
fn segment_path_inside_parent_directory() {
    assert_eq!(segment_path("out/record.ts", "ch1", "T", 3), "out/record_ch1_T_00003.ts");
    assert_eq!(segment_path("/var/rec/x.bin", "c", "T", 0), "/var/rec/x_c_T_00000.bin");
}

#[test]
fn segment_path_without_parent_directory() {
    assert_eq!(segment_path("record.ts", "ch1", "T", 3), "record_ch1_T_00003.ts");
    assert_eq!(segment_path("", "ch1", "T", 12), "recording_ch1_T_00012.ts");
}

#[test]
fn no_path_gives_disabled_sink() {
    let args = Args::new(None, false);
    assert!(File::new(&args, "ch1").is_none());
    let args = Args::new(None, true);
    assert!(File::new(&args, "ch1").is_none());
}

#[test]
fn new_sink_has_nothing_open() {
    let args = Args::new(Some("out/record.ts".to_string()), false);
    let sink = File::new(&args, "ch1").unwrap();
    assert!(!sink.is_open());
    assert_eq!(sink.segment_index(), 0);
    assert!(sink.segment_prefix().is_empty());
}

#[test]
fn timestamp_is_taken_once_per_creation() {
    let session = Session::new("out/record.ts", "ch1", false);
    let attempt = session.sink.begin_segment();
    assert_eq!(attempt.number, 0);
    let ts: Vec<char> = attempt.timestamp.chars().collect();
    assert_eq!(ts.len(), "YYYY-MM-DD_HH-MM-SS".len());
    for (i, c) in ts.iter().enumerate() {
        match i {
            4 | 7 | 13 | 16 => assert_eq!(*c, '-'),
            10 => assert_eq!(*c, '_'),
            _ => assert!(c.is_ascii_digit()),
        }
    }
    let next = session.sink.retry_after(&attempt, true).unwrap();
    assert_eq!(next.timestamp, attempt.timestamp);
    assert_eq!(next.number, 1);
}

#[test]
fn collision_moves_to_next_index() {
    let mut disk = Disk::new();
    let ts = "2024-05-06_07-08-09";
    let mut session = Session::with_clock("out/record.ts", "ch1", false, ts);
    let taken = expected_path("out", "record", "ch1", ts, 0, "ts");
    let also_taken = expected_path("out", "record", "ch1", ts, 1, "ts");
    disk.files.insert(taken.clone(), b"OLD".to_vec());
    disk.files.insert(also_taken.clone(), b"OLDER".to_vec());
    let path = session.write_all(&mut disk, b"NEW");
    assert_eq!(path, expected_path("out", "record", "ch1", ts, 2, "ts"));
    assert_eq!(session.sink.segment_index(), 3);
    assert_eq!(disk.files[&path], b"NEW".to_vec());
    assert_eq!(disk.files[&taken], b"OLD".to_vec());
    assert_eq!(disk.files[&also_taken], b"OLDER".to_vec());
}

#[test]
fn other_creation_errors_are_final() {
    let session = Session::new("out/record.ts", "ch1", false);
    let attempt = session.sink.begin_segment();
    assert!(session.sink.retry_after(&attempt, false).is_none());
}

#[test]
fn overwrite_never_retries() {
    let session = Session::new("out/record.ts", "ch1", true);
    let attempt = session.sink.begin_segment();
    assert!(session.sink.retry_after(&attempt, true).is_none());
    assert!(session.sink.retry_after(&attempt, false).is_none());
    assert!(!session.sink.candidate(&attempt).exclusive);
}

#[test]
fn overwrite_replaces_existing_file() {
    let mut disk = Disk::new();
    let mut session = Session::with_clock("out/record.ts", "ch1", true, "T");
    let attempt = Attempt { timestamp: "T".to_string(), number: 0 };
    let first = session.sink.candidate(&attempt);
    assert_eq!(first.index, 0);
    disk.files.insert(first.path.clone(), b"OLD".to_vec());
    session.sink.set_header(b"H");
    let path = session.write_all(&mut disk, b"D");
    assert_eq!(path, first.path);
    assert_eq!(disk.files[&path], b"HD".to_vec());
    assert_eq!(session.sink.segment_index(), 1);
}

#[test]
fn header_then_data_in_fresh_segment() {
    let mut disk = Disk::new();
    let mut session = Session::new("rec.ts", "c", false);
    session.sink.set_header(b"HEAD");
    assert_eq!(session.sink.segment_prefix(), b"HEAD".to_vec());
    let path = session.write_all(&mut disk, b"DATA");
    assert_eq!(disk.files[&path], b"HEADDATA".to_vec());
}

#[test]
fn last_header_wins() {
    let mut session = Session::new("rec.ts", "c", false);
    session.sink.set_header(b"ONE");
    session.sink.set_header(b"TWO");
    assert_eq!(session.sink.segment_prefix(), b"TWO".to_vec());
}

#[test]
fn header_not_applied_to_open_segment() {
    let mut disk = Disk::new();
    let mut session = Session::new("rec.ts", "c", false);
    let first = session.write_all(&mut disk, b"A");
    session.sink.set_header(b"H");
    session.write_all(&mut disk, b"B");
    assert_eq!(disk.files[&first], b"AB".to_vec());
    session.flush();
    let second = session.write_all(&mut disk, b"C");
    assert_eq!(disk.files[&second], b"HC".to_vec());
}

#[test]
fn flush_opens_new_segment() {
    let mut disk = Disk::new();
    let mut session = Session::new("rec.ts", "c", false);
    let first = session.write_all(&mut disk, b"");
    assert!(session.sink.is_open());
    session.flush();
    assert!(!session.sink.is_open());
    let second = session.write_all(&mut disk, b"X");
    assert_ne!(first, second);
    assert!(session.sink.segment_index() >= 2);
}

#[test]
fn flush_with_nothing_open_does_nothing() {
    let disk = Disk::new();
    let mut session = Session::new("rec.ts", "c", false);
    assert!(!session.sink.flush());
    assert!(!session.sink.is_open());
    assert_eq!(session.sink.segment_index(), 0);
    assert_eq!(disk.creates, 0);
    assert!(disk.files.is_empty());
}

#[test]
fn flush_reports_open_segment() {
    let mut disk = Disk::new();
    let mut session = Session::new("rec.ts", "c", false);
    session.write_all(&mut disk, b"A");
    assert!(session.sink.flush());
}

#[test]
fn first_segment_is_reported_once() {
    let args = Args::new(Some("rec.ts".to_string()), false);
    let mut sink = File::new(&args, "c").unwrap();
    assert!(sink.segment_opened(0));
    sink.flush();
    assert!(!sink.segment_opened(1));
    assert_eq!(sink.segment_index(), 2);
}

#[test]
fn segment_index_saturates() {
    let args = Args::new(Some("rec.ts".to_string()), false);
    let mut sink = File::new(&args, "c").unwrap();
    sink.segment_opened(u64::MAX - 1);
    assert_eq!(sink.segment_index(), u64::MAX);
    sink.flush();
    sink.segment_opened(u64::MAX);
    assert_eq!(sink.segment_index(), u64::MAX);
    let attempt = sink.begin_segment();
    let next = sink.retry_after(&attempt, true).unwrap();
    assert_eq!(sink.candidate(&next).index, u64::MAX);
}

#[test]
fn recording_without_overwrite() {
    let mut disk = Disk::new();
    let mut session = Session::new("out/record.ts", "ch1", false);
    session.sink.set_header(b"HDR");
    let first = session.write_all(&mut disk, b"AAA");
    assert!(first.starts_with("out/record_ch1_"));
    assert!(first.ends_with("_00000.ts"));
    assert_eq!(disk.files[&first], b"HDRAAA".to_vec());
    session.flush();
    let second = session.write_all(&mut disk, b"BBB");
    assert!(second.starts_with("out/record_ch1_"));
    assert!(second.ends_with("_00001.ts"));
    assert_eq!(disk.files[&second], b"HDRBBB".to_vec());
    assert_eq!(disk.files[&first], b"HDRAAA".to_vec());
}

#[test]
fn recording_with_overwrite() {
    let mut disk = Disk::new();
    let ts = "2024-05-06_07-08-09";
    let mut session = Session::with_clock("out/record.ts", "ch1", true, ts);
    session.sink.set_header(b"HDR");
    let taken = expected_path("out", "record", "ch1", ts, 0, "ts");
    disk.files.insert(taken.clone(), b"STALE".to_vec());
    let first = session.write_all(&mut disk, b"AAA");
    assert_eq!(first, taken);
    assert_eq!(disk.files[&taken], b"HDRAAA".to_vec());
    session.flush();
    let second = session.write_all(&mut disk, b"BBB");
    assert!(second.ends_with("_00001.ts"));
    assert_eq!(disk.files[&second], b"HDRBBB".to_vec());
}

#[test]
fn default_args_disable_the_sink() {
    let args = Args::default();
    assert!(args.path.is_none());
    assert!(!args.overwrite);
    assert!(File::new(&args, "ch1").is_none());
}
