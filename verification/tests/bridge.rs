use capbridge::error::BridgeError;
use capbridge::error::RegisterError;
use capbridge::handler::Handler;
use capbridge::handler::Mode;
use capbridge::map::HandlerMap;
use capbridge::processors::Accumulator;
use capbridge::processors::Echo;
use capbridge::stat::FileKind;

fn echo_table(name: &str, mode: Mode) -> HandlerMap<Echo> {
    let mut m: HandlerMap<Echo> = HandlerMap::new();
    m.register(name.to_owned(), Handler::new(mode, Vec::new(), Echo)).unwrap();
    m.seal();
    m
}

fn accumulator_table(start: u64) -> HandlerMap<Accumulator> {
    let mut m: HandlerMap<Accumulator> = HandlerMap::new();
    m.register("acc".to_owned(), Handler::new_shared_state(start, Accumulator)).unwrap();
    m.seal();
    m
}

#[test]
fn read_only_denies_write_intent() {
    let m = echo_table("cap", Mode::ReadOnly);
    let r = m.open("cap", false, true);
    assert_eq!(r.err(), Some(BridgeError::PermissionDenied));
    let r = m.open("cap", true, true);
    assert_eq!(r.err(), Some(BridgeError::PermissionDenied));
}

#[test]
fn read_only_grants_read() {
    let m = echo_table("cap", Mode::ReadOnly);
    assert!(m.open("cap", true, false).is_ok());
    assert!(m.open("cap", false, false).is_ok());
}

#[test]
fn write_only_denies_read_intent() {
    let m = echo_table("cap", Mode::WriteOnly);
    let r = m.open("cap", true, false);
    assert_eq!(r.err(), Some(BridgeError::PermissionDenied));
    let r = m.open("cap", true, true);
    assert_eq!(r.err(), Some(BridgeError::PermissionDenied));
    assert!(m.open("cap", false, true).is_ok());
}

#[test]
fn read_write_grants_every_combination() {
    let m = echo_table("cap", Mode::ReadWrite);
    assert!(m.open("cap", false, false).is_ok());
    assert!(m.open("cap", true, false).is_ok());
    assert!(m.open("cap", false, true).is_ok());
    assert!(m.open("cap", true, true).is_ok());
}

#[test]
fn missing_name_not_found_in_every_mode() {
    let m = echo_table("cap", Mode::ReadWrite);
    assert_eq!(m.open("missing", false, false).err(), Some(BridgeError::NotFound));
    assert_eq!(m.open("missing", true, false).err(), Some(BridgeError::NotFound));
    assert_eq!(m.open("missing", false, true).err(), Some(BridgeError::NotFound));
    assert_eq!(m.open("missing", true, true).err(), Some(BridgeError::NotFound));
}

#[test]
fn echo_round_trip() {
    let mut m = echo_table("echo", Mode::ReadWrite);
    let mut h = m.open("echo", true, true).unwrap();
    let written = h.write(&mut m, &b"hello".to_vec()).unwrap();
    assert_eq!(written, 5);
    let back = h.read(1024).unwrap();
    assert_eq!(back, b"hello".to_vec());
    let empty = h.read(1024).unwrap();
    assert_eq!(empty.len(), 0);
}

#[test]
fn echo_read_drains_in_chunks() {
    let mut m = echo_table("echo", Mode::ReadWrite);
    let mut h = m.open("echo", true, true).unwrap();
    h.write(&mut m, &b"abcdef".to_vec()).unwrap();
    assert_eq!(h.read(2).unwrap(), b"ab".to_vec());
    assert_eq!(h.read(3).unwrap(), b"cde".to_vec());
    assert_eq!(h.read(10).unwrap(), b"f".to_vec());
    assert_eq!(h.read(10).unwrap(), Vec::<u8>::new());
}

#[test]
fn accumulator_totals() {
    let mut m = accumulator_table(0);
    let mut h = m.open("acc", true, true).unwrap();
    h.write(&mut m, &b"1".to_vec()).unwrap();
    assert_eq!(h.read(64).unwrap(), b"1".to_vec());
    h.write(&mut m, &b"2".to_vec()).unwrap();
    assert_eq!(h.read(64).unwrap(), b"3".to_vec());
}

#[test]
fn accumulator_state_persists_across_opens() {
    let mut m = accumulator_table(40);
    let mut h = m.open("acc", true, true).unwrap();
    h.write(&mut m, &b"2".to_vec()).unwrap();
    assert_eq!(h.read(64).unwrap(), b"42".to_vec());
    h.close();
    let mut h2 = m.open("acc", true, true).unwrap();
    h2.write(&mut m, &b"0".to_vec()).unwrap();
    assert_eq!(h2.read(64).unwrap(), b"42".to_vec());
}

#[test]
fn accumulator_rejects_garbage_and_commits_nothing() {
    let mut m = accumulator_table(7);
    let mut h = m.open("acc", true, true).unwrap();
    let r = h.write(&mut m, &b"not a number".to_vec());
    assert_eq!(r.err(), Some(BridgeError::ProcessingFailure));
    let r = h.write(&mut m, &b"".to_vec());
    assert_eq!(r.err(), Some(BridgeError::ProcessingFailure));
    h.write(&mut m, &b"0".to_vec()).unwrap();
    assert_eq!(h.read(64).unwrap(), b"7".to_vec());
}

#[test]
fn accumulator_rejects_overflow_and_commits_nothing() {
    let mut m = accumulator_table(u64::MAX - 1);
    let mut h = m.open("acc", true, true).unwrap();
    let r = h.write(&mut m, &b"2".to_vec());
    assert_eq!(r.err(), Some(BridgeError::ProcessingFailure));
    h.write(&mut m, &b"1".to_vec()).unwrap();
    assert_eq!(h.read(64).unwrap(), u64::MAX.to_string().into_bytes());
}

#[test]
fn serialized_batches_lose_no_update() {
    let order1: Vec<u64> = vec![1, 2, 3, 4, 5, 6, 7, 8, 9, 10];
    let order2: Vec<u64> = vec![10, 8, 6, 4, 2, 1, 3, 5, 7, 9];
    let mut finals: Vec<Vec<u8>> = Vec::new();
    for order in [order1, order2] {
        let mut m = accumulator_table(0);
        let mut last = Vec::new();
        for v in order {
            let mut h = m.open("acc", true, true).unwrap();
            h.write(&mut m, &v.to_string().into_bytes()).unwrap();
            last = h.read(64).unwrap();
            h.close();
        }
        finals.push(last);
    }
    assert_eq!(finals[0], b"55".to_vec());
    assert_eq!(finals[1], b"55".to_vec());
}

#[test]
fn write_without_write_intent_denied() {
    let mut m = echo_table("echo", Mode::ReadWrite);
    let mut h = m.open("echo", true, false).unwrap();
    let r = h.write(&mut m, &b"x".to_vec());
    assert_eq!(r.err(), Some(BridgeError::PermissionDenied));
}

#[test]
fn read_without_read_intent_denied() {
    let mut m = echo_table("echo", Mode::ReadWrite);
    let mut h = m.open("echo", false, true).unwrap();
    h.write(&mut m, &b"x".to_vec()).unwrap();
    let r = h.read(16);
    assert_eq!(r.err(), Some(BridgeError::PermissionDenied));
}

#[test]
fn structural_operations_unsupported_for_every_path() {
    let m = echo_table("cap", Mode::ReadWrite);
    for path in ["cap", "missing", "", "a/b"] {
        assert_eq!(m.open_dir(path).err(), Some(BridgeError::Unsupported));
        assert_eq!(m.create_dir(path).err(), Some(BridgeError::Unsupported));
        assert_eq!(m.remove_dir(path).err(), Some(BridgeError::Unsupported));
        assert_eq!(m.unlink_file(path).err(), Some(BridgeError::Unsupported));
        assert_eq!(m.read_link(path).err(), Some(BridgeError::Unsupported));
        assert_eq!(m.rename(path, "other").err(), Some(BridgeError::Unsupported));
        assert_eq!(m.hard_link(path, "other").err(), Some(BridgeError::Unsupported));
        assert_eq!(m.symlink(path, "other").err(), Some(BridgeError::Unsupported));
        assert_eq!(m.set_times(path, None, None).err(), Some(BridgeError::Unsupported));
    }
    assert_eq!(m.readdir(0).err(), Some(BridgeError::Unsupported));
}

#[test]
fn positional_stream_operations_unsupported() {
    let mut m = echo_table("echo", Mode::ReadWrite);
    let h = m.open("echo", true, true).unwrap();
    assert_eq!(h.read_at(0).err(), Some(BridgeError::Unsupported));
    assert_eq!(h.write_at(0).err(), Some(BridgeError::Unsupported));
    assert_eq!(h.seek(4).err(), Some(BridgeError::Unsupported));
    assert_eq!(h.peek().err(), Some(BridgeError::Unsupported));
    assert_eq!(h.allocate(0, 16).err(), Some(BridgeError::Unsupported));
    assert_eq!(h.advise(0, 16).err(), Some(BridgeError::Unsupported));
    assert_eq!(h.set_filestat_size(16).err(), Some(BridgeError::Unsupported));
    assert_eq!(h.set_times(None, None).err(), Some(BridgeError::Unsupported));
    assert_eq!(h.datasync(), Ok(()));
    assert_eq!(h.sync(), Ok(()));
}

#[test]
fn round_trip_never_mutates_the_table() {
    let mut m = accumulator_table(0);
    let mut h = m.open("acc", true, true).unwrap();
    h.write(&mut m, &b"9".to_vec()).unwrap();
    h.read(64).unwrap();
    h.close();
    let cap = m.lookup("acc").unwrap();
    assert_eq!(cap.mode, Mode::ReadWrite);
    assert_eq!(cap.processor, Accumulator);
    assert_eq!(m.lookup("other").map(|_| ()), None);
}

#[test]
fn register_rejects_duplicate_names() {
    let mut m: HandlerMap<Echo> = HandlerMap::new();
    m.register("a".to_owned(), Handler::new(Mode::ReadOnly, Vec::new(), Echo)).unwrap();
    let r = m.register("a".to_owned(), Handler::new(Mode::ReadWrite, Vec::new(), Echo));
    assert_eq!(r.err(), Some(RegisterError::DuplicateName));
    let cap = m.lookup("a").unwrap();
    assert_eq!(cap.mode, Mode::ReadOnly);
}

#[test]
fn register_rejects_sealed_table() {
    let mut m: HandlerMap<Echo> = HandlerMap::new();
    m.seal();
    let r = m.register("late".to_owned(), Handler::new(Mode::ReadOnly, Vec::new(), Echo));
    assert_eq!(r.err(), Some(RegisterError::Sealed));
    assert_eq!(m.open("late", false, false).err(), Some(BridgeError::NotFound));
}

#[test]
fn name_comparison_is_exact_and_case_sensitive() {
    let m = echo_table("Cap", Mode::ReadWrite);
    assert!(m.open("Cap", true, true).is_ok());
    assert_eq!(m.open("cap", true, true).err(), Some(BridgeError::NotFound));
    assert_eq!(m.open("Cap ", true, true).err(), Some(BridgeError::NotFound));
}

#[test]
fn directory_stat_is_fixed() {
    let m = echo_table("cap", Mode::ReadWrite);
    let st = m.get_filestat();
    assert_eq!(st.filetype, FileKind::Directory);
    assert_eq!(st.size, 0);
    assert_eq!(st.nlink, 0);
    assert_eq!(st.device_id, 0);
    assert_eq!(st.inode, 0);
    assert_eq!(st.atim, None);
    assert_eq!(st.mtim, None);
    assert_eq!(st.ctim, None);
}

#[test]
fn stream_stat_is_fixed() {
    let mut m = echo_table("cap", Mode::ReadWrite);
    let mut h = m.open("cap", true, true).unwrap();
    h.write(&mut m, &b"some bytes".to_vec()).unwrap();
    let st = h.get_filestat();
    assert_eq!(st.filetype, FileKind::Pipe);
    assert_eq!(st.size, 0);
    assert_eq!(st.atim, None);
    assert_eq!(h.get_filetype(), FileKind::Pipe);
}

#[test]
fn path_stat_matches_open_errors() {
    let m = echo_table("cap", Mode::ReadOnly);
    let st = m.get_path_filestat("cap").unwrap();
    assert_eq!(st.filetype, FileKind::Pipe);
    assert_eq!(m.get_path_filestat("missing").err(), Some(BridgeError::NotFound));
}

#[test]
fn handle_buffers_are_private_per_open() {
    let mut m = echo_table("echo", Mode::ReadWrite);
    let mut h1 = m.open("echo", true, true).unwrap();
    let mut h2 = m.open("echo", true, true).unwrap();
    h1.write(&mut m, &b"one".to_vec()).unwrap();
    h2.write(&mut m, &b"two".to_vec()).unwrap();
    assert_eq!(h1.read(64).unwrap(), b"one".to_vec());
    assert_eq!(h2.read(64).unwrap(), b"two".to_vec());
}

#[test]
fn new_nonsense_echoes() {
    let mut m: HandlerMap<Echo> = HandlerMap::new();
    m.register("nonsense".to_owned(), Handler::new_nonsense()).unwrap();
    m.seal();
    let mut h = m.open("nonsense", true, true).unwrap();
    h.write(&mut m, &b"Hello Read".to_vec()).unwrap();
    assert_eq!(h.read(64).unwrap(), b"Hello Read".to_vec());
}

#[test]
fn is_valid_matches_mode_table() {
    let ro: Handler<Echo> = Handler::new(Mode::ReadOnly, Vec::new(), Echo);
    let wo: Handler<Echo> = Handler::new(Mode::WriteOnly, Vec::new(), Echo);
    let rw: Handler<Echo> = Handler::new(Mode::ReadWrite, Vec::new(), Echo);
    assert!(ro.is_valid(true, false));
    assert!(!ro.is_valid(false, true));
    assert!(!ro.is_valid(true, true));
    assert!(wo.is_valid(false, true));
    assert!(!wo.is_valid(true, false));
    assert!(rw.is_valid(true, true));
    assert!(rw.is_valid(false, false));
}
