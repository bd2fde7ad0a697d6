use simfs::{File, FileState, Filesystem, FsConfig, FsError, FsSimulator, OpenOptions, Poll};
use snap_buf::SnapBuf;

const MS: u64 = 1_000_000;

fn bytes(buf: &SnapBuf) -> Vec<u8> {
    buf.iter().copied().collect()
}

fn content(fs: &Filesystem, file: &File) -> Vec<u8> {
    bytes(fs.state(file.file).new())
}

fn delayed(allow_dirty_write: bool) -> Filesystem {
    let mut fs = Filesystem::new();
    fs.configure(FsConfig { write_delay: 10 * MS, flush_delay: 5 * MS, allow_dirty_write });
    fs
}

fn clean_hello(fs: &mut Filesystem) -> File {
    let mut file = File::create(fs, "/f").unwrap();
    assert_eq!(file.poll_write(fs, b"hello", 0), Poll::Ready(Ok(5)));
    assert_eq!(file.poll_flush(fs, 0), Poll::Pending(10 * MS));
    assert_eq!(file.poll_flush(fs, 10 * MS), Poll::Ready(Ok(())));
    assert!(matches!(fs.state(file.file), FileState::Clean(_)));
    file
}

#[test]
fn write_then_flush_completes_at_write_delay() {
    let mut fs = delayed(true);
    let mut options = OpenOptions::new();
    options.create(true).write(true);
    let mut file = options.open(&mut fs, "/a").unwrap();
    assert_eq!(file.poll_write(&mut fs, b"hello", 0), Poll::Ready(Ok(5)));
    assert_eq!(file.poll_flush(&mut fs, 0), Poll::Pending(10 * MS));
    assert_eq!(file.poll_flush(&mut fs, 9 * MS), Poll::Pending(10 * MS));
    assert_eq!(file.poll_flush(&mut fs, 10 * MS), Poll::Ready(Ok(())));
    let mut reader = File::open(&mut fs, "/a").unwrap();
    assert_eq!(reader.poll_read(&fs, 64), Ok(b"hello".to_vec()));
    assert_eq!(reader.cursor, 5);
    assert_eq!(reader.poll_read(&fs, 64), Ok(Vec::new()));
}

#[test]
fn coalesced_writes_flush_at_later_deadline() {
    let mut fs = delayed(true);
    let mut file = clean_hello(&mut fs);
    // The times of this scenario are counted from the instant at which the file is clean.
    let t0 = 10 * MS;
    assert_eq!(file.cursor, 5);
    assert_eq!(file.poll_write(&mut fs, b" world", t0 + 3 * MS), Poll::Ready(Ok(6)));
    assert_eq!(file.cursor, 11);
    assert_eq!(file.poll_write(&mut fs, b"!", t0 + 7 * MS), Poll::Ready(Ok(1)));
    match fs.state(file.file) {
        FileState::Written { old, new, time } => {
            assert_eq!(bytes(old), b"hello".to_vec());
            assert_eq!(bytes(new), b"hello world!".to_vec());
            assert_eq!(*time, t0 + 7 * MS);
        }
        _ => panic!("the file is dirty"),
    }
    assert_eq!(file.poll_flush(&mut fs, t0 + 7 * MS), Poll::Pending(t0 + 17 * MS));
    assert_eq!(file.poll_flush(&mut fs, t0 + 16 * MS), Poll::Pending(t0 + 17 * MS));
    assert_eq!(file.poll_flush(&mut fs, t0 + 17 * MS), Poll::Ready(Ok(())));
    match fs.state(file.file) {
        FileState::Clean(new) => assert_eq!(bytes(new), b"hello world!".to_vec()),
        _ => panic!("the file is clean"),
    }
}

#[test]
fn strict_write_waits_for_the_flush() {
    let mut fs = delayed(false);
    let mut file = File::create(&mut fs, "/s").unwrap();
    assert_eq!(file.poll_write(&mut fs, b"x", 0), Poll::Ready(Ok(1)));
    assert_eq!(file.poll_write(&mut fs, b"y", MS), Poll::Pending(10 * MS));
    assert!(file.pending_write);
    assert_eq!(file.cursor, 1);
    assert_eq!(content(&fs, &file), b"x".to_vec());
    assert!(matches!(fs.state(file.file), FileState::Flush { until, .. } if *until == 10 * MS));
    assert_eq!(file.poll_write(&mut fs, b"y", 5 * MS), Poll::Pending(10 * MS));
    assert_eq!(file.poll_write(&mut fs, b"y", 10 * MS), Poll::Ready(Ok(1)));
    assert!(!file.pending_write);
    assert_eq!(file.cursor, 2);
    match fs.state(file.file) {
        FileState::Written { old, new, time } => {
            assert_eq!(bytes(old), b"x".to_vec());
            assert_eq!(bytes(new), b"xy".to_vec());
            assert_eq!(*time, 10 * MS);
        }
        _ => panic!("the file is dirty"),
    }
}

#[test]
fn create_new_on_existing_path_fails() {
    let mut fs = Filesystem::new();
    File::create(&mut fs, "/a").unwrap();
    let files = fs.file_count();
    assert_eq!(File::create_new(&mut fs, "/a"), Err(FsError::AlreadyExists));
    assert_eq!(fs.file_count(), files);
    let mut options = OpenOptions::new();
    options.create_new(true).create(true).truncate(true).write(true);
    assert_eq!(options.open(&mut fs, "/a"), Err(FsError::AlreadyExists));
}

#[test]
fn truncate_is_seen_by_other_handles() {
    let mut fs = delayed(true);
    clean_hello(&mut fs);
    let mut reader = File::open(&mut fs, "/f").unwrap();
    let mut options = OpenOptions::new();
    options.truncate(true).write(true);
    let writer = options.open(&mut fs, "/f").unwrap();
    assert_eq!(writer.file, reader.file);
    match fs.state(writer.file) {
        FileState::Clean(new) => assert_eq!(new.len(), 0),
        _ => panic!("the file is clean"),
    }
    assert_eq!(reader.poll_read(&fs, 16), Ok(Vec::new()));
    assert_eq!(reader.cursor, 0);
}

#[test]
fn truncate_discards_a_pending_flush() {
    let mut fs = delayed(true);
    let mut file = File::create(&mut fs, "/t").unwrap();
    assert_eq!(file.poll_write(&mut fs, b"abc", 0), Poll::Ready(Ok(3)));
    assert_eq!(file.poll_flush(&mut fs, 0), Poll::Pending(10 * MS));
    let again = File::create(&mut fs, "/t").unwrap();
    assert!(matches!(fs.state(again.file), FileState::Clean(_)));
    assert_eq!(content(&fs, &again), Vec::<u8>::new());
    assert_eq!(file.poll_flush(&mut fs, MS), Poll::Ready(Ok(())));
}

#[test]
fn write_during_flush_rewinds_durability() {
    let mut fs = delayed(true);
    let mut file = File::create(&mut fs, "/p").unwrap();
    assert_eq!(file.poll_write(&mut fs, b"A", 0), Poll::Ready(Ok(1)));
    assert_eq!(file.poll_flush(&mut fs, 0), Poll::Pending(10 * MS));
    assert_eq!(file.poll_write(&mut fs, b"B", 3 * MS), Poll::Ready(Ok(1)));
    match fs.state(file.file) {
        FileState::Written { old, new, time } => {
            assert_eq!(bytes(old), Vec::<u8>::new());
            assert_eq!(bytes(new), b"AB".to_vec());
            assert_eq!(*time, 3 * MS);
        }
        _ => panic!("the file is dirty"),
    }
    assert_eq!(file.poll_flush(&mut fs, 3 * MS), Poll::Pending(13 * MS));
    assert_eq!(file.poll_flush(&mut fs, 13 * MS), Poll::Ready(Ok(())));
    assert_eq!(content(&fs, &file), b"AB".to_vec());
}

#[test]
fn open_matrix() {
    for bits in 0u32..64 {
        let mut options = OpenOptions::new();
        options
            .read(bits & 1 != 0)
            .write(bits & 2 != 0)
            .append(bits & 4 != 0)
            .truncate(bits & 8 != 0)
            .create(bits & 16 != 0)
            .create_new(bits & 32 != 0);
        // No file at the path.
        let mut fs = Filesystem::new();
        let opened = options.open(&mut fs, "/m");
        if options.create || options.create_new {
            let file = opened.unwrap();
            assert_eq!(file.allow_read, options.read);
            assert_eq!(file.allow_write, options.write || options.append);
            assert_eq!(file.append, options.append);
            assert_eq!(file.cursor, 0);
            assert_eq!(file.pending_seek, None);
            assert_eq!(fs.lookup("/m"), Some(file.file));
            assert!(matches!(fs.state(file.file), FileState::Clean(new) if new.len() == 0));
        } else {
            assert_eq!(opened, Err(FsError::NotFound));
            assert_eq!(fs.lookup("/m"), None);
            assert_eq!(fs.file_count(), 0);
        }
        // A dirty file at the path.
        let mut fs = Filesystem::new();
        let mut first = File::create(&mut fs, "/m").unwrap();
        assert_eq!(first.poll_write(&mut fs, b"data", 0), Poll::Ready(Ok(4)));
        let opened = options.open(&mut fs, "/m");
        if options.create_new {
            assert_eq!(opened, Err(FsError::AlreadyExists));
            assert_eq!(content(&fs, &first), b"data".to_vec());
        } else {
            let file = opened.unwrap();
            assert_eq!(file.file, first.file);
            assert_eq!(fs.file_count(), 1);
            if options.truncate {
                assert!(matches!(fs.state(file.file), FileState::Clean(new) if new.len() == 0));
            } else {
                assert!(matches!(fs.state(file.file), FileState::Written { .. }));
                assert_eq!(content(&fs, &file), b"data".to_vec());
            }
        }
    }
}

#[test]
fn handle_without_permissions_fails_every_call() {
    let mut fs = Filesystem::new();
    File::create(&mut fs, "/n").unwrap();
    let mut file = OpenOptions::new().open(&mut fs, "/n").unwrap();
    assert_eq!(file.poll_read(&fs, 8), Err(FsError::InvalidInput));
    assert_eq!(file.poll_write(&mut fs, b"z", 0), Poll::Ready(Err(FsError::InvalidInput)));
    assert_eq!(file.poll_flush(&mut fs, 0), Poll::Ready(Err(FsError::InvalidInput)));
    assert_eq!(file.poll_shutdown(&mut fs, 0), Poll::Ready(Err(FsError::InvalidInput)));
    assert_eq!(file.sync_all(&mut fs, 0), Poll::Ready(Err(FsError::InvalidInput)));
    assert_eq!(file.sync_data(&mut fs, 0), Poll::Ready(Err(FsError::InvalidInput)));
    assert_eq!(content(&fs, &file), Vec::<u8>::new());
}

#[test]
fn registry_creates_configures_and_resets_nodes() {
    let mut sim = FsSimulator::new();
    assert!(!sim.contains_node(7));
    assert!(sim.filesystem(7).is_none());
    sim.create_node(7);
    sim.create_node(8);
    assert!(sim.contains_node(7));
    assert_eq!(sim.filesystem(7).unwrap().config(), FsConfig::new());
    let strict = FsConfig { write_delay: 10 * MS, flush_delay: 5 * MS, allow_dirty_write: false };
    sim.set_config(7, strict);
    assert_eq!(sim.filesystem(7).unwrap().config(), strict);
    assert_eq!(sim.filesystem(8).unwrap().config(), FsConfig::new());

    let mut file = File::create(sim.filesystem_mut(7), "/a").unwrap();
    assert_eq!(file.poll_write(sim.filesystem_mut(7), b"kept", 0), Poll::Ready(Ok(4)));
    assert_eq!(sim.filesystem(7).unwrap().lookup("/a"), Some(file.file));
    assert_eq!(sim.filesystem(8).unwrap().lookup("/a"), None);

    sim.reset_node(7);
    let fs = sim.filesystem(7).unwrap();
    assert_eq!(fs.lookup("/a"), None);
    assert_eq!(fs.config(), FsConfig::new());
    // The handle opened before the reset still works on its file.
    assert_eq!(content(fs, &file), b"kept".to_vec());
    assert_eq!(file.poll_write(sim.filesystem_mut(7), b"!", MS), Poll::Ready(Ok(1)));
    assert_eq!(content(sim.filesystem(7).unwrap(), &file), b"kept!".to_vec());
    // A file created at the old path is another file.
    let other = File::create(sim.filesystem_mut(7), "/a").unwrap();
    assert_ne!(other.file, file.file);
    assert_eq!(content(sim.filesystem(7).unwrap(), &other), Vec::<u8>::new());

    sim.create_node(7);
    assert_eq!(sim.filesystem(7).unwrap().lookup("/a"), None);
    assert_eq!(content(sim.filesystem(7).unwrap(), &file), b"kept!".to_vec());
}

#[test]
fn configure_keeps_a_pending_deadline() {
    let mut fs = delayed(true);
    let mut file = File::create(&mut fs, "/c").unwrap();
    assert_eq!(file.poll_write(&mut fs, b"q", 0), Poll::Ready(Ok(1)));
    assert_eq!(file.poll_flush(&mut fs, 0), Poll::Pending(10 * MS));
    fs.configure(FsConfig { write_delay: 100 * MS, flush_delay: 100 * MS, allow_dirty_write: true });
    assert_eq!(file.poll_flush(&mut fs, 9 * MS), Poll::Pending(10 * MS));
    assert_eq!(file.poll_flush(&mut fs, 10 * MS), Poll::Ready(Ok(())));
}
