use webp_batch::admission::AdmissionTokens;
use webp_batch::handler::DirEntry;
use webp_batch::handler::Handler;
use webp_batch::handler::HandlerConfig;
use webp_batch::memo::DirectoryMemo;
use webp_batch::outcome::collect;
use webp_batch::outcome::Outcome;
use webp_batch::paths::parent_of;

fn entry(path: &str, is_dir: bool) -> DirEntry {
    DirEntry { path: path.to_owned(), is_dir }
}

/// One valid image and one text file: one unit is dispatched, it succeeds,
/// and its output path mirrors the input under the output root.
#[test]
fn mixed_tree_dispatches_only_the_image() {
    let h = Handler::new("/in", "/out", HandlerConfig::new());
    let entries = vec![
        entry("/in/a", true),
        entry("/in/a/b.jpg", false),
        entry("/in/c.txt", false),
    ];
    let units = h.plan(&entries);
    assert_eq!(units.len(), 1);
    assert_eq!(units[0].input, "/in/a/b.jpg");
    assert_eq!(units[0].output, "/out/a/b.webp");

    let outcomes = vec![Outcome::Success];
    let r = collect(&outcomes);
    assert_eq!(r.dispatched, 1);
    assert!(r.failures.is_empty());
}

/// A zero-byte `.png` is dispatched but fails to decode: the batch reports
/// exactly one failure, for that path, and still finishes.
#[test]
fn corrupt_image_yields_one_failure() {
    let h = Handler::new("/in", "/out", HandlerConfig::new());
    let entries = vec![entry("/in/x.png", false)];
    let units = h.plan(&entries);
    assert_eq!(units.len(), 1);
    assert_eq!(units[0].output, "/out/x.webp");

    let bytes: Vec<u8> = Vec::new();
    let outcome = match webp_batch::convert::decode_step(&units[0].input, &bytes) {
        Ok(_) => Outcome::Success,
        Err(f) => Outcome::Failed(f),
    };
    let outcomes = vec![outcome];
    let r = collect(&outcomes);
    assert_eq!(r.dispatched, 1);
    assert_eq!(r.failures.len(), 1);
    assert_eq!(r.failures[0].path, "/in/x.png");
    assert!(r.failures[0].message.starts_with("decode error: "));
}

/// Fifty images mapping into one output subdirectory: the directory is
/// created exactly once, admission never exceeds the limit of five, and all
/// fifty units succeed.
#[test]
fn shared_directory_is_created_once_under_bounded_admission() {
    let h = Handler::new("/in", "/out", HandlerConfig::new());
    let mut entries: Vec<DirEntry> = vec![entry("/in/shared", true)];
    for i in 0..50 {
        entries.push(entry(&format!("/in/shared/img{i}.png"), false));
    }
    let units = h.plan(&entries);
    assert_eq!(units.len(), 50);

    let mut memo = DirectoryMemo::new();
    let mut creations: usize = 0;
    let mut pool = AdmissionTokens::new(5);
    let mut outcomes: Vec<Outcome> = Vec::new();
    for u in &units {
        while !pool.try_acquire() {
            // A saturated pool admits nothing further until a release.
            assert_eq!(pool.active_count(), 5);
            pool.release();
            outcomes.push(Outcome::Success);
        }
        assert!(pool.active_count() <= 5);
        let dir = parent_of(&u.output).expect("planned outputs always have a parent");
        assert_eq!(dir, "/out/shared");
        if memo.ensure_marked(&dir) {
            creations += 1;
        }
    }
    while pool.active_count() > 0 {
        pool.release();
        outcomes.push(Outcome::Success);
    }
    assert_eq!(creations, 1);
    assert_eq!(memo.created_count(), 1);

    let r = collect(&outcomes);
    assert_eq!(r.dispatched, 50);
    assert!(r.failures.is_empty());
}
