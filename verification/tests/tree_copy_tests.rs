use gib::tree_copy::{CopyAction, CopyWalk, ListedEntry};

#[test]
fn walk_visits_root_then_subdirectories() {
    let mut walk = CopyWalk::new("./tmp/p/extract/.config", "/home/u/.config");
    assert_eq!(walk.input_root, 5);
    match walk.next() {
        CopyAction::Visit { working, dest } => {
            assert_eq!(working, "./tmp/p/extract/.config");
            assert_eq!(dest, "/home/u/.config");
            let entries = vec![
                ListedEntry { path: "./tmp/p/extract/.config/a.toml".to_string(), is_dir: false, file_name: Some("a.toml".to_string()) },
                ListedEntry { path: "./tmp/p/extract/.config/sub".to_string(), is_dir: true, file_name: Some("sub".to_string()) },
                ListedEntry { path: "./tmp/p/extract/.config/..".to_string(), is_dir: false, file_name: None },
            ];
            let (copies, skipped) = walk.visit(&dest, entries);
            assert_eq!(copies.len(), 1);
            assert_eq!(copies[0].from, "./tmp/p/extract/.config/a.toml");
            assert_eq!(copies[0].to, "/home/u/.config/a.toml");
            assert_eq!(skipped, vec!["./tmp/p/extract/.config/..".to_string()]);
        }
        CopyAction::Done => panic!("expected a visit"),
    }
    match walk.next() {
        CopyAction::Visit { working, dest } => {
            assert_eq!(working, "./tmp/p/extract/.config/sub");
            assert_eq!(dest, "/home/u/.config/sub");
        }
        CopyAction::Done => panic!("expected a visit"),
    }
    assert!(matches!(walk.next(), CopyAction::Done));
}

#[test]
fn walk_visits_every_directory_once() {
    let dir = |p: &str| ListedEntry { path: p.to_string(), is_dir: true, file_name: Some(p.rsplit('/').next().unwrap().to_string()) };
    let file = |p: &str| ListedEntry { path: p.to_string(), is_dir: false, file_name: Some(p.rsplit('/').next().unwrap().to_string()) };
    let listing = |working: &str| -> Vec<ListedEntry> {
        match working {
            "r" => vec![dir("r/a"), file("r/f1"), dir("r/b")],
            "r/a" => vec![dir("r/a/c"), file("r/a/f2")],
            "r/b" => vec![file("r/b/f3")],
            "r/a/c" => vec![],
            _ => panic!("unexpected directory {}", working),
        }
    };
    let mut walk = CopyWalk::new("r", "out");
    let mut visited = Vec::new();
    let mut copied = Vec::new();
    while let CopyAction::Visit { working, dest } = walk.next() {
        let (copies, _) = walk.visit(&dest, listing(&working));
        copied.extend(copies.into_iter().map(|c| c.from));
        visited.push(working);
    }
    assert_eq!(visited, vec!["r", "r/b", "r/a", "r/a/c"]);
    let mut sorted = copied.clone();
    sorted.sort();
    assert_eq!(sorted, vec!["r/a/f2", "r/b/f3", "r/f1"]);
}

fn run_walk(from: &str, to: &str) -> Vec<(String, String, Vec<(String, String)>)> {
    let entry = |p: &str, is_dir: bool| ListedEntry {
        path: p.to_string(),
        is_dir,
        file_name: Some(p.rsplit('/').next().unwrap().to_string()),
    };
    let mut walk = CopyWalk::new(from, to);
    let mut steps = Vec::new();
    while let CopyAction::Visit { working, dest } = walk.next() {
        let listing = match working.as_str() {
            "src/pkg" => vec![entry("src/pkg/bin", true), entry("src/pkg/README", false)],
            "src/pkg/bin" => vec![entry("src/pkg/bin/tool", false)],
            other => panic!("unexpected directory {}", other),
        };
        let (copies, _) = walk.visit(&dest, listing);
        steps.push((working, dest, copies.into_iter().map(|c| (c.from, c.to)).collect()));
    }
    steps
}

#[test]
fn copying_again_asks_for_the_same_work() {
    let first = run_walk("src/pkg", "/home/u");
    let second = run_walk("src/pkg", "/home/u");
    assert_eq!(first, second);
    assert_eq!(first.len(), 2);
    assert_eq!(first[0].0, "src/pkg");
    assert_eq!(first[0].1, "/home/u");
    assert_eq!(first[0].2, vec![("src/pkg/README".to_string(), "/home/u/README".to_string())]);
    assert_eq!(first[1].1, "/home/u/bin");
    assert_eq!(first[1].2, vec![("src/pkg/bin/tool".to_string(), "/home/u/bin/tool".to_string())]);
}
