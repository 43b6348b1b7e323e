use std::cell::RefCell;
use std::collections::HashMap;

use ji::finder_xattrs::{
    finder_info_marks_alias, pick_alias, pick_exact, plan_file, Candidate, Finding, HardLink, Plan,
    XattrGuard, FINDER_INFO_XATTR, RESOURCE_FORK_XATTR,
};
use ji::tape::{Act, Failure, FileStat, Kind, Reply, Request, Stop, Tape};

fn reply(kind: Kind) -> Reply {
    Reply {
        kind,
        text: String::new(),
        err: String::new(),
        items: Vec::new(),
        bytes: Vec::new(),
        stat: None,
    }
}

/// Files with their contents, their attributes and their link counts.
struct Disk {
    files: HashMap<String, Vec<u8>>,
    xattrs: RefCell<HashMap<(String, String), Vec<u8>>>,
    links: HashMap<String, u64>,
    listed: Vec<String>,
    writable: bool,
}

impl Disk {
    fn with(path: &str, content: &[u8]) -> Disk {
        Disk {
            files: HashMap::from([(path.to_string(), content.to_vec())]),
            xattrs: RefCell::new(HashMap::new()),
            links: HashMap::new(),
            listed: Vec::new(),
            writable: true,
        }
    }

    fn xattr(&self, path: &str, name: &str) -> Option<Vec<u8>> {
        self.xattrs.borrow().get(&(path.to_string(), name.to_string())).cloned()
    }

    fn perform(&self, q: &Request) -> Reply {
        let content = self.files.get(&q.at);
        match (q.act, content) {
            (Act::Stat, Some(_)) => Reply {
                stat: Some(FileStat {
                    is_file: true,
                    nlink: *self.links.get(&q.at).unwrap_or(&1),
                    dev: 1,
                    ino: 7,
                }),
                ..reply(Kind::Done)
            },
            (Act::ReadPrefix, Some(c)) => {
                let n = q.args[0].parse::<usize>().unwrap().min(c.len());
                Reply { bytes: c[..n].to_vec(), ..reply(Kind::Done) }
            }
            (Act::ReadBytes, Some(c)) => Reply { bytes: c.clone(), ..reply(Kind::Done) },
            (Act::GetXattr, Some(_)) => match self.xattr(&q.at, &q.args[0]) {
                Some(b) => Reply { bytes: b, ..reply(Kind::Done) },
                None => reply(Kind::Nonzero),
            },
            (Act::SetXattr, Some(_)) if self.writable => {
                self.xattrs
                    .borrow_mut()
                    .insert((q.at.clone(), q.args[0].clone()), q.data.clone());
                reply(Kind::Done)
            }
            (Act::SetXattr, Some(_)) => {
                Reply { err: "read-only".to_string(), ..reply(Kind::Unstarted) }
            }
            (Act::JjWs, _) => Reply { text: self.listed.join("\n"), ..reply(Kind::Done) },
            _ => reply(Kind::Unstarted),
        }
    }

    fn drive<T>(&self, f: impl Fn(&mut Tape) -> Result<T, Stop>) -> Result<T, Failure> {
        let mut replies: Vec<Reply> = Vec::new();
        loop {
            match f(&mut Tape::new(replies.clone())) {
                Ok(v) => return Ok(v),
                Err(Stop::Fail(e)) => return Err(e),
                Err(Stop::Ask(q)) => replies.push(self.perform(&q)),
            }
        }
    }

    fn restore(&self, guard: &XattrGuard) -> Vec<String> {
        let ws = vec![("ws".to_string(), "/d".to_string())];
        self.drive(|tape| guard.restore(tape, &ws)).unwrap()
    }
}

fn alias_finder_info() -> Vec<u8> {
    let mut info = vec![0u8; 32];
    info[..8].copy_from_slice(b"alisMACS");
    info[8] = 0x80;
    info
}

fn hash(content: &[u8]) -> Vec<u8> {
    blake3::hash(content).as_bytes().to_vec()
}

fn candidate(ws_name: &str, content: &[u8], is_alias: bool) -> Candidate {
    Candidate {
        ws_name: ws_name.to_string(),
        finder_info: is_alias.then(alias_finder_info),
        resource_fork: None,
        content_hash: hash(content),
        is_alias,
    }
}

#[test]
fn finder_info_alias_flag_detected() {
    assert!(finder_info_marks_alias(&alias_finder_info()));
}

#[test]
fn finder_info_without_flag_rejected() {
    let mut info = vec![0u8; 32];
    info[..8].copy_from_slice(b"alisMACS");
    assert!(!finder_info_marks_alias(&info));
}

#[test]
fn finder_info_wrong_length_rejected() {
    assert!(!finder_info_marks_alias(b"alisMACS"));
    assert!(!finder_info_marks_alias(&[0x80u8; 64]));
}

#[test]
fn pick_exact_prefers_same_workspace() {
    let cands = vec![candidate("other", b"data", true), candidate("mine", b"data", true)];
    assert_eq!(pick_exact(&cands, "mine", &hash(b"data")).unwrap().ws_name, "mine");
    assert_eq!(pick_exact(&cands, "absent", &hash(b"data")).unwrap().ws_name, "other");
    assert!(pick_exact(&cands, "mine", &hash(b"else")).is_none());
}

#[test]
fn pick_alias_skips_non_alias_candidates() {
    let mut cands = vec![candidate("a", b"x", false), candidate("b", b"y", true)];
    assert_eq!(pick_alias(&cands, "a").unwrap().ws_name, "b");
    cands.pop();
    assert!(pick_alias(&cands, "a").is_none());
}

fn guard_with(rel: &str, cands: Vec<Candidate>, restore_enabled: bool) -> XattrGuard {
    XattrGuard {
        restore_enabled,
        findings: vec![Finding { rel: rel.to_string(), candidates: cands }],
        hard_links: Vec::new(),
    }
}

fn bookmark_content(payload: &[u8]) -> Vec<u8> {
    let mut content = b"book\0\0\0\0mark\0\0\0\0".to_vec();
    content.extend_from_slice(payload);
    content
}

#[test]
fn restore_applies_finder_info_on_exact_content_match() {
    let content = bookmark_content(b"payload");
    let disk = Disk::with("/d/a", &content);
    let guard = guard_with("a", vec![candidate("ws", &content, true)], true);
    let warnings = disk.restore(&guard);
    assert!(warnings.is_empty(), "unexpected warnings: {warnings:?}");
    assert!(finder_info_marks_alias(&disk.xattr("/d/a", FINDER_INFO_XATTR).unwrap()));
}

#[test]
fn restore_applies_flag_only_on_retargeted_bookmark() {
    let disk = Disk::with("/d/a", &bookmark_content(b"new-target"));
    let mut cand = candidate("ws", &bookmark_content(b"old-target"), true);
    cand.resource_fork = Some(b"stale fork".to_vec());
    let guard = guard_with("a", vec![cand], true);
    let warnings = disk.restore(&guard);
    assert!(warnings.is_empty(), "unexpected warnings: {warnings:?}");
    assert!(finder_info_marks_alias(&disk.xattr("/d/a", FINDER_INFO_XATTR).unwrap()));
    assert_eq!(disk.xattr("/d/a", RESOURCE_FORK_XATTR), None);
}

#[test]
fn restore_leaves_plain_replacement_alone() {
    let disk = Disk::with("/d/a", b"plain text now");
    let guard = guard_with("a", vec![candidate("ws", &bookmark_content(b"old"), true)], true);
    let warnings = disk.restore(&guard);
    assert!(warnings.is_empty(), "unexpected warnings: {warnings:?}");
    assert_eq!(disk.xattr("/d/a", FINDER_INFO_XATTR), None);
}

#[test]
fn restore_disabled_warns_instead_of_writing() {
    let content = bookmark_content(b"payload");
    let disk = Disk::with("/d/a", &content);
    let guard = guard_with("a", vec![candidate("ws", &content, true)], false);
    let warnings = disk.restore(&guard);
    assert_eq!(warnings.len(), 1, "got: {warnings:?}");
    assert!(warnings[0].contains("preserve-finder-xattrs = false"), "got: {warnings:?}");
    assert_eq!(disk.xattr("/d/a", FINDER_INFO_XATTR), None);
}

#[test]
fn restore_skips_file_with_existing_finder_info() {
    let disk = Disk::with("/d/a", &bookmark_content(b"payload"));
    let mut user_set = alias_finder_info();
    user_set[9] = 0x01;
    disk.xattrs
        .borrow_mut()
        .insert(("/d/a".to_string(), FINDER_INFO_XATTR.to_string()), user_set.clone());
    let guard = guard_with("a", vec![candidate("ws", &bookmark_content(b"payload"), true)], true);
    let warnings = disk.restore(&guard);
    assert!(warnings.is_empty(), "unexpected warnings: {warnings:?}");
    assert_eq!(disk.xattr("/d/a", FINDER_INFO_XATTR).unwrap(), user_set);
}

#[test]
fn orphan_bookmark_data_warns() {
    let disk = Disk::with("/d/a", &bookmark_content(b"payload"));
    let guard = guard_with("a", Vec::new(), true);
    let warnings = disk.restore(&guard);
    assert_eq!(warnings.len(), 1, "got: {warnings:?}");
    assert!(warnings[0].contains("alias flag lost"), "got: {warnings:?}");
}

#[test]
fn new_workspaces_are_searched_for_bookmark_data() {
    let mut disk = Disk::with("/d/a", &bookmark_content(b"payload"));
    disk.listed = vec!["a".to_string()];
    let guard = XattrGuard { restore_enabled: true, findings: vec![], hard_links: vec![] };
    assert!(disk.restore(&guard).is_empty());
    let warnings = disk.drive(|tape| guard.restore_new_workspace(tape, "ws", "/d")).unwrap();
    assert_eq!(warnings.len(), 1, "got: {warnings:?}");
    assert!(warnings[0].contains("alias flag lost"), "got: {warnings:?}");
}

#[test]
fn resource_fork_returns_with_the_same_content() {
    let content = bookmark_content(b"payload");
    let disk = Disk::with("/d/a", &content);
    let mut cand = candidate("ws", &content, true);
    cand.resource_fork = Some(b"fork".to_vec());
    assert!(disk.restore(&guard_with("a", vec![cand], true)).is_empty());
    assert_eq!(disk.xattr("/d/a", RESOURCE_FORK_XATTR).unwrap(), b"fork");
}

#[test]
fn failed_writes_are_reported() {
    let content = bookmark_content(b"payload");
    let mut disk = Disk::with("/d/a", &content);
    disk.writable = false;
    let warnings = disk.restore(&guard_with("a", vec![candidate("ws", &content, true)], true));
    assert_eq!(warnings.len(), 1, "got: {warnings:?}");
    assert!(warnings[0].contains("ws:a"), "got: {warnings:?}");
}

#[test]
fn broken_hard_links_are_reported() {
    let mut disk = Disk::with("/d/a", b"text");
    let link = || HardLink { ws_name: "ws".to_string(), rel: "a".to_string(), dev: 1, ino: 7 };
    let guard =
        XattrGuard { restore_enabled: true, findings: Vec::new(), hard_links: vec![link()] };
    assert_eq!(
        disk.restore(&guard),
        ["hard link broken: ws:a is now an independent file (jj cannot represent hard links)"]
    );
    disk.links.insert("/d/a".to_string(), 2);
    assert!(disk.restore(&guard).is_empty());
}

#[test]
fn plans_follow_the_hash_and_the_prefix() {
    let bookmark = bookmark_content(b"");
    let cands = vec![candidate("other", b"data", false), candidate("mine", b"alias", true)];
    let plan = plan_file(&cands, "mine", &b"text".to_vec(), Some(hash(b"data")));
    assert!(matches!(plan, Plan::Full(c) if c.ws_name == "other"));
    let plan = plan_file(&cands, "mine", &bookmark, Some(hash(b"changed")));
    assert!(matches!(plan, Plan::Mark(c) if c.ws_name == "mine"));
    let plain = vec![candidate("other", b"data", false)];
    let plan = plan_file(&plain, "mine", &bookmark, Some(hash(b"changed")));
    assert!(matches!(plan, Plan::Lost));
    assert!(matches!(plan_file(&vec![], "mine", &bookmark, None), Plan::Lost));
    let plan = plan_file(&cands, "mine", &b"text".to_vec(), Some(hash(b"changed")));
    assert!(matches!(plan, Plan::Leave));
}

#[test]
fn capture_records_aliases_and_links() {
    let content = bookmark_content(b"payload");
    let mut disk = Disk::with("/d/a", &content);
    disk.listed = vec!["a".to_string()];
    disk.links.insert("/d/a".to_string(), 2);
    disk.xattrs
        .borrow_mut()
        .insert(("/d/a".to_string(), FINDER_INFO_XATTR.to_string()), alias_finder_info());
    let ws = vec![("ws".to_string(), "/d".to_string())];
    let guard = disk.drive(|tape| XattrGuard::capture(tape, &ws, true)).unwrap();
    assert_eq!(guard.findings.len(), 1);
    assert_eq!(guard.findings[0].rel, "a");
    assert_eq!(guard.findings[0].candidates.len(), 1);
    assert!(guard.findings[0].candidates[0].is_alias);
    assert_eq!(guard.findings[0].candidates[0].content_hash, hash(&content));
    assert_eq!(guard.hard_links.len(), 1);
    // The same path of another workspace is another candidate.
    let both = vec![ws[0].clone(), ("two".to_string(), "/d".to_string())];
    let guard = disk.drive(|tape| XattrGuard::capture(tape, &both, true)).unwrap();
    assert_eq!(guard.findings.len(), 1);
    let names: Vec<&str> =
        guard.findings[0].candidates.iter().map(|c| c.ws_name.as_str()).collect();
    assert_eq!(names, ["ws", "two"]);
    assert_eq!(guard.hard_links.len(), 2);
}

#[test]
fn warnings_come_sorted_and_once() {
    let link = |ws: &str| HardLink {
        ws_name: ws.to_string(),
        rel: "a".to_string(),
        dev: 1,
        ino: 7,
    };
    let disk = Disk::with("/d/a", b"text");
    let guard = XattrGuard {
        restore_enabled: true,
        findings: Vec::new(),
        hard_links: vec![link("z"), link("b"), link("z")],
    };
    let ws = ["z", "b"].map(|n| (n.to_string(), "/d".to_string())).to_vec();
    let warnings = disk.drive(|tape| guard.restore(tape, &ws)).unwrap();
    assert_eq!(warnings.len(), 2, "got: {warnings:?}");
    assert!(warnings[0].contains("b:a") && warnings[1].contains("z:a"), "got: {warnings:?}");
}

#[test]
fn a_failing_listing_records_nothing() {
    let disk = Disk::with("/d/a", b"text");
    let ws = vec![("ws".to_string(), "/elsewhere".to_string())];
    let guard = disk.drive(|tape| XattrGuard::capture(tape, &ws, true)).unwrap();
    assert!(guard.findings.is_empty() && guard.hard_links.is_empty());
    assert!(disk.drive(|tape| guard.restore(tape, &ws)).unwrap().is_empty());
}
