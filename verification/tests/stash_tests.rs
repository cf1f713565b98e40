use std::io::Write;

use gitui::stash::{get_stashes, stash};

/// Leave one untracked file with the given content in the working tree.
fn create_untracked_file(root: &std::path::Path, content: &[u8]) {
    let mut file =
        tempfile::Builder::new().prefix("foo").suffix(".txt").tempfile_in(root).unwrap();
    file.write_all(content).unwrap();
    let _ = file.keep().unwrap();
}

fn repo_init() -> (tempfile::TempDir, git2::Repository) {
    let td = tempfile::TempDir::new().unwrap();
    let mut opts = git2::RepositoryInitOptions::new();
    opts.initial_head("master");
    let repo = git2::Repository::init_opts(td.path(), &opts).unwrap();
    {
        let mut config = repo.config().unwrap();
        config.set_str("user.name", "name").unwrap();
        config.set_str("user.email", "email").unwrap();

        let mut index = repo.index().unwrap();
        let id = index.write_tree().unwrap();
        let tree = repo.find_tree(id).unwrap();
        let sig = repo.signature().unwrap();
        repo.commit(Some("HEAD"), &sig, &sig, "initial", &tree, &[]).unwrap();
    }
    (td, repo)
}

fn get_statuses(repo_path: &str) -> (usize, usize) {
    let repo = git2::Repository::open(repo_path).unwrap();
    let mut opts = git2::StatusOptions::new();
    opts.include_untracked(true);
    let statuses = repo.statuses(Some(&mut opts)).unwrap();
    let mut changed = 0;
    let mut conflicted = 0;
    for entry in statuses.iter() {
        let s = entry.status();
        if s.is_conflicted() {
            conflicted += 1;
        } else if s != git2::Status::CURRENT && !s.is_ignored() {
            changed += 1;
        }
    }
    (changed, conflicted)
}

#[test]
fn stash_test_smoke() {
    let (_td, repo) = repo_init();
    let root = repo.path().parent().unwrap();
    let repo_path = root.as_os_str().to_str().unwrap();

    assert_eq!(stash(repo_path, "").is_ok(), false);

    assert_eq!(get_stashes(repo_path).unwrap().0.is_empty(), true);
}

#[test]
fn test_stashing() {
    let (_td, repo) = repo_init();
    let root = repo.path().parent().unwrap();
    let repo_path = root.as_os_str().to_str().unwrap();

    create_untracked_file(root, b"test\nfoo");

    assert_eq!(get_statuses(repo_path), (1, 0));

    stash(repo_path, "stashname").unwrap();

    assert_eq!(get_statuses(repo_path), (0, 0));
}

#[test]
fn test_stashes() {
    let (_td, repo) = repo_init();
    let root = repo.path().parent().unwrap();
    let repo_path = root.as_os_str().to_str().unwrap();

    create_untracked_file(root, b"test\nfoo");

    stash(repo_path, "foo").unwrap();

    let res = get_stashes(repo_path).unwrap();

    assert_eq!(res.0.len(), 1);
    assert_eq!(res.0[0], "On master: foo");
}

#[test]
fn test_get_stashes_bad_path_is_error() {
    let err = get_stashes("/definitely/not/a/repository").unwrap_err();
    assert!(!err.message().is_empty());
}
