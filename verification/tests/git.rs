use devenv_provision::error::ErrorKind;
use devenv_provision::git::{
    clone_command, get_git_remote_url, is_git_repo, plan_clone, SourceReport, METADATA_ENTRY,
};
use devenv_provision::session::SecureSession;

fn names(entries: &[&str]) -> Vec<String> {
    entries.iter().map(|entry| entry.to_string()).collect()
}

fn entries_under(path: &str) -> Vec<String> {
    match std::path::Path::new(path).read_dir() {
        Ok(listing) => listing
            .filter_map(|entry| entry.ok())
            .map(|entry| entry.file_name().to_string_lossy().into_owned())
            .collect(),
        Err(_) => Vec::new(),
    }
}

fn read_source(path: &str) -> SourceReport {
    if !is_git_repo(&entries_under(path)) {
        return SourceReport::NotARepository;
    }
    let repository = match git2::Repository::open(path) {
        Ok(repository) => repository,
        Err(_) => return SourceReport::Unreadable,
    };
    let report = match repository.find_remote("origin") {
        Ok(remote) => SourceReport::Origin(remote.url().unwrap_or_default().to_string()),
        Err(error) => {
            if error.code() == git2::ErrorCode::NotFound {
                SourceReport::NoOrigin
            } else {
                SourceReport::Unreadable
            }
        }
    };
    report
}

#[test]
fn directory_with_metadata_entry_is_a_repository() {
    assert_eq!(METADATA_ENTRY, ".git");
    assert!(is_git_repo(&names(&[".git"])));
    assert!(is_git_repo(&names(&["src", ".git", "Cargo.toml"])));
    assert!(is_git_repo(&names(&["src", "Cargo.toml", ".git"])));
    assert!(is_git_repo(&names(&[".git", ".git"])));
}

#[test]
fn directory_without_metadata_entry_is_no_repository() {
    assert!(!is_git_repo(&names(&["src", "Cargo.toml", "README.md"])));
    assert!(!is_git_repo(&names(&[".gitignore", ".github", "git", ".git2"])));
    assert!(!is_git_repo(&names(&[".GIT", " .git", ".git ", ".git/"])));
    assert!(!is_git_repo(&names(&["src/.git", "../.git"])));
    assert!(!is_git_repo(&names(&[""])));
}

#[test]
fn directory_without_entries_is_no_repository() {
    assert!(!is_git_repo(&Vec::new()));
    assert!(!is_git_repo(&entries_under(
        "/devenv-provision-tests/no/such/directory"
    )));
}

#[test]
fn initialised_work_tree_is_a_repository() {
    let path = "/tmp/devenv-provision-tests/initialised";
    git2::Repository::init(path).unwrap();
    assert!(is_git_repo(&entries_under(path)));
    assert!(!is_git_repo(&entries_under("/tmp/devenv-provision-tests")));
}

#[test]
fn directory_below_a_work_tree_is_no_repository() {
    let path = "/tmp/devenv-provision-tests/outer";
    git2::Repository::init(path).unwrap();
    git2::Repository::init("/tmp/devenv-provision-tests/outer/inner").unwrap();
    assert!(is_git_repo(&entries_under(path)));
    assert!(!is_git_repo(&entries_under(
        "/tmp/devenv-provision-tests/outer/inner/.git"
    )));
    assert!(!is_git_repo(&entries_under("/tmp/devenv-provision-tests/outer/.git/refs")));
}

#[test]
fn origin_is_read_from_a_repository() {
    let path = "/tmp/devenv-provision-tests/with-origin";
    let repository = git2::Repository::init(path).unwrap();
    if repository.find_remote("origin").is_err() {
        repository
            .remote("origin", "git@example.com:org/app.git")
            .unwrap();
    }
    assert_eq!(
        get_git_remote_url(read_source(path)),
        Ok("git@example.com:org/app.git".to_string())
    );
}

#[test]
fn repository_without_origin_is_told_apart() {
    let path = "/tmp/devenv-provision-tests/without-origin";
    git2::Repository::init(path).unwrap();
    assert_eq!(
        get_git_remote_url(read_source(path)),
        Err(ErrorKind::NoOriginRemoteError)
    );
    assert_eq!(
        get_git_remote_url(read_source("/devenv-provision-tests/no/such/directory")),
        Err(ErrorKind::NotAGitRepoError)
    );
}

#[test]
fn every_report_has_its_answer() {
    assert_eq!(
        get_git_remote_url(SourceReport::NotARepository),
        Err(ErrorKind::NotAGitRepoError)
    );
    assert_eq!(
        get_git_remote_url(SourceReport::Unreadable),
        Err(ErrorKind::GitError)
    );
    assert_eq!(
        get_git_remote_url(SourceReport::NoOrigin),
        Err(ErrorKind::NoOriginRemoteError)
    );
    assert_eq!(
        get_git_remote_url(SourceReport::Origin("https://example.com/app.git".to_string())),
        Ok("https://example.com/app.git".to_string())
    );
}

#[test]
fn empty_address_is_no_origin() {
    assert_eq!(
        get_git_remote_url(SourceReport::Origin(String::new())),
        Err(ErrorKind::NoOriginRemoteError)
    );
    assert_eq!(
        plan_clone(SourceReport::Origin(String::new())),
        Err(ErrorKind::NoOriginRemoteError)
    );
}

#[test]
fn clone_is_planned_for_an_origin_only() {
    assert_eq!(plan_clone(SourceReport::NotARepository), Ok(None));
    assert_eq!(
        plan_clone(SourceReport::Origin("git@example.com:org/app.git".to_string())),
        Ok(Some("git@example.com:org/app.git".to_string()))
    );
    assert_eq!(
        plan_clone(SourceReport::NoOrigin),
        Err(ErrorKind::NoOriginRemoteError)
    );
    assert_eq!(plan_clone(SourceReport::Unreadable), Err(ErrorKind::GitError));
}

#[test]
fn clone_command_holds_the_address_as_it_is() {
    assert_eq!(
        clone_command("git@example.com:org/app.git"),
        "git clone git@example.com:org/app.git"
    );
    assert_eq!(clone_command(""), "git clone ");
    assert_eq!(
        clone_command("https://example.com/a b.git"),
        "git clone https://example.com/a b.git"
    );
}

#[test]
fn clone_on_remote_is_a_command_on_the_session() {
    let mut session = SecureSession::new();
    assert_eq!(
        session.clone_on_remote("git@example.com:org/app.git").err(),
        Some(ErrorKind::ExecError)
    );
    session.on_connect(true).unwrap();
    session.on_authenticate(true).unwrap();
    let request = session
        .clone_on_remote("git@example.com:org/app.git")
        .unwrap();
    assert_eq!(
        request.command_line(),
        "git clone git@example.com:org/app.git"
    );
}
