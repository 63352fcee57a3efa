use openv::locate::{find_root_with_marker, find_valid_env_file_path, Directory, Marker};

fn directory(path: &str, has_git: bool, env: Option<&str>) -> Directory {
    Directory {
        path: String::from(path),
        has_git,
        has_env: env.is_some(),
        env_path: format!("{path}/.env"),
        env_text: env.map(String::from),
        config_text: None,
    }
}

#[test]
fn nearest_directory_with_the_marker_is_the_root() {
    let ancestors = vec![
        directory("/a/b/c", false, None),
        directory("/a/b", true, Some("X=1")),
        directory("/a", true, None),
        directory("/", false, Some("Y=2")),
    ];
    assert_eq!(find_root_with_marker(&ancestors, Marker::Git), Some(1));
    assert_eq!(find_root_with_marker(&ancestors, Marker::Env), Some(1));
    let upper = vec![directory("/a", true, None), directory("/", false, Some("Y=2"))];
    assert_eq!(find_root_with_marker(&upper, Marker::Git), Some(0));
    assert_eq!(find_root_with_marker(&upper, Marker::Env), Some(1));
}

#[test]
fn no_root_without_a_marker() {
    let ancestors = vec![directory("/a/b", false, None), directory("/a", false, None)];
    assert_eq!(find_root_with_marker(&ancestors, Marker::Git), None);
    assert_eq!(find_root_with_marker(&ancestors, Marker::Env), None);
    assert_eq!(find_root_with_marker(&Vec::new(), Marker::Git), None);
    assert_eq!(find_valid_env_file_path(&ancestors), None);
    assert_eq!(find_valid_env_file_path(&Vec::new()), None);
}

#[test]
fn working_directory_itself_may_be_the_root() {
    let ancestors = vec![directory("/a", true, Some("K=op://v/i/f")), directory("/", true, None)];
    assert_eq!(find_root_with_marker(&ancestors, Marker::Git), Some(0));
    assert_eq!(find_valid_env_file_path(&ancestors), Some(0));
}

#[test]
fn env_file_of_the_git_root_is_the_one_that_counts() {
    let ancestors = vec![
        directory("/a/b/c", false, Some("K=op://v/i/f")),
        directory("/a/b", true, None),
        directory("/a", false, Some("K=op://v/i/f")),
    ];
    assert_eq!(find_valid_env_file_path(&ancestors), None);
}

#[test]
fn env_file_marks_the_root_without_git() {
    let ancestors = vec![
        directory("/a/b/c", false, None),
        directory("/a/b", false, Some("# nothing secret")),
        directory("/a", false, Some("K=op://v/i/f")),
    ];
    assert_eq!(find_root_with_marker(&ancestors, Marker::Env), Some(1));
    assert_eq!(find_valid_env_file_path(&ancestors), None);
    let nearer = vec![
        directory("/a/b", false, Some("A=1\nK=\"op://v/i/f\"\n")),
        directory("/a", false, Some("# nothing secret")),
    ];
    assert_eq!(find_valid_env_file_path(&nearer), Some(0));
}

#[test]
fn env_file_must_be_readable_and_refer_to_a_secret() {
    let mut unreadable = directory("/a", true, Some("K=op://v/i/f"));
    unreadable.env_text = None;
    assert_eq!(find_valid_env_file_path(&vec![unreadable]), None);
    let mut missing = directory("/a", true, Some("K=op://v/i/f"));
    missing.has_env = false;
    assert_eq!(find_valid_env_file_path(&vec![missing]), None);
    assert_eq!(find_valid_env_file_path(&vec![directory("/a", true, Some("K=op:/v"))]), None);
    assert_eq!(find_valid_env_file_path(&vec![directory("/a", true, Some(""))]), None);
    assert_eq!(find_valid_env_file_path(&vec![directory("/a", true, Some("op://"))]), Some(0));
}
