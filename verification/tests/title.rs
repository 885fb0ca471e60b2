use namey::title::extract_cwd_from_title;

fn extract(title: &str) -> Option<String> {
    extract_cwd_from_title(title)
}

fn path(p: &str) -> Option<String> {
    Some(p.to_string())
}

#[test]
fn title_empty_gives_nothing() {
    assert_eq!(extract(""), None);
}

#[test]
fn title_of_whitespace_gives_nothing() {
    for title in [" ", "   ", "\t", "\n", " \r\n\t ", "\u{a0}\u{3000}"] {
        assert_eq!(extract(title), None, "title {:?}", title);
    }
}

#[test]
fn title_with_colon_space_marker() {
    assert_eq!(extract("bash: /home/me"), path("/home/me"));
    assert_eq!(extract("zsh: ~/code"), path("~/code"));
    assert_eq!(extract("foo: /a"), path("/a"));
}

#[test]
fn title_colon_space_marker_wins_over_leading_path() {
    assert_eq!(extract("/usr/bin/vim: /home/me/notes"), path("/home/me/notes"));
    assert_eq!(extract("~/bin/tool: ~/work"), path("~/work"));
    assert_eq!(extract("  /a: /b  "), path("/b"));
}

#[test]
fn title_uses_the_last_colon_space() {
    assert_eq!(extract("a: /x: /y"), path("/y"));
    assert_eq!(extract("ssh: host: ~"), path("~"));
}

#[test]
fn title_that_is_a_path() {
    assert_eq!(extract("/home/me"), path("/home/me"));
    assert_eq!(extract("~"), path("~"));
    assert_eq!(extract("  ~/code \n"), path("~/code"));
    assert_eq!(extract("/"), path("/"));
}

#[test]
fn title_that_is_a_path_with_an_unrelated_marker() {
    // after the last ": " stands no path, so the whole title counts
    assert_eq!(extract("/home/me: notes"), path("/home/me: notes"));
    assert_eq!(extract("/a:b"), path("/a:b"));
}

#[test]
fn title_with_bare_colon_marker() {
    assert_eq!(extract("user@host:/home/me"), path("/home/me"));
    assert_eq!(extract("user@host:~/code"), path("~/code"));
    assert_eq!(extract("me@box:~"), path("~"));
}

#[test]
fn title_bare_colon_after_failed_colon_space() {
    // the last ": " is followed by "b:/c", no path; the last ":" by "/c"
    assert_eq!(extract("a: b:/c"), path("/c"));
}

#[test]
fn title_remainder_is_trimmed() {
    assert_eq!(extract("bash:    /tmp   "), path("/tmp"));
    assert_eq!(extract("host:\t/tmp"), path("/tmp"));
    assert_eq!(extract("bash: \u{a0}/tmp"), path("/tmp"));
}

#[test]
fn title_without_a_path() {
    assert_eq!(extract("vim"), None);
    assert_eq!(extract("vim: notes.txt"), None);
    assert_eq!(extract("a:b"), None);
    assert_eq!(extract("cargo test"), None);
    assert_eq!(extract("bash:"), None);
    assert_eq!(extract("bash: "), None);
    assert_eq!(extract(":"), None);
}

#[test]
fn title_last_colon_decides() {
    // "/x" follows an earlier colon, but only the last one is looked at
    assert_eq!(extract("a:/x:y"), None);
}

#[test]
fn title_with_wide_characters() {
    assert_eq!(extract("端末: /home/ユーザー"), path("/home/ユーザー"));
    assert_eq!(extract("ユーザー@ホスト:~/仕事"), path("~/仕事"));
}
