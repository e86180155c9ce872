use personalproject::agent::{
    home_base_dir, index_base_dir, is_readable_ext, read_email, require_entries,
    require_file_path, require_query, require_url, search_url, should_index, snippet, AgentError,
    MAX_FILE_BYTES,
};

fn some(s: &str) -> Option<String> {
    Some(s.to_string())
}

#[test]
fn index_dir_prefers_local_app_data() {
    assert_eq!(index_base_dir(&some("C:\\AppData"), &some("/home/u")), "C:\\AppData");
    assert_eq!(index_base_dir(&None, &some("/home/u")), "/home/u");
    assert_eq!(index_base_dir(&None, &None), ".");
}

#[test]
fn home_dir_prefers_user_profile() {
    assert_eq!(home_base_dir(&some("C:\\Users\\me"), &some("/home/u")), "C:\\Users\\me");
    assert_eq!(home_base_dir(&None, &some("/home/u")), "/home/u");
    assert_eq!(home_base_dir(&None, &None), "C:\\Users");
}

#[test]
fn readable_extensions() {
    for ext in ["txt", "md", "rs", "py", "js", "ts", "json", "toml", "yaml", "yml", "html", "css", "xml", "csv", "log"] {
        assert!(is_readable_ext(ext), "{ext}");
    }
    assert!(!is_readable_ext("MD"));
    assert!(!is_readable_ext("exe"));
    assert!(!is_readable_ext(""));
    assert!(!is_readable_ext(".txt"));
}

#[test]
fn which_entries_are_indexed() {
    assert!(should_index(true, "md", Some(10)));
    assert!(should_index(true, "md", Some(MAX_FILE_BYTES)));
    assert!(!should_index(true, "md", Some(MAX_FILE_BYTES + 1)));
    assert!(!should_index(true, "md", None));
    assert!(!should_index(false, "md", Some(10)));
    assert!(!should_index(true, "pdf", Some(10)));
}

#[test]
fn snippet_keeps_first_two_thousand_chars() {
    assert_eq!(snippet("short"), "short");
    assert_eq!(snippet(""), "");
    let long: String = "ab".repeat(1500);
    assert_eq!(snippet(&long), "ab".repeat(1000));
    let wide: String = "\u{e9}".repeat(2001);
    let s = snippet(&wide);
    assert_eq!(s.chars().count(), 2000);
    assert_eq!(s, "\u{e9}".repeat(2000));
}

#[test]
fn empty_inputs_are_refused() {
    assert_eq!(require_query(""), Err(AgentError::EmptyQuery));
    assert_eq!(require_query("x"), Ok(()));
    assert_eq!(require_url(""), Err(AgentError::EmptyUrl));
    assert_eq!(require_url("https://a"), Ok(()));
    assert_eq!(require_file_path(""), Err(AgentError::EmptyFilePath));
    assert_eq!(require_file_path("a.txt"), Ok(()));
    assert_eq!(require_entries(0), Err(AgentError::EmptyIndex));
    assert_eq!(require_entries(3), Ok(()));
}

#[test]
fn email_is_not_implemented() {
    assert_eq!(read_email(), Err(AgentError::EmailNotImplemented));
    assert_eq!(AgentError::EmailNotImplemented.message(), "Email reading not implemented");
}

#[test]
fn error_messages() {
    assert_eq!(AgentError::EmptyQuery.message(), "Search query cannot be empty");
    assert_eq!(AgentError::EmptyUrl.message(), "URL cannot be empty");
    assert_eq!(AgentError::EmptyFilePath.message(), "File path cannot be empty");
    assert_eq!(
        AgentError::IndexNotFound.message(),
        "File index not found \u{2014} call index_filesystem() first"
    );
    assert_eq!(AgentError::EmptyIndex.message(), "File index is empty");
    assert_eq!(AgentError::NoMatch.message(), "No matching file found");
}

#[test]
fn search_urls() {
    assert_eq!(search_url(""), Err(AgentError::EmptyQuery));
    assert_eq!(
        search_url("hello world!").unwrap(),
        "https://www.google.com/search?q=hello%20world%21"
    );
    assert_eq!(search_url("a-b_c.d~9Z").unwrap(), "https://www.google.com/search?q=a-b_c.d~9Z");
    assert_eq!(search_url("caf\u{e9}").unwrap(), "https://www.google.com/search?q=caf%C3%A9");
    assert_eq!(search_url("1+1=2&x/y").unwrap(), "https://www.google.com/search?q=1%2B1%3D2%26x%2Fy");
    let q = "rust \u{1F980} verus?";
    assert_eq!(
        search_url(q).unwrap(),
        format!("https://www.google.com/search?q={}", urlencoding::encode(q))
    );
}

#[test]
fn search_query_characters_stay_in_the_parameter() {
    let prefix = "https://www.google.com/search?q=";
    for q in ["a&b=c#d", "x y?z/w", "\u{e9}\u{1F980}\n\t\"'<>", "100%"] {
        let url = search_url(q).unwrap();
        assert!(url.starts_with(prefix));
        for c in url[prefix.len()..].chars() {
            assert!(c.is_ascii_alphanumeric() || "-._~%".contains(c), "{c:?} in {url}");
        }
    }
}
