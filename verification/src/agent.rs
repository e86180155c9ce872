use vstd::prelude::*;

use crate::codec::{is_url_safe, law_url_encoding_is_url_safe, percent_encode, url_encode};

verus! {

/// Files larger than this many bytes are left out of the document index.
pub const MAX_FILE_BYTES: u64 = 500000;

/// How many characters of a file go into its embedding.
pub const SNIPPET_CHARS: usize = 2000;

/// Why a desktop action was refused.
#[derive(Debug, Clone, Copy, PartialEq, Eq, Structural)]
pub enum AgentError {
    EmptyQuery,
    EmptyUrl,
    EmptyFilePath,
    IndexNotFound,
    EmptyIndex,
    NoMatch,
    EmailNotImplemented,
}

/// The text an action failure is reported with.
pub open spec fn agent_error_message(e: AgentError) -> Seq<char> {
    match e {
        AgentError::EmptyQuery => "Search query cannot be empty"@,
        AgentError::EmptyUrl => "URL cannot be empty"@,
        AgentError::EmptyFilePath => "File path cannot be empty"@,
        AgentError::IndexNotFound => "File index not found \u{2014} call index_filesystem() first"@,
        AgentError::EmptyIndex => "File index is empty"@,
        AgentError::NoMatch => "No matching file found"@,
        AgentError::EmailNotImplemented => "Email reading not implemented"@,
    }
}

impl AgentError {
    /// The text this failure is reported with.
    pub fn message(&self) -> (r: String)
        ensures
            r@ == agent_error_message(*self),
    {
        match self {
            AgentError::EmptyQuery => String::from_str("Search query cannot be empty"),
            AgentError::EmptyUrl => String::from_str("URL cannot be empty"),
            AgentError::EmptyFilePath => String::from_str("File path cannot be empty"),
            AgentError::IndexNotFound => String::from_str(
                "File index not found \u{2014} call index_filesystem() first",
            ),
            AgentError::EmptyIndex => String::from_str("File index is empty"),
            AgentError::NoMatch => String::from_str("No matching file found"),
            AgentError::EmailNotImplemented => String::from_str("Email reading not implemented"),
        }
    }
}

/// The file extensions whose files are read into the document index.
pub open spec fn readable_exts() -> Seq<Seq<char>> {
    seq![
        "txt"@, "md"@, "rs"@, "py"@, "js"@, "ts"@, "json"@, "toml"@,
        "yaml"@, "yml"@, "html"@, "css"@, "xml"@, "csv"@, "log"@,
    ]
}

/// Where the search engine is asked a query.
pub open spec fn search_prefix() -> Seq<char> {
    "https://www.google.com/search?q="@
}

/// The directory the document index lives under when no environment variable
/// names one.
pub open spec fn fallback_data_dir() -> Seq<char> {
    "."@
}

/// The directory searched for documents when no environment variable names
/// the user's home.
pub open spec fn fallback_home_dir() -> Seq<char> {
    "C:\\Users"@
}

/// The first of two candidates that is set, or `fallback`.
pub open spec fn first_set(a: Option<String>, b: Option<String>, fallback: Seq<char>) -> Seq<
    char,
> {
    match a {
        Some(x) => x@,
        None => match b {
            Some(y) => y@,
            None => fallback,
        },
    }
}

fn str_eq(a: &str, b: &str) -> (r: bool)
    ensures
        r == (a@ == b@),
{
    String::from_str(a) == String::from_str(b)
}

fn first_set_text(a: &Option<String>, b: &Option<String>, fallback: &str) -> (r: String)
    ensures
        r@ == first_set(*a, *b, fallback@),
{
    match a {
        Some(x) => x.clone(),
        None => match b {
            Some(y) => y.clone(),
            None => String::from_str(fallback),
        },
    }
}

/// The directory under which the assistant keeps its document index: the
/// local application data directory (`LOCALAPPDATA`), else the home directory
/// (`HOME`), else the current directory. The index itself is the file
/// `doc_index.bin` in its `personalproject` subdirectory.
pub fn index_base_dir(local_app_data: &Option<String>, home: &Option<String>) -> (r: String)
    ensures
        r@ == first_set(*local_app_data, *home, fallback_data_dir()),
{
    first_set_text(local_app_data, home, ".")
}

/// The directory that is searched for documents: the user profile
/// (`USERPROFILE`), else `HOME`, else `C:\Users`.
pub fn home_base_dir(user_profile: &Option<String>, home: &Option<String>) -> (r: String)
    ensures
        r@ == first_set(*user_profile, *home, fallback_home_dir()),
{
    first_set_text(user_profile, home, "C:\\Users")
}

/// Whether files with the extension `ext` (without its dot; case counts) are
/// read into the index.
pub fn is_readable_ext(ext: &str) -> (r: bool)
    ensures
        r == readable_exts().contains(ext@),
{
    let exts: [&str; 15] = [
        "txt", "md", "rs", "py", "js", "ts", "json", "toml", "yaml", "yml", "html", "css",
        "xml", "csv", "log",
    ];
    assert(exts@.map_values(|e: &str| e@) =~= readable_exts());
    let mut i: usize = 0;
    while i < 15
        invariant
            i <= 15,
            exts@.map_values(|e: &str| e@) == readable_exts(),
            forall|j: int| 0 <= j < i ==> readable_exts()[j] != ext@,
        decreases 15 - i,
    {
        if str_eq(exts[i], ext) {
            assert(readable_exts()[i as int] == ext@);
            return true;
        }
        i = i + 1;
    }
    false
}

/// Whether a walked directory entry goes into the document index: a regular
/// file, with a readable extension, whose size is known and at most
/// `MAX_FILE_BYTES`.
pub fn should_index(is_file: bool, ext: &str, size: Option<u64>) -> (r: bool)
    ensures
        r == (is_file && readable_exts().contains(ext@) && (size matches Some(n) && n
            <= MAX_FILE_BYTES)),
{
    if !is_file {
        return false;
    }
    if !is_readable_ext(ext) {
        return false;
    }
    match size {
        Some(n) => n <= MAX_FILE_BYTES,
        None => false,
    }
}

/// The part of a file's text that is embedded: its first `SNIPPET_CHARS`
/// characters.
pub fn snippet(content: &str) -> (r: String)
    ensures
        r@ == content@.take(if content@.len() < SNIPPET_CHARS {
            content@.len() as int
        } else {
            SNIPPET_CHARS as int
        }),
{
    let n = content.unicode_len();
    let k = if n < SNIPPET_CHARS {
        n
    } else {
        SNIPPET_CHARS
    };
    let part = content.substring_char(0, k);
    assert(content@.subrange(0, k as int) =~= content@.take(k as int));
    String::from_str(part)
}

/// Refuses an empty search query.
pub fn require_query(query: &str) -> (r: Result<(), AgentError>)
    ensures
        r is Err <==> query@.len() == 0,
        r matches Err(e) ==> e == AgentError::EmptyQuery,
{
    if query.is_empty() {
        Err(AgentError::EmptyQuery)
    } else {
        Ok(())
    }
}

/// Refuses an empty URL.
pub fn require_url(url: &str) -> (r: Result<(), AgentError>)
    ensures
        r is Err <==> url@.len() == 0,
        r matches Err(e) ==> e == AgentError::EmptyUrl,
{
    if url.is_empty() {
        Err(AgentError::EmptyUrl)
    } else {
        Ok(())
    }
}

/// Refuses an empty file path.
pub fn require_file_path(path: &str) -> (r: Result<(), AgentError>)
    ensures
        r is Err <==> path@.len() == 0,
        r matches Err(e) ==> e == AgentError::EmptyFilePath,
{
    if path.is_empty() {
        Err(AgentError::EmptyFilePath)
    } else {
        Ok(())
    }
}

/// Refuses to search an index that holds no document.
pub fn require_entries(count: usize) -> (r: Result<(), AgentError>)
    ensures
        r is Err <==> count == 0,
        r matches Err(e) ==> e == AgentError::EmptyIndex,
{
    if count == 0 {
        Err(AgentError::EmptyIndex)
    } else {
        Ok(())
    }
}

/// Reading mail is not available: always refused.
pub fn read_email() -> (r: Result<(), AgentError>)
    ensures
        r == Err::<(), AgentError>(AgentError::EmailNotImplemented),
{
    Err(AgentError::EmailNotImplemented)
}

/// The web search page for `query`: the search engine's address with the
/// URL-encoded query appended. An empty query is refused.
pub fn search_url(query: &str) -> (r: Result<String, AgentError>)
    ensures
        r is Err <==> query@.len() == 0,
        r matches Err(e) ==> e == AgentError::EmptyQuery,
        r matches Ok(u) ==> u@ == search_prefix() + percent_encode(
            vstd::utf8::encode_utf8(query@),
        ),
{
    require_query(query)?;
    let mut url = String::from_str("https://www.google.com/search?q=");
    let encoded = url_encode(query);
    url.append(encoded.as_str());
    Ok(url)
}

/// Of two environment variables, the first one that is set decides, whatever
/// the second holds; the fallback is used only when neither is set. So the
/// index lives under `LOCALAPPDATA` whenever it is set, and documents are
/// searched under `USERPROFILE` whenever it is set.
pub proof fn law_first_set_variable_decides(
    a: Option<String>,
    b: Option<String>,
    fallback: Seq<char>,
)
    ensures
        a matches Some(x) ==> first_set(a, b, fallback) == x@,
        a is None ==> (b matches Some(y) ==> first_set(a, b, fallback) == y@),
        a is None && b is None ==> first_set(a, b, fallback) == fallback,
{
}

/// Whatever the query, the search address holds it only in its `q` value:
/// after the search engine's address every character is a letter, a digit,
/// `-`, `.`, `_`, `~` or `%`.
pub proof fn law_search_query_stays_in_its_parameter(query: Seq<char>)
    ensures
        ({
            let url = search_prefix() + percent_encode(vstd::utf8::encode_utf8(query));
            forall|j: int| search_prefix().len() <= j < url.len() ==> is_url_safe(#[trigger] url[j])
        }),
{
    let e = percent_encode(vstd::utf8::encode_utf8(query));
    law_url_encoding_is_url_safe(vstd::utf8::encode_utf8(query));
    assert forall|j: int| search_prefix().len() <= j < (search_prefix() + e).len() implies is_url_safe(
        #[trigger] (search_prefix() + e)[j],
    ) by {
        assert((search_prefix() + e)[j] == e[j - search_prefix().len()]);
    }
}

} // verus!
