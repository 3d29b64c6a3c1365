//! Where a schema kept in a GitHub repository is fetched from, and what is
//! made of the answers. The fetching itself is left to the caller.

use vstd::prelude::*;
use crate::error::{Error, Failure};
use crate::json::{from_outside, JsonModel, JsonValue};

verus! {

/// The pattern stands in the text at the position.
pub open spec fn occurs_at(text: Seq<char>, pattern: Seq<char>, at: int) -> bool {
    &&& 0 <= at
    &&& at + pattern.len() <= text.len()
    &&& text.subrange(at, at + pattern.len()) == pattern
}

/// The first position at or after `from` at which the pattern stands in the
/// text.
pub open spec fn find_from(text: Seq<char>, pattern: Seq<char>, from: int) -> Option<int>
    decreases text.len() - from + 1,
{
    if from < 0 || from + pattern.len() > text.len() {
        None
    } else if occurs_at(text, pattern, from) {
        Some(from)
    } else {
        find_from(text, pattern, from + 1)
    }
}

/// The first position at which the pattern stands in the text.
pub open spec fn find(text: Seq<char>, pattern: Seq<char>) -> Option<int> {
    find_from(text, pattern, 0)
}

/// What is found is the first place where the pattern stands, and nothing
/// is found only where it stands nowhere.
pub proof fn lemma_find_from(text: Seq<char>, pattern: Seq<char>, from: int)
    requires
        0 <= from,
    ensures
        match find_from(text, pattern, from) {
            Some(at) => from <= at && occurs_at(text, pattern, at) && forall|j: int|
                from <= j < at ==> !occurs_at(text, pattern, j),
            None => forall|j: int| from <= j ==> !occurs_at(text, pattern, j),
        },
    decreases text.len() - from + 1,
{
    if from + pattern.len() <= text.len() && !occurs_at(text, pattern, from) {
        lemma_find_from(text, pattern, from + 1);
    }
}

/// The characters of a text.
pub fn chars_of(text: &str) -> (chars: Vec<char>)
    ensures
        chars@ == text@,
{
    let length = text.unicode_len();
    let mut chars: Vec<char> = Vec::new();
    let mut i: usize = 0;
    while i < length
        invariant
            i <= length,
            length == text@.len(),
            chars@ == text@.take(i as int),
        decreases length - i,
    {
        chars.push(text.get_char(i));
        assert(text@.take(i + 1) =~= text@.take(i as int).push(text@[i as int]));
        i += 1;
    }
    assert(text@.take(length as int) =~= text@);
    chars
}

/// Whether the pattern stands in the text at the position.
pub fn stands_at(text: &Vec<char>, pattern: &Vec<char>, at: usize) -> (stands: bool)
    requires
        at + pattern.len() <= text.len(),
    ensures
        stands == occurs_at(text@, pattern@, at as int),
{
    let mut k: usize = 0;
    while k < pattern.len()
        invariant
            k <= pattern.len(),
            at + pattern.len() <= text.len(),
            forall|j: int| 0 <= j < k ==> text@[at + j] == pattern@[j],
        decreases pattern.len() - k,
    {
        if text[at + k] != pattern[k] {
            assert(text@.subrange(at as int, at + pattern.len())[k as int] != pattern@[k as int]);
            return false;
        }
        k += 1;
    }
    assert(text@.subrange(at as int, at + pattern.len()) =~= pattern@);
    true
}

/// The first position at or after `from` at which the pattern stands in the
/// text.
pub fn search_from(text: &Vec<char>, pattern: &Vec<char>, from: usize) -> (found: Option<usize>)
    ensures
        match found {
            Some(at) => find_from(text@, pattern@, from as int) == Some(at as int),
            None => find_from(text@, pattern@, from as int) is None,
        },
{
    if pattern.len() > text.len() {
        return None;
    }
    let last = text.len() - pattern.len();
    let mut at: usize = from;
    while at <= last
        invariant
            from <= at,
            last + pattern.len() == text.len(),
            find_from(text@, pattern@, from as int) == find_from(text@, pattern@, at as int),
        decreases last - at,
    {
        if stands_at(text, pattern, at) {
            return Some(at);
        }
        if at == last {
            assert(find_from(text@, pattern@, at + 1) is None);
            return None;
        }
        at += 1;
    }
    None
}

/// The address from which the GitHub API gives the metadata of the file that
/// a GitHub URL shows: the repository is what stands between `github.com/`
/// and the first `/blob/`, or the first `/tree/` where there is no `/blob/`;
/// the branch is what follows up to the next `/`, and the path the rest.
/// `None` where a marker is missing, `github.com/` does not stand before the
/// marker, or no path follows the branch.
pub open spec fn github_api_url(url: Seq<char>) -> Option<Seq<char>> {
    let marker = if find(url, "/blob/"@) is Some {
        "/blob/"@
    } else {
        "/tree/"@
    };
    match (find(url, "github.com/"@), find(url, marker)) {
        (Some(host), Some(end)) => if host + 11 <= end {
            let repository = url.subrange(host + 11, end);
            let rest = url.subrange(end + 6, url.len() as int);
            match find(rest, "/"@) {
                Some(slash) => Some(
                    "https://api.github.com/repos/"@ + repository + "/contents/"@ + rest.subrange(
                        slash + 1,
                        rest.len() as int,
                    ) + "?ref="@ + rest.subrange(0, slash),
                ),
                None => None,
            }
        } else {
            None
        },
        _ => None,
    }
}

/// Builds the address of the GitHub API for the file that a GitHub URL
/// shows. Fails with `MalformedInput` exactly where the URL has no such
/// address.
pub fn construct_github_api_url(schema_url: &str) -> (outcome: Result<String, Error>)
    ensures
        match outcome {
            Ok(address) => github_api_url(schema_url@) == Some(address@),
            Err(error) => github_api_url(schema_url@) is None && error.failure()
                == Failure::MalformedInput,
        },
{
    proof {
        reveal_strlit("/blob/");
        reveal_strlit("/tree/");
        reveal_strlit("github.com/");
        reveal_strlit("/");
    }
    let url = chars_of(schema_url);
    let blob = chars_of("/blob/");
    let tree = chars_of("/tree/");
    let end = match search_from(&url, &blob, 0) {
        Some(end) => end,
        None => match search_from(&url, &tree, 0) {
            Some(end) => end,
            None => {
                return Err(
                    Error::MalformedInput(
                        String::from_str("Invalid GitHub URL: missing '/blob/' or '/tree/'"),
                    ),
                );
            },
        },
    };
    let host = match search_from(&url, &chars_of("github.com/"), 0) {
        Some(host) => host,
        None => {
            return Err(Error::MalformedInput(String::from_str("Invalid GitHub URL")));
        },
    };
    proof {
        lemma_find_from(url@, "/blob/"@, 0);
        lemma_find_from(url@, "/tree/"@, 0);
        lemma_find_from(url@, "github.com/"@, 0);
        assert("github.com/"@.len() == 11 && "/blob/"@.len() == 6 && "/tree/"@.len() == 6);
        assert(occurs_at(url@, "github.com/"@, host as int));
    }
    let length = url.len();
    if host + 11 > end {
        return Err(Error::MalformedInput(String::from_str("Invalid GitHub URL")));
    }
    let rest = chars_of(schema_url.substring_char(end + 6, length));
    let slash = match search_from(&rest, &chars_of("/"), 0) {
        Some(slash) => slash,
        None => {
            return Err(
                Error::MalformedInput(String::from_str("Invalid GitHub URL: missing file path")),
            );
        },
    };
    proof {
        lemma_find_from(rest@, "/"@, 0);
    }
    let mut address = String::from_str("https://api.github.com/repos/");
    address.append(schema_url.substring_char(host + 11, end));
    address.append("/contents/");
    address.append(schema_url.substring_char(end + 7 + slash, length));
    address.append("?ref=");
    address.append(schema_url.substring_char(end + 6, end + 6 + slash));
    proof {
        let tail = schema_url@.subrange(end + 6, length as int);
        assert(tail.subrange(slash + 1, tail.len() as int) =~= schema_url@.subrange(
            end + 7 + slash,
            length as int,
        ));
        assert(tail.subrange(0, slash as int) =~= schema_url@.subrange(
            end + 6,
            end + 6 + slash,
        ));
    }
    Ok(address)
}

/// The address under `download_url` in the metadata that the GitHub API
/// gives of a file; `None` where the entry is absent or no string.
pub open spec fn download_url(metadata: JsonModel) -> Option<Seq<char>> {
    match metadata.field("download_url"@) {
        Some(JsonModel::Text(address)) => Some(address),
        _ => None,
    }
}

/// The address from which the content of a file is fetched, out of the
/// metadata that the GitHub API gave of it. Fails with `MalformedInput`
/// exactly where the metadata holds no such address.
pub fn download_url_of(metadata: &JsonValue) -> (outcome: Result<String, Error>)
    ensures
        match outcome {
            Ok(address) => download_url(metadata@) == Some(address@),
            Err(error) => download_url(metadata@) is None && error.failure()
                == Failure::MalformedInput,
        },
{
    match metadata.get("download_url") {
        Some(JsonValue::Text(address)) => Ok(address.clone()),
        _ => Err(
            Error::MalformedInput(String::from_str("download_url field missing or not a string")),
        ),
    }
}

/// The tree that `serde_yaml` reads from a text; `None` where it rejects the
/// text or the text holds what JSON cannot.
pub uninterp spec fn yaml_parsed(text: Seq<char>) -> Option<JsonModel>;

/// `serde_yaml::from_str`, read as a `serde_json::Value`. The contract names
/// the tree.
#[verifier::external_body]
fn read_yaml_outside(text: &str) -> (outcome: Result<JsonValue, String>)
    ensures
        match outcome {
            Ok(value) => yaml_parsed(text@) == Some(value@),
            Err(_) => yaml_parsed(text@) is None,
        },
{
    match serde_yaml::from_str::<serde_json::Value>(text) {
        Ok(value) => Ok(from_outside(&value)),
        Err(error) => Err(error.to_string()),
    }
}

/// Reads the content of a schema file, which is YAML and so may be JSON.
/// Fails with `MalformedInput` exactly where `serde_yaml` rejects it.
pub fn schema_of_content(content: &str) -> (outcome: Result<JsonValue, Error>)
    ensures
        match outcome {
            Ok(value) => yaml_parsed(content@) == Some(value@),
            Err(error) => yaml_parsed(content@) is None && error.failure()
                == Failure::MalformedInput,
        },
{
    match read_yaml_outside(content) {
        Ok(value) => Ok(value),
        Err(reason) => Err(Error::MalformedInput(reason)),
    }
}

} // verus!
