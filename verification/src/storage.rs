//! The shapes of the on-disk stores that the surrounding process reads and
//! writes: the configuration file path layout and the two-line token file.

use crate::tokens::Tokens;
use vstd::prelude::*;

verus! {

/// The position of the first line break at or after `from`, or the length of
/// the text when there is none.
pub open spec fn first_newline(s: Seq<char>, from: int) -> int
    decreases s.len() - from,
{
    if from < 0 || from >= s.len() {
        s.len() as int
    } else if s[from] == '\n' {
        from
    } else {
        first_newline(s, from + 1)
    }
}

/// `first_newline` names the first break: the position it names carries a
/// line break (unless it is the end), and nothing before it does.
pub proof fn lemma_first_newline_is_first(s: Seq<char>, from: int, i: int)
    requires
        0 <= from <= i <= s.len(),
        forall|k: int| from <= k < i ==> s[k] != '\n',
        i < s.len() ==> s[i] == '\n',
    ensures
        first_newline(s, from) == i,
    decreases i - from,
{
    if from < i {
        lemma_first_newline_is_first(s, from + 1, i);
    }
}

/// The absolute path of a file in the configuration directory: the base path,
/// a separator, and the file's name.
pub fn get_config_file_path(base: &str, filename: &str) -> (path: String)
    ensures
        path@ == base@ + seq!['/'] + filename@,
{
    let path = String::from_str(base).concat("/").concat(filename);
    proof {
        reveal_strlit("/");
        assert("/"@ =~= seq!['/']);
        assert(base@ + "/"@ + filename@ =~= base@ + seq!['/'] + filename@);
    }
    path
}

/// The token file's layout: the access token, a line break, the refresh
/// token.
pub fn format_tokens(access_token: &str, refresh_token: &str) -> (content: String)
    ensures
        content@ == access_token@ + seq!['\n'] + refresh_token@,
{
    let content = String::from_str(access_token).concat("\n").concat(refresh_token);
    proof {
        reveal_strlit("\n");
        assert("\n"@ =~= seq!['\n']);
        assert(access_token@ + "\n"@ + refresh_token@ =~= access_token@ + seq!['\n']
            + refresh_token@);
    }
    content
}

/// Read a token pair out of the token file's text: the access token is the
/// first line, the refresh token the second. Text without any line break is
/// not a token file.
pub fn parse_tokens(content: &str) -> (r: Option<Tokens>)
    ensures
        r is Some <==> first_newline(content@, 0) < content@.len(),
        r matches Some(t) ==> ({
            let i = first_newline(content@, 0);
            let j = first_newline(content@, i + 1);
            &&& t.access_token@ == content@.subrange(0, i)
            &&& t.refresh_token@ == content@.subrange(i + 1, j)
        }),
{
    let n = content.unicode_len();
    let i = find_newline(content, 0);
    if i == n {
        return None;
    }
    let access = content.substring_char(0, i);
    let j = find_newline(content, i + 1);
    let refresh = content.substring_char(i + 1, j);
    Some(
        Tokens {
            access_token: String::from_str(access),
            refresh_token: String::from_str(refresh),
        },
    )
}

/// The position of the first line break at or after `from`, or the text's
/// length when there is none.
fn find_newline(s: &str, from: usize) -> (idx: usize)
    requires
        from <= s@.len(),
    ensures
        idx == first_newline(s@, from as int),
        from <= idx <= s@.len(),
{
    let n = s.unicode_len();
    let mut i: usize = from;
    while i < n
        invariant
            from <= i <= n,
            n == s@.len(),
            first_newline(s@, from as int) == first_newline(s@, i as int),
        decreases n - i,
    {
        if s.get_char(i) == '\n' {
            return i;
        }
        i = i + 1;
    }
    n
}

/// Writing a token pair and reading the text back yields the pair unchanged,
/// provided neither token holds a line break (a token with one could not
/// survive the line-oriented layout).
pub proof fn lemma_tokens_round_trip(access: Seq<char>, refresh: Seq<char>)
    requires
        forall|k: int| 0 <= k < access.len() ==> access[k] != '\n',
        forall|k: int| 0 <= k < refresh.len() ==> refresh[k] != '\n',
    ensures
        ({
            let f = access + seq!['\n'] + refresh;
            &&& first_newline(f, 0) == access.len()
            &&& first_newline(f, 0) < f.len()
            &&& f.subrange(0, first_newline(f, 0)) == access
            &&& f.subrange(first_newline(f, 0) + 1, first_newline(f, first_newline(f, 0) + 1))
                == refresh
        }),
{
    let f = access + seq!['\n'] + refresh;
    assert(f.len() == access.len() + 1 + refresh.len());
    assert(f[access.len() as int] == '\n');
    assert(forall|k: int| 0 <= k < access.len() ==> f[k] == access[k]);
    lemma_first_newline_is_first(f, 0, access.len() as int);
    assert(forall|k: int|
        access.len() + 1 <= k < f.len() ==> f[k] == refresh[k - access.len() - 1]);
    lemma_first_newline_is_first(f, access.len() + 1 as int, f.len() as int);
    assert(f.subrange(0, access.len() as int) =~= access);
    assert(f.subrange(access.len() + 1 as int, f.len() as int) =~= refresh);
}

} // verus!
