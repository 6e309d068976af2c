//! Browser helpers: the session and fetch records, the text of a fetched
//! page, and web search.

use vstd::prelude::*;
use crate::text::{cat, contains, is_prefix, join, join_strings, lines, lines_of, replace, replace_all,
    split_char, split_on, split_whitespace, starts_with, str_contains, string_of_range, chars_of, views, words,
    owned};

verus! {

/// An open page.
#[derive(Debug, Clone)]
pub struct BrowserSession {
    pub id: String,
    pub url: String,
    pub title: String,
}

/// What fetching a page gave.
#[derive(Debug, Clone)]
pub struct BrowserResult {
    pub success: bool,
    pub html: Option<String>,
    pub text: Option<String>,
    pub screenshot: Option<String>,
    pub error: Option<String>,
}

/// What follows the first `>` of a piece, when it has one.
pub open spec fn after_tag(chunk: Seq<char>) -> Option<Seq<char>> {
    let p = split_char(chunk, '>');
    if p.len() > 1 {
        Some(chunk.subrange(p[0].len() as int + 1, chunk.len() as int))
    } else {
        None
    }
}

/// The text kept from the pieces of a page cut at each `<`: what follows
/// the tag of each piece, until a piece opens a script; a piece that closes
/// a script lets text through again after it.
pub open spec fn kept_text(chunks: Seq<Seq<char>>, in_script: bool) -> Seq<char>
    decreases chunks.len(),
{
    if chunks.len() == 0 {
        seq![]
    } else {
        let c = chunks[0];
        let opened = in_script || is_prefix("script"@, c);
        if contains(c, "</script>"@) {
            kept_text(chunks.drop_first(), false)
        } else if opened {
            kept_text(chunks.drop_first(), true)
        } else {
            match after_tag(c) {
                Some(t) => t + kept_text(chunks.drop_first(), false),
                None => kept_text(chunks.drop_first(), false),
            }
        }
    }
}

/// The text of a page: its tags and scripts left out, its words joined by
/// single spaces.
pub open spec fn page_text(html: Seq<char>) -> Seq<char> {
    join(words(kept_text(split_char(html, '<'), false)), " "@)
}

proof fn lemma_split_first_len(s: Seq<char>, c: char, cur: Seq<char>)
    ensures
        crate::text::split_acc(s, c, cur).len() >= 1,
        crate::text::split_acc(s, c, cur)[0].len() <= cur.len() + s.len(),
        crate::text::split_acc(s, c, cur).len() > 1 ==> cur.len() + s.len() >= crate::text::split_acc(s, c, cur)[0].len() + 1,
    decreases s.len(),
{
    if s.len() > 0 {
        if s[0] == c {
            lemma_split_first_len(s.drop_first(), c, seq![]);
        } else {
            lemma_split_first_len(s.drop_first(), c, cur.push(s[0]));
        }
    }
}

fn text_after_tag(chunk: &str) -> (r: Option<String>)
    ensures
        match after_tag(chunk@) {
            Some(t) => r matches Some(x) && x@ == t,
            None => r is None,
        },
{
    let p = split_on(chunk, '>');
    proof { lemma_split_first_len(chunk@, '>', seq![]); }
    if p.len() > 1 {
        let v = chars_of(chunk);
        let first = chars_of(p[0].as_str());
        let start = first.len() + 1;
        assert(views(p@)[0] == p@[0]@);
        Some(string_of_range(&v, start, v.len()))
    } else {
        None
    }
}

/// The text of a page, its tags and scripts left out.
pub fn strip_tags(html: &str) -> (r: String)
    ensures
        r@ == page_text(html@),
{
    let chunks = split_on(html, '<');
    let ghost cv = views(chunks@);
    let mut kept = String::new();
    let mut in_script = false;
    let mut i: usize = 0;
    assert(cv.subrange(0, cv.len() as int) =~= cv);
    while i < chunks.len()
        invariant
            cv == views(chunks@),
            cv == split_char(html@, '<'),
            i <= cv.len(),
            kept_text(cv, false) == kept@ + kept_text(cv.subrange(i as int, cv.len() as int), in_script),
        decreases chunks.len() - i,
    {
        let ghost rest = cv.subrange(i as int, cv.len() as int);
        assert(rest.drop_first() =~= cv.subrange(i + 1, cv.len() as int));
        assert(rest[0] == chunks@[i as int]@);
        let c = chunks[i].as_str();
        if starts_with(c, "script") {
            in_script = true;
        }
        if str_contains(c, "</script>") {
            in_script = false;
        } else if !in_script {
            match text_after_tag(c) {
                Some(t) => {
                    let ghost before = kept@;
                    crate::text::push_str(&mut kept, t.as_str());
                    assert(before + (t@ + kept_text(cv.subrange(i + 1, cv.len() as int), false))
                        =~= kept@ + kept_text(cv.subrange(i + 1, cv.len() as int), false));
                },
                None => {},
            }
        }
        i = i + 1;
    }
    assert(cv.subrange(i as int, cv.len() as int) =~= Seq::<Seq<char>>::empty());
    assert(kept@ + Seq::<char>::empty() =~= kept@);
    let ws = split_whitespace(kept.as_str());
    join_strings(&ws, " ")
}

/// The search address for a query: its spaces turned into `+`.
pub fn search_url(query: &str) -> (r: String)
    ensures
        r@ == "https://www.google.com/search?q="@ + replace_all(query@, " "@, "+"@),
{
    let q = replace(query, " ", "+");
    cat("https://www.google.com/search?q=", q.as_str())
}

/// The first `n` lines (all of them when there are fewer).
pub open spec fn first_lines(ls: Seq<Seq<char>>, n: nat) -> Seq<Seq<char>> {
    if ls.len() <= n { ls } else { ls.subrange(0, n as int) }
}

/// The answer of a web search from the fetched page: the first ten lines of
/// its text, or an error when the fetch gave no text.
pub fn search_web(result: &BrowserResult) -> (r: Result<String, String>)
    ensures
        match result.text {
            Some(t) => r matches Ok(s) && s@ == join(first_lines(lines(t@), 10), "\n"@),
            None => r matches Err(e) && e@ == "No results found"@,
        },
{
    match &result.text {
        Some(t) => {
            let ls = lines_of(t.as_str());
            let mut top: Vec<String> = Vec::new();
            let n: usize = if ls.len() <= 10 { ls.len() } else { 10 };
            let mut i: usize = 0;
            while i < n
                invariant
                    n <= ls@.len(),
                    i <= n,
                    top@.len() == i,
                    forall|k: int| 0 <= k < i ==> top@[k]@ == ls@[k]@,
                decreases n - i,
            {
                top.push(owned(ls[i].as_str()));
                i = i + 1;
            }
            assert(views(top@) =~= first_lines(views(ls@), 10));
            Ok(join_strings(&top, "\n"))
        },
        None => Err(owned("No results found")),
    }
}

} // verus!
