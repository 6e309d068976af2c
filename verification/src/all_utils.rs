//! The developer utilities: which utility a name stands for, the text ones
//! that work on contents already read, and the stages of a pipeline.

use vstd::prelude::*;
use sha2::Digest;
use crate::browser::first_lines;
use crate::ranking::{sort_texts, sorted_texts};
use crate::text::{
    count_words, dec, u128_to_string, word_count, push_str,
    cat, cat3, chars_of, is_prefix, join, join_strings, lines, lines_of, owned, parse_u64,
    parse_u64_spec, push_char, replace, split_char, split_on, split_whitespace, starts_with,
    str_eq, trim, trim_str, views, words,
};

verus! {

/// A utility of the all-in-one command.
#[derive(Debug, Clone, Copy, PartialEq, Eq, Structural)]
pub enum Utility {
    Md5,
    Sha1,
    Sha256,
    Sha512,
    Blake3,
    Crc32,
    Adler32,
    Base64,
    Unbase64,
    Base64Url,
    Hex,
    UrlEncode,
    UrlDecode,
    HtmlEncode,
    JsonFmt,
    JsonCompact,
    YamlToJson,
    TomlToJson,
    XmlToJson,
    CsvToJson,
    Du,
    Tree,
    Find,
    Grep,
    Replace,
    Stat,
    Chmod,
    Chown,
    Touch,
    Memory,
    Disk,
    System,
    CpuInfo,
    NetStats,
    Uptime,
    Whoami,
    Hostname,
    Env,
    Wc,
    Rev,
    Sort,
    Uniq,
    Head,
    Tail,
    Tr,
    Cut,
    Join,
    Uuid,
    UuidV7,
    Password,
    Jwt,
    Pipeline,
    Unknown,
}

/// The utility a name stands for, aliases included.
pub open spec fn utility_of(n: Seq<char>) -> Utility {
    if n == "md5"@ { Utility::Md5 }
    else if n == "sha1"@ { Utility::Sha1 }
    else if n == "sha256"@ { Utility::Sha256 }
    else if n == "sha512"@ { Utility::Sha512 }
    else if n == "blake3"@ { Utility::Blake3 }
    else if n == "crc32"@ { Utility::Crc32 }
    else if n == "adler32"@ { Utility::Adler32 }
    else if n == "base64"@ || n == "b64"@ { Utility::Base64 }
    else if n == "unbase64"@ || n == "deb64"@ { Utility::Unbase64 }
    else if n == "b64url"@ { Utility::Base64Url }
    else if n == "hex"@ { Utility::Hex }
    else if n == "urlencode"@ || n == "urlenc"@ { Utility::UrlEncode }
    else if n == "urldecode"@ || n == "urldec"@ { Utility::UrlDecode }
    else if n == "htmlencode"@ { Utility::HtmlEncode }
    else if n == "jsonfmt"@ || n == "json"@ { Utility::JsonFmt }
    else if n == "jsoncompact"@ { Utility::JsonCompact }
    else if n == "yaml2json"@ || n == "yaml"@ { Utility::YamlToJson }
    else if n == "toml2json"@ || n == "toml"@ { Utility::TomlToJson }
    else if n == "xml2json"@ || n == "xml"@ { Utility::XmlToJson }
    else if n == "csv2json"@ || n == "csv"@ { Utility::CsvToJson }
    else if n == "du"@ { Utility::Du }
    else if n == "tree"@ { Utility::Tree }
    else if n == "find"@ { Utility::Find }
    else if n == "grep"@ { Utility::Grep }
    else if n == "replace"@ { Utility::Replace }
    else if n == "stat"@ { Utility::Stat }
    else if n == "chmod"@ { Utility::Chmod }
    else if n == "chown"@ { Utility::Chown }
    else if n == "touch"@ { Utility::Touch }
    else if n == "free"@ || n == "mem"@ { Utility::Memory }
    else if n == "df"@ || n == "disk"@ { Utility::Disk }
    else if n == "top"@ || n == "sys"@ { Utility::System }
    else if n == "cpuinfo"@ { Utility::CpuInfo }
    else if n == "netstats"@ { Utility::NetStats }
    else if n == "uptime"@ { Utility::Uptime }
    else if n == "whoami"@ { Utility::Whoami }
    else if n == "hostname"@ { Utility::Hostname }
    else if n == "env"@ { Utility::Env }
    else if n == "wc"@ { Utility::Wc }
    else if n == "rev"@ { Utility::Rev }
    else if n == "sort"@ { Utility::Sort }
    else if n == "uniq"@ { Utility::Uniq }
    else if n == "head"@ { Utility::Head }
    else if n == "tail"@ { Utility::Tail }
    else if n == "tr"@ { Utility::Tr }
    else if n == "cut"@ { Utility::Cut }
    else if n == "join"@ { Utility::Join }
    else if n == "uuid"@ { Utility::Uuid }
    else if n == "uuidv7"@ { Utility::UuidV7 }
    else if n == "password"@ || n == "pass"@ { Utility::Password }
    else if n == "jwt"@ { Utility::Jwt }
    else if n == "pipe"@ || n == "pipeline"@ { Utility::Pipeline }
    else { Utility::Unknown }
}

/// The utility a name stands for.
pub fn utility_named(name: &str) -> (r: Utility)
    ensures
        r == utility_of(name@),
{
    let n = name;
    if str_eq(n, "md5") { Utility::Md5 }
    else if str_eq(n, "sha1") { Utility::Sha1 }
    else if str_eq(n, "sha256") { Utility::Sha256 }
    else if str_eq(n, "sha512") { Utility::Sha512 }
    else if str_eq(n, "blake3") { Utility::Blake3 }
    else if str_eq(n, "crc32") { Utility::Crc32 }
    else if str_eq(n, "adler32") { Utility::Adler32 }
    else if str_eq(n, "base64") || str_eq(n, "b64") { Utility::Base64 }
    else if str_eq(n, "unbase64") || str_eq(n, "deb64") { Utility::Unbase64 }
    else if str_eq(n, "b64url") { Utility::Base64Url }
    else if str_eq(n, "hex") { Utility::Hex }
    else if str_eq(n, "urlencode") || str_eq(n, "urlenc") { Utility::UrlEncode }
    else if str_eq(n, "urldecode") || str_eq(n, "urldec") { Utility::UrlDecode }
    else if str_eq(n, "htmlencode") { Utility::HtmlEncode }
    else if str_eq(n, "jsonfmt") || str_eq(n, "json") { Utility::JsonFmt }
    else if str_eq(n, "jsoncompact") { Utility::JsonCompact }
    else if str_eq(n, "yaml2json") || str_eq(n, "yaml") { Utility::YamlToJson }
    else if str_eq(n, "toml2json") || str_eq(n, "toml") { Utility::TomlToJson }
    else if str_eq(n, "xml2json") || str_eq(n, "xml") { Utility::XmlToJson }
    else if str_eq(n, "csv2json") || str_eq(n, "csv") { Utility::CsvToJson }
    else if str_eq(n, "du") { Utility::Du }
    else if str_eq(n, "tree") { Utility::Tree }
    else if str_eq(n, "find") { Utility::Find }
    else if str_eq(n, "grep") { Utility::Grep }
    else if str_eq(n, "replace") { Utility::Replace }
    else if str_eq(n, "stat") { Utility::Stat }
    else if str_eq(n, "chmod") { Utility::Chmod }
    else if str_eq(n, "chown") { Utility::Chown }
    else if str_eq(n, "touch") { Utility::Touch }
    else if str_eq(n, "free") || str_eq(n, "mem") { Utility::Memory }
    else if str_eq(n, "df") || str_eq(n, "disk") { Utility::Disk }
    else if str_eq(n, "top") || str_eq(n, "sys") { Utility::System }
    else if str_eq(n, "cpuinfo") { Utility::CpuInfo }
    else if str_eq(n, "netstats") { Utility::NetStats }
    else if str_eq(n, "uptime") { Utility::Uptime }
    else if str_eq(n, "whoami") { Utility::Whoami }
    else if str_eq(n, "hostname") { Utility::Hostname }
    else if str_eq(n, "env") { Utility::Env }
    else if str_eq(n, "wc") { Utility::Wc }
    else if str_eq(n, "rev") { Utility::Rev }
    else if str_eq(n, "sort") { Utility::Sort }
    else if str_eq(n, "uniq") { Utility::Uniq }
    else if str_eq(n, "head") { Utility::Head }
    else if str_eq(n, "tail") { Utility::Tail }
    else if str_eq(n, "tr") { Utility::Tr }
    else if str_eq(n, "cut") { Utility::Cut }
    else if str_eq(n, "join") { Utility::Join }
    else if str_eq(n, "uuid") { Utility::Uuid }
    else if str_eq(n, "uuidv7") { Utility::UuidV7 }
    else if str_eq(n, "password") || str_eq(n, "pass") { Utility::Password }
    else if str_eq(n, "jwt") { Utility::Jwt }
    else if str_eq(n, "pipe") || str_eq(n, "pipeline") { Utility::Pipeline }
    else { Utility::Unknown }
}

/// The answer for a name that is no utility.
pub fn not_found_message(name: &str) -> (r: String)
    ensures
        r@ == "Utility '"@ + name@ + "' not found. Try 'help' for a list of 50 deep utilities."@,
{
    cat3("Utility '", name, "' not found. Try 'help' for a list of 50 deep utilities.")
}

/// The usage line of a utility given too few arguments, if it has one.
pub open spec fn usage_of(u: Utility, n_args: nat) -> Option<Seq<char>> {
    match u {
        Utility::Grep => if n_args < 2 { Some("Usage: grep <pattern> <file/dir>"@) } else { None },
        Utility::Replace => if n_args < 3 { Some("Usage: replace <pattern> <replacement> <file>"@) } else { None },
        Utility::Tr => if n_args < 3 { Some("Usage: tr <from> <to> <file>"@) } else { None },
        Utility::Join => if n_args < 2 { Some("Usage: join <file1> <file2>"@) } else { None },
        _ => None,
    }
}

/// The usage line of a utility given too few arguments, if it has one.
pub fn usage_error(u: Utility, n_args: usize) -> (r: Option<String>)
    ensures
        match r {
            Some(s) => usage_of(u, n_args as nat) == Some(s@),
            None => usage_of(u, n_args as nat) is None,
        },
{
    match u {
        Utility::Grep => if n_args < 2 { Some(owned("Usage: grep <pattern> <file/dir>")) } else { None },
        Utility::Replace => if n_args < 3 { Some(owned("Usage: replace <pattern> <replacement> <file>")) } else { None },
        Utility::Tr => if n_args < 3 { Some(owned("Usage: tr <from> <to> <file>")) } else { None },
        Utility::Join => if n_args < 2 { Some(owned("Usage: join <file1> <file2>")) } else { None },
        _ => None,
    }
}

/// The input text reversed, character by character.
pub fn rev_text(input: &str) -> (r: String)
    ensures
        r@ == input@.reverse(),
{
    let v = chars_of(input);
    let mut out = String::new();
    let mut i: usize = v.len();
    while i > 0
        invariant
            v@ == input@,
            i <= v@.len(),
            out@ == input@.reverse().subrange(0, (v@.len() - i) as int),
        decreases i,
    {
        let ghost before = out@;
        push_char(&mut out, v[i - 1]);
        assert(out@ =~= input@.reverse().subrange(0, (v@.len() - i + 1) as int));
        i = i - 1;
    }
    assert(input@.reverse().subrange(0, v@.len() as int) =~= input@.reverse());
    out
}

/// The count given as first argument, or `default` when it is missing or no number.
pub open spec fn count_arg(args: Seq<Seq<char>>, default: u64) -> u64 {
    if args.len() > 0 && parse_u64_spec(args[0]) is Some {
        parse_u64_spec(args[0])->0
    } else {
        default
    }
}

/// The count given as first argument, or `default`.
pub fn count_argument(args: &Vec<String>, default: u64) -> (r: u64)
    ensures
        r == count_arg(views(args@), default),
{
    if args.len() > 0 {
        match parse_u64(args[0].as_str()) {
            Some(n) => n,
            None => default,
        }
    } else {
        default
    }
}

/// The first `n` lines of a text, joined with `\n`.
pub fn head_text(content: &str, n: u64) -> (r: String)
    ensures
        r@ == join(first_lines(lines(content@), n as nat), "\n"@),
{
    let ls = lines_of(content);
    let mut out: Vec<String> = Vec::new();
    let mut i: usize = 0;
    while i < ls.len() && (i as u64) < n
        invariant
            views(ls@) == lines(content@),
            i <= ls@.len(),
            i <= n,
            views(out@) == views(ls@).subrange(0, i as int),
        decreases ls.len() - i,
    {
        let ghost before = views(out@);
        out.push(owned(ls[i].as_str()));
        assert(views(out@) =~= before.push(ls@[i as int]@));
        assert(views(out@) =~= views(ls@).subrange(0, i + 1));
        i = i + 1;
    }
    assert(views(ls@).subrange(0, i as int) =~= first_lines(lines(content@), n as nat));
    join_strings(&out, "\n")
}

/// The last `n` lines of a text (all of them when there are fewer).
pub open spec fn last_lines(ls: Seq<Seq<char>>, n: nat) -> Seq<Seq<char>> {
    if ls.len() <= n { ls } else { ls.subrange(ls.len() - n, ls.len() as int) }
}

/// The last `n` lines of a text, joined with `\n`.
pub fn tail_text(content: &str, n: u64) -> (r: String)
    ensures
        r@ == join(last_lines(lines(content@), n as nat), "\n"@),
{
    let ls = lines_of(content);
    let start: usize = if (ls.len() as u64) <= n { 0 } else { ls.len() - (n as usize) };
    let mut out: Vec<String> = Vec::new();
    let mut i: usize = start;
    while i < ls.len()
        invariant
            views(ls@) == lines(content@),
            start <= i <= ls@.len(),
            views(out@) == views(ls@).subrange(start as int, i as int),
        decreases ls.len() - i,
    {
        let ghost before = views(out@);
        out.push(owned(ls[i].as_str()));
        assert(views(out@) =~= before.push(ls@[i as int]@));
        assert(views(out@) =~= views(ls@).subrange(start as int, i + 1));
        i = i + 1;
    }
    assert(views(ls@).subrange(start as int, ls@.len() as int) =~= last_lines(lines(content@), n as nat));
    join_strings(&out, "\n")
}

/// The lines of `ls` with each run of equal neighbours kept once, among the first `k`.
pub open spec fn dedup_upto(ls: Seq<Seq<char>>, k: nat) -> Seq<Seq<char>>
    decreases k,
{
    if k == 0 || k > ls.len() {
        seq![]
    } else {
        let prev = dedup_upto(ls, (k - 1) as nat);
        if prev.len() > 0 && prev.last() == ls[k - 1] {
            prev
        } else {
            prev.push(ls[k - 1])
        }
    }
}

/// The lines of a text with adjacent repeats removed, joined with `\n`.
pub fn uniq_text(content: &str) -> (r: String)
    ensures
        r@ == join(dedup_upto(lines(content@), lines(content@).len()), "\n"@),
{
    let ls = lines_of(content);
    let mut out: Vec<String> = Vec::new();
    let mut i: usize = 0;
    while i < ls.len()
        invariant
            views(ls@) == lines(content@),
            i <= ls@.len(),
            views(out@) == dedup_upto(lines(content@), i as nat),
        decreases ls.len() - i,
    {
        let n = out.len();
        if n > 0 && str_eq(out[n - 1].as_str(), ls[i].as_str()) {
            assert(views(out@).last() == out@[n - 1]@);
        } else {
            let ghost before = views(out@);
            out.push(owned(ls[i].as_str()));
            assert(views(out@) =~= before.push(ls@[i as int]@));
        }
        i = i + 1;
    }
    join_strings(&out, "\n")
}

/// The lines of two texts paired up, `a b`, as far as both go.
pub open spec fn zipped(a: Seq<Seq<char>>, b: Seq<Seq<char>>) -> Seq<Seq<char>> {
    Seq::new(if a.len() <= b.len() { a.len() } else { b.len() }, |i: int| a[i] + " "@ + b[i])
}

/// The lines of a text in ascending order, repeats kept, joined with `\n`.
pub fn sort_text(content: &str) -> (r: String)
    ensures
        exists|s: Seq<Seq<char>>| sorted_texts(s) && s.to_multiset() == lines(content@).to_multiset()
            && r@ == join(s, "\n"@),
{
    let ls = lines_of(content);
    let sorted = sort_texts(&ls);
    let r = join_strings(&sorted, "\n");
    assert(sorted_texts(views(sorted@)) && views(sorted@).to_multiset() == lines(content@).to_multiset()
        && r@ == join(views(sorted@), "\n"@));
    r
}

/// The pieces of `s` cut at each `d` (not empty), left to right, with `cur`
/// already read into the first piece.
pub open spec fn split_str_acc(s: Seq<char>, d: Seq<char>, cur: Seq<char>) -> Seq<Seq<char>>
    decreases s.len(),
{
    if d.len() == 0 || s.len() < d.len() {
        seq![cur + s]
    } else if s.subrange(0, d.len() as int) == d {
        seq![cur] + split_str_acc(s.subrange(d.len() as int, s.len() as int), d, seq![])
    } else {
        split_str_acc(s.drop_first(), d, cur.push(s[0]))
    }
}

/// The pieces that `str::split` with the pattern `d` gives: cut at each
/// occurrence of `d`; for an empty `d`, an empty piece, each character, and
/// an empty piece.
pub open spec fn split_str(s: Seq<char>, d: Seq<char>) -> Seq<Seq<char>> {
    if d.len() == 0 {
        seq![Seq::<char>::empty()] + s.map_values(|c: char| seq![c]) + seq![Seq::<char>::empty()]
    } else {
        split_str_acc(s, d, seq![])
    }
}

/// The piece at `field` of `l` cut at `d`, empty when there are fewer pieces.
pub open spec fn cut_field(l: Seq<char>, d: Seq<char>, field: nat) -> Seq<char> {
    if field < split_str(l, d).len() { split_str(l, d)[field as int] } else { seq![] }
}

/// The piece at `field` of each line, joined with `\n`.
pub open spec fn cut_report(ls: Seq<Seq<char>>, d: Seq<char>, field: nat) -> Seq<char> {
    join(ls.map_values(|l: Seq<char>| cut_field(l, d, field)), "\n"@)
}

/// The pieces of `l` cut at `d`.
fn split_pieces(l: &str, d: &str) -> (r: Vec<String>)
    ensures
        views(r@) == split_str(l@, d@),
{
    let v = chars_of(l);
    let dv = chars_of(d);
    let n = v.len();
    let m = dv.len();
    let mut out: Vec<String> = Vec::new();
    if m == 0 {
        out.push(String::new());
        let mut i: usize = 0;
        while i < n
            invariant
                i <= n == v@.len(),
                views(out@) == seq![Seq::<char>::empty()] + v@.take(i as int).map_values(|c: char| seq![c]),
            decreases n - i,
        {
            let mut one = String::new();
            push_char(&mut one, v[i]);
            let ghost before = views(out@);
            out.push(one);
            proof {
                assert(views(out@) =~= before.push(seq![v@[i as int]]));
                assert(v@.take(i + 1).map_values(|c: char| seq![c]) =~= v@.take(i as int).map_values(|c: char| seq![c]).push(seq![v@[i as int]]));
            }
            i = i + 1;
        }
        out.push(String::new());
        assert(v@.take(n as int) =~= v@);
        return out;
    }
    let mut cur = String::new();
    let mut i: usize = 0;
    assert(v@.subrange(0, n as int) =~= v@);
    while i < n
        invariant
            n == v@.len(),
            m == dv@.len() > 0,
            dv@ == d@,
            v@ == l@,
            i <= n,
            views(out@) + split_str_acc(v@.subrange(i as int, n as int), d@, cur@) == split_str_acc(l@, d@, seq![]),
        decreases n - i,
    {
        let ghost rest = v@.subrange(i as int, n as int);
        let mut hit = m <= n - i;
        if hit {
            let mut k: usize = 0;
            while k < m
                invariant
                    i + m <= n == v@.len(),
                    m == dv@.len(),
                    k <= m,
                    hit == forall|j: int| 0 <= j < k ==> v@[i + j] == dv@[j],
                decreases m - k,
            {
                if v[i + k] != dv[k] {
                    hit = false;
                }
                k = k + 1;
            }
        }
        proof {
            if i + m <= n {
                assert(rest.subrange(0, m as int) == dv@ <==> hit) by {
                    if hit {
                        assert(rest.subrange(0, m as int) =~= dv@);
                    }
                    if rest.subrange(0, m as int) == dv@ {
                        assert forall|j: int| 0 <= j < m implies v@[i + j] == dv@[j] by {
                            assert(rest.subrange(0, m as int)[j] == v@[i + j]);
                        }
                    }
                }
            }
        }
        if hit {
            let piece = cur;
            cur = String::new();
            proof {
                assert(rest.subrange(m as int, rest.len() as int) =~= v@.subrange((i + m) as int, n as int));
                assert(views(out@.push(piece)) =~= views(out@) + seq![piece@]);
                assert(views(out@) + split_str_acc(rest, d@, piece@)
                    =~= views(out@.push(piece)) + split_str_acc(v@.subrange((i + m) as int, n as int), d@, seq![]));
            }
            out.push(piece);
            i = i + m;
        } else {
            let ghost before = cur@;
            push_char(&mut cur, v[i]);
            proof {
                if i + m <= n {
                    assert(rest.drop_first() =~= v@.subrange(i + 1, n as int));
                } else {
                    assert(split_str_acc(rest, d@, before) == seq![before + rest]);
                    let r2 = v@.subrange(i + 1, n as int);
                    assert(r2.len() < m);
                    assert(split_str_acc(r2, d@, cur@) == seq![cur@ + r2]);
                    assert(before + rest =~= cur@ + r2);
                }
            }
            i = i + 1;
        }
    }
    proof {
        assert(v@.subrange(n as int, n as int) =~= Seq::<char>::empty());
        assert(cur@ + Seq::<char>::empty() =~= cur@);
    }
    let ghost last = cur@;
    out.push(cur);
    assert(views(out@) =~= split_str_acc(l@, d@, seq![]));
    out
}

/// The piece at `field` (counted from 0) of each line of a text cut at `d`,
/// joined with `\n`; a line with fewer pieces gives an empty one.
pub fn cut_text(content: &str, d: &str, field: usize) -> (r: String)
    ensures
        r@ == cut_report(lines(content@), d@, field as nat),
{
    let ls = lines_of(content);
    let ghost v = views(ls@);
    let mut out: Vec<String> = Vec::new();
    let mut i: usize = 0;
    while i < ls.len()
        invariant
            v == views(ls@),
            i <= ls@.len(),
            views(out@) == v.take(i as int).map_values(|l: Seq<char>| cut_field(l, d@, field as nat)),
        decreases ls.len() - i,
    {
        let pieces = split_pieces(ls[i].as_str(), d);
        let piece = if field < pieces.len() { owned(pieces[field].as_str()) } else { String::new() };
        proof {
            if field < pieces.len() {
                assert(views(pieces@)[field as int] == pieces@[field as int]@);
            }
        }
        out.push(piece);
        proof {
            assert(v.take(i + 1).map_values(|l: Seq<char>| cut_field(l, d@, field as nat))
                =~= v.take(i as int).map_values(|l: Seq<char>| cut_field(l, d@, field as nat)).push(cut_field(ls@[i as int]@, d@, field as nat)));
        }
        i = i + 1;
    }
    assert(v.take(ls@.len() as int) =~= v);
    join_strings(&out, "\n")
}

/// The number of white-space-separated words over all of `ls`.
pub open spec fn words_total(ls: Seq<Seq<char>>) -> nat
    decreases ls.len(),
{
    if ls.len() == 0 { 0 } else { words_total(ls.drop_last()) + word_count(ls.last()) }
}

/// The number of UTF-8 bytes over all of `ls`, each line's as `str::len` gives it.
pub open spec fn bytes_total(ls: Seq<Seq<char>>) -> nat
    decreases ls.len(),
{
    if ls.len() == 0 { 0 } else { (bytes_total(ls.drop_last()) + (vstd::utf8::encode_utf8(ls.last()).len() as usize)) as nat }
}

/// The word-count report of the lines `ls`.
pub open spec fn wc_report(ls: Seq<Seq<char>>) -> Seq<char> {
    "Lines: "@ + dec(ls.len()) + ", Words: "@ + dec(words_total(ls)) + ", Chars: "@ + dec(bytes_total(ls))
}

/// Counts the lines, words and bytes of a text.
pub fn wc_text(content: &str) -> (r: String)
    ensures
        r@ == wc_report(lines(content@)),
{
    let ls = lines_of(content);
    let ghost v = views(ls@);
    let mut words: u128 = 0;
    let mut bytes: u128 = 0;
    let mut i: usize = 0;
    assert(v.take(0) =~= Seq::<Seq<char>>::empty());
    while i < ls.len()
        invariant
            v == views(ls@),
            i <= ls@.len(),
            words == words_total(v.take(i as int)),
            bytes == bytes_total(v.take(i as int)),
            words <= i * 0xFFFF_FFFF_FFFF_FFFFu128,
            bytes <= i * 0xFFFF_FFFF_FFFF_FFFFu128,
        decreases ls.len() - i,
    {
        let w = count_words(ls[i].as_str());
        let b = ls[i].as_str().len();
        proof {
            assert(v.take(i + 1).drop_last() =~= v.take(i as int));
            assert(v.take(i + 1).last() == ls@[i as int]@);
        }
        words = words + w as u128;
        bytes = bytes + b as u128;
        i = i + 1;
    }
    assert(v.take(ls@.len() as int) =~= v);
    let mut r = owned("Lines: ");
    push_str(&mut r, u128_to_string(ls.len() as u128).as_str());
    push_str(&mut r, ", Words: ");
    push_str(&mut r, u128_to_string(words).as_str());
    push_str(&mut r, ", Chars: ");
    push_str(&mut r, u128_to_string(bytes).as_str());
    r
}

/// The lines of two texts paired up and joined with `\n`.
pub fn join_texts(c1: &str, c2: &str) -> (r: String)
    ensures
        r@ == join(zipped(lines(c1@), lines(c2@)), "\n"@),
{
    let a = lines_of(c1);
    let b = lines_of(c2);
    let mut out: Vec<String> = Vec::new();
    let mut i: usize = 0;
    while i < a.len() && i < b.len()
        invariant
            views(a@) == lines(c1@),
            views(b@) == lines(c2@),
            i <= a@.len(),
            i <= b@.len(),
            views(out@) == zipped(lines(c1@), lines(c2@)).subrange(0, i as int),
        decreases a.len() - i,
    {
        let ghost before = views(out@);
        out.push(cat3(a[i].as_str(), " ", b[i].as_str()));
        assert(views(out@) =~= before.push(a@[i as int]@ + " "@ + b@[i as int]@));
        assert(views(out@) =~= zipped(lines(c1@), lines(c2@)).subrange(0, i + 1));
        i = i + 1;
    }
    assert(zipped(lines(c1@), lines(c2@)).subrange(0, i as int) =~= zipped(lines(c1@), lines(c2@)));
    join_strings(&out, "\n")
}

/// The text with every occurrence of `from` replaced by `to`.
pub fn tr_text(content: &str, from: &str, to: &str) -> (r: String)
    ensures
        r@ == crate::text::replace_all(content@, from@, to@),
{
    replace(content, from, to)
}

/// The message after a replacement in a file.
pub fn replaced_message(pattern: &str, replacement: &str, file: &str) -> (r: String)
    ensures
        r@ == "Replaced all occurrences of '"@ + pattern@ + "' with '"@ + replacement@ + "' in "@ + file@,
{
    let a = cat3("Replaced all occurrences of '", pattern, "' with '");
    let b = cat3(a.as_str(), replacement, "' in ");
    cat(b.as_str(), file)
}

} // verus!

verus! {

/// `s` with every leading repeat of `p` removed, as `str::trim_start_matches(p)` gives.
pub open spec fn strip_prefix_all(s: Seq<char>, p: Seq<char>) -> Seq<char>
    decreases s.len(),
{
    if p.len() > 0 && is_prefix(p, s) {
        strip_prefix_all(s.subrange(p.len() as int, s.len() as int), p)
    } else {
        s
    }
}

/// Removes every leading repeat of `p` from `s`.
pub fn trim_start_matches(s: &str, p: &str) -> (r: String)
    ensures
        r@ == strip_prefix_all(s@, p@),
{
    let v = chars_of(s);
    let pv = chars_of(p);
    let mut i: usize = 0;
    assert(s@.subrange(0, s@.len() as int) =~= s@);
    while pv.len() > 0 && pv.len() <= v.len() - i && crate::text::occurs_at_exec(&v, &pv, i)
        invariant
            v@ == s@,
            pv@ == p@,
            i <= v@.len(),
            strip_prefix_all(s@, p@) == strip_prefix_all(s@.subrange(i as int, s@.len() as int), p@),
        decreases v.len() - i,
    {
        let ghost rest = s@.subrange(i as int, s@.len() as int);
        assert(rest.subrange(0, p@.len() as int) =~= s@.subrange(i as int, i + p@.len()));
        assert(rest.subrange(p@.len() as int, rest.len() as int) =~= s@.subrange(i + p@.len(), s@.len() as int));
        i = i + pv.len();
    }
    proof {
        let rest = s@.subrange(i as int, s@.len() as int);
        if p@.len() > 0 && p@.len() <= rest.len() {
            assert(rest.subrange(0, p@.len() as int) =~= s@.subrange(i as int, i + p@.len()));
        }
    }
    crate::text::string_of_range(&v, i, v.len())
}

/// The word lists of some stages.
pub open spec fn nested_views(v: Seq<Vec<String>>) -> Seq<Seq<Seq<char>>> {
    v.map_values(|x: Vec<String>| views(x@))
}

/// The words of the non-empty stages among the first `k` parts of a pipeline.
pub open spec fn stages_upto(parts: Seq<Seq<char>>, k: nat) -> Seq<Seq<Seq<char>>>
    decreases k,
{
    if k == 0 || k > parts.len() {
        seq![]
    } else {
        let w = words(trim(parts[k - 1]));
        stages_upto(parts, (k - 1) as nat) + (if w.len() > 0 { seq![w] } else { seq![] })
    }
}

/// The stages of a pipeline: its `|`-separated parts as words, the empty ones left out.
pub open spec fn pipeline_stages_spec(s: Seq<char>) -> Seq<Seq<Seq<char>>> {
    stages_upto(split_char(s, '|'), split_char(s, '|').len())
}

/// The stages of a pipeline, each as its words.
pub fn pipeline_stages(s: &str) -> (r: Vec<Vec<String>>)
    ensures
        nested_views(r@) == pipeline_stages_spec(s@),
        forall|i: int| 0 <= i < r@.len() ==> r@[i]@.len() > 0,
{
    let parts = split_on(s, '|');
    let mut out: Vec<Vec<String>> = Vec::new();
    let mut i: usize = 0;
    while i < parts.len()
        invariant
            views(parts@) == split_char(s@, '|'),
            i <= parts@.len(),
            nested_views(out@) == stages_upto(split_char(s@, '|'), i as nat),
            forall|j: int| 0 <= j < out@.len() ==> out@[j]@.len() > 0,
        decreases parts.len() - i,
    {
        let t = trim_str(parts[i].as_str());
        let w = split_whitespace(t.as_str());
        let ghost before = nested_views(out@);
        if w.len() > 0 {
            let ghost wv = views(w@);
            out.push(w);
            assert(nested_views(out@) =~= before.push(wv));
        } else {
            assert(nested_views(out@) =~= before + Seq::<Seq<Seq<char>>>::empty());
        }
        i = i + 1;
    }
    out
}

/// The arguments of a stage: its words after the first, then the output of
/// the stage before, when there is one.
pub open spec fn stage_args(tokens: Seq<Seq<char>>, current: Seq<char>) -> Seq<Seq<char>> {
    tokens.skip(1) + (if current.len() > 0 { seq![current] } else { seq![] })
}

/// The options and words of an `ai` stage, read from its first `k` arguments:
/// whether to ground it, its system instruction, and the words of its prompt.
pub open spec fn ai_flags(args: Seq<Seq<char>>, k: nat) -> (bool, Option<Seq<char>>, Seq<Seq<char>>)
    decreases k,
{
    if k == 0 || k > args.len() {
        (false, None, seq![])
    } else {
        let prev = ai_flags(args, (k - 1) as nat);
        let a = args[k - 1];
        if a == "--grounding"@ {
            (true, prev.1, prev.2)
        } else if is_prefix("--system="@, a) {
            (prev.0, Some(strip_prefix_all(a, "--system="@)), prev.2)
        } else {
            (prev.0, prev.1, prev.2.push(a))
        }
    }
}

/// What one stage of a pipeline runs.
#[derive(Debug, Clone)]
pub enum StageCall {
    /// A prompt for the model, with its options.
    Ai { prompt: String, grounding: bool, system: Option<String> },
    /// A utility with its arguments.
    Run { name: String, args: Vec<String> },
}

/// What the stage with words `tokens` runs, given the output of the stage before.
pub fn stage_call(tokens: &Vec<String>, current: &str) -> (r: StageCall)
    requires
        tokens@.len() > 0,
    ensures
        ({
            let args = stage_args(views(tokens@), current@);
            let f = ai_flags(args, args.len());
            if tokens@[0]@ == "ai"@ {
                r matches StageCall::Ai { prompt, grounding, system } && prompt@ == join(f.2, " "@)
                    && grounding == f.0 && crate::text::opt_string_view(system) == f.1
            } else {
                r matches StageCall::Run { name, args: a } && name@ == tokens@[0]@ && views(a@) == args
            }
        }),
{
    let mut args: Vec<String> = Vec::new();
    let mut i: usize = 1;
    while i < tokens.len()
        invariant
            1 <= i <= tokens@.len(),
            views(args@) == views(tokens@).subrange(1, i as int),
        decreases tokens.len() - i,
    {
        let ghost before = views(args@);
        args.push(owned(tokens[i].as_str()));
        assert(views(args@) =~= before.push(tokens@[i as int]@));
        assert(views(args@) =~= views(tokens@).subrange(1, i + 1));
        i = i + 1;
    }
    let cs = chars_of(current);
    if cs.len() > 0 {
        let ghost before = views(args@);
        args.push(owned(current));
        assert(views(args@) =~= before.push(current@));
    }
    assert(views(args@) =~= stage_args(views(tokens@), current@));
    if str_eq(tokens[0].as_str(), "ai") {
        let ghost all = views(args@);
        let mut grounding = false;
        let mut system: Option<String> = None;
        let mut clean: Vec<String> = Vec::new();
        let mut k: usize = 0;
        while k < args.len()
            invariant
                all == views(args@),
                k <= args@.len(),
                ai_flags(all, k as nat) == (grounding, crate::text::opt_string_view(system), views(clean@)),
            decreases args.len() - k,
        {
            let a = args[k].as_str();
            if str_eq(a, "--grounding") {
                grounding = true;
            } else if starts_with(a, "--system=") {
                system = Some(trim_start_matches(a, "--system="));
            } else {
                let ghost before = views(clean@);
                clean.push(owned(a));
                assert(views(clean@) =~= before.push(a@));
            }
            k = k + 1;
        }
        let prompt = join_strings(&clean, " ");
        StageCall::Ai { prompt, grounding, system }
    } else {
        StageCall::Run { name: owned(tokens[0].as_str()), args }
    }
}

/// The output of an `ai` stage: the model's answer, or the error after `AI Error: `.
pub fn ai_stage_output(result: Result<String, String>) -> (r: String)
    ensures
        r@ == (match result {
            Ok(s) => s@,
            Err(e) => "AI Error: "@ + e@,
        }),
{
    match result {
        Ok(s) => s,
        Err(e) => cat("AI Error: ", e.as_str()),
    }
}

} // verus!

verus! {

/// The MD5 digest of some bytes.
pub uninterp spec fn md5_digest(data: Seq<u8>) -> Seq<u8>;

/// The SHA-1 digest of some bytes.
pub uninterp spec fn sha1_digest(data: Seq<u8>) -> Seq<u8>;

/// The SHA-256 digest of some bytes.
pub uninterp spec fn sha256_digest(data: Seq<u8>) -> Seq<u8>;

/// The SHA-512 digest of some bytes.
pub uninterp spec fn sha512_digest(data: Seq<u8>) -> Seq<u8>;

/// The BLAKE3 hash of some bytes.
pub uninterp spec fn blake3_digest(data: Seq<u8>) -> Seq<u8>;

/// `k` rounds of the reflected CRC-32 shift with the polynomial `0xEDB88320`.
pub open spec fn crc_shift(c: u32, k: nat) -> u32
    decreases k,
{
    if k == 0 {
        c
    } else {
        let d = crc_shift(c, (k - 1) as nat);
        if d & 1 == 1 { (d >> 1) ^ 0xEDB8_8320u32 } else { d >> 1 }
    }
}

/// The CRC-32 register after the bytes of `data`, starting from all ones.
pub open spec fn crc_register(data: Seq<u8>) -> u32
    decreases data.len(),
{
    if data.len() == 0 {
        0xFFFF_FFFFu32
    } else {
        crc_shift(crc_register(data.drop_last()) ^ (data.last() as u32), 8)
    }
}

/// The CRC-32 checksum (ISO-HDLC) of some bytes: the register, inverted.
pub open spec fn crc32_value(data: Seq<u8>) -> u32 {
    crc_register(data) ^ 0xFFFF_FFFFu32
}

/// The two Adler-32 sums after the bytes of `data`: one plus the bytes, and
/// the sum of those running sums, both modulo 65521.
pub open spec fn adler_sums(data: Seq<u8>) -> (nat, nat)
    decreases data.len(),
{
    if data.len() == 0 {
        (1, 0)
    } else {
        let (a, b) = adler_sums(data.drop_last());
        let a2 = ((a + data.last()) % 65521) as nat;
        (a2, ((b + a2) % 65521) as nat)
    }
}

/// The Adler-32 checksum of some bytes: the second sum above the first.
pub open spec fn adler32_value(data: Seq<u8>) -> u32 {
    (adler_sums(data).1 * 65536 + adler_sums(data).0) as u32
}

/// The base64 digit for the six-bit value `v`: `A`-`Z`, `a`-`z`, `0`-`9`,
/// then `+` and `/`, or `-` and `_` in the URL-safe alphabet.
pub open spec fn b64_digit(v: nat, url: bool) -> char {
    if v < 26 {
        (65 + v) as char
    } else if v < 52 {
        (97 + v - 26) as char
    } else if v < 62 {
        (48 + v - 52) as char
    } else if v == 62 {
        if url { '-' } else { '+' }
    } else {
        if url { '_' } else { '/' }
    }
}

/// The base64 text of some bytes: four digits for each three bytes, and for
/// a last one or two bytes two or three digits, padded with `=` to four
/// unless `url` (the URL-safe alphabet, unpadded) is asked for.
pub open spec fn base64_text(data: Seq<u8>, url: bool) -> Seq<char>
    decreases data.len(),
{
    if data.len() >= 3 {
        let n = data[0] as nat * 65536 + data[1] as nat * 256 + data[2] as nat;
        seq![b64_digit(n / 262144, url), b64_digit(n / 4096 % 64, url), b64_digit(n / 64 % 64, url), b64_digit(n % 64, url)]
            + base64_text(data.subrange(3, data.len() as int), url)
    } else if data.len() == 2 {
        let n = data[0] as nat * 65536 + data[1] as nat * 256;
        seq![b64_digit(n / 262144, url), b64_digit(n / 4096 % 64, url), b64_digit(n / 64 % 64, url)]
            + (if url { Seq::<char>::empty() } else { seq!['='] })
    } else if data.len() == 1 {
        let n = data[0] as nat * 65536;
        seq![b64_digit(n / 262144, url), b64_digit(n / 4096 % 64, url)]
            + (if url { Seq::<char>::empty() } else { seq!['=', '='] })
    } else {
        seq![]
    }
}

/// The standard, padded base64 text of some bytes.
pub open spec fn base64_standard(data: Seq<u8>) -> Seq<char> {
    base64_text(data, false)
}

/// The URL-safe, unpadded base64 text of some bytes.
pub open spec fn base64_url(data: Seq<u8>) -> Seq<char> {
    base64_text(data, true)
}

/// The bytes that a standard base64 text stands for, if it is valid.
pub uninterp spec fn base64_decoded(text: Seq<char>) -> Option<Seq<u8>>;

/// The text that a percent-encoded text decodes to, if the bytes are UTF-8.
pub uninterp spec fn url_decoded(text: Seq<char>) -> Option<Seq<char>>;

/// The text of some bytes read as UTF-8, each invalid sequence replaced by U+FFFD.
pub uninterp spec fn utf8_lossy(data: Seq<u8>) -> Seq<char>;

/// The text that `serde_json::to_string_pretty` writes for the JSON value
/// that `serde_json::from_str` reads from the input, if it reads one.
pub uninterp spec fn json_pretty_text(input: Seq<char>) -> Option<Seq<char>>;

/// The text that `serde_json::to_string` writes for the JSON value that
/// `serde_json::from_str` reads from the input, if it reads one.
pub uninterp spec fn json_compact_text(input: Seq<char>) -> Option<Seq<char>>;

/// The TOML input read by `toml::from_str` as a JSON value and written by
/// `serde_json::to_string_pretty`, or the text of the TOML error.
pub uninterp spec fn toml_as_json(input: Seq<char>) -> Result<Seq<char>, Seq<char>>;

/// Calls `serde_json::from_str::<Value>` then `serde_json::to_string_pretty`
/// (empty text should writing fail); claimed: the result is named
/// `json_pretty_text`, `None` when the input is not JSON.
#[verifier::external_body]
fn json_pretty(input: &str) -> (r: Option<String>)
    ensures
        crate::text::opt_string_view(r) == json_pretty_text(input@),
{
    serde_json::from_str::<serde_json::Value>(input).ok().map(|v| serde_json::to_string_pretty(&v).unwrap_or_default())
}

/// Calls `serde_json::from_str::<Value>` then `serde_json::to_string`
/// (empty text should writing fail); claimed: the result is named
/// `json_compact_text`, `None` when the input is not JSON.
#[verifier::external_body]
fn json_compact(input: &str) -> (r: Option<String>)
    ensures
        crate::text::opt_string_view(r) == json_compact_text(input@),
{
    serde_json::from_str::<serde_json::Value>(input).ok().map(|v| serde_json::to_string(&v).unwrap_or_default())
}

/// Calls `toml::from_str::<serde_json::Value>` then
/// `serde_json::to_string_pretty` (empty text should writing fail), or gives
/// the error's text; claimed: the result is named `toml_as_json`.
#[verifier::external_body]
fn toml_json(input: &str) -> (r: Result<String, String>)
    ensures
        match r {
            Ok(t) => toml_as_json(input@) == Ok::<Seq<char>, Seq<char>>(t@),
            Err(e) => toml_as_json(input@) == Err::<Seq<char>, Seq<char>>(e@),
        },
{
    toml::from_str::<serde_json::Value>(input).map(|v| serde_json::to_string_pretty(&v).unwrap_or_default()).map_err(|e| e.to_string())
}

/// The JSON input written again, pretty or compact; `Invalid JSON` when the
/// input is not JSON.
pub fn json_fmt(input: &str, pretty: bool) -> (r: String)
    ensures
        r@ == match (if pretty { json_pretty_text(input@) } else { json_compact_text(input@) }) {
            Some(t) => t,
            None => "Invalid JSON"@,
        },
{
    let o = if pretty { json_pretty(input) } else { json_compact(input) };
    match o {
        Some(t) => t,
        None => owned("Invalid JSON"),
    }
}

/// The TOML input as pretty JSON; `Invalid TOML: ` and the error otherwise.
pub fn toml_to_json(input: &str) -> (r: String)
    ensures
        r@ == match toml_as_json(input@) {
            Ok(t) => t,
            Err(e) => "Invalid TOML: "@ + e,
        },
{
    match toml_json(input) {
        Ok(t) => t,
        Err(e) => cat("Invalid TOML: ", e.as_str()),
    }
}

/// Calls `md5::compute`; claimed: the 16 bytes of the digest, named `md5_digest`.
#[verifier::external_body]
fn md5_of(data: &[u8]) -> (r: Vec<u8>)
    ensures
        r@ == md5_digest(data@),
        r@.len() == 16,
{
    md5::compute(data).0.to_vec()
}

/// Calls `Sha1::digest`; claimed: the 20 bytes of the digest, named `sha1_digest`.
#[verifier::external_body]
fn sha1_of(data: &[u8]) -> (r: Vec<u8>)
    ensures
        r@ == sha1_digest(data@),
        r@.len() == 20,
{
    sha1::Sha1::digest(data).to_vec()
}

/// Calls `Sha256::digest`; claimed: the 32 bytes of the digest, named `sha256_digest`.
#[verifier::external_body]
fn sha256_of(data: &[u8]) -> (r: Vec<u8>)
    ensures
        r@ == sha256_digest(data@),
        r@.len() == 32,
{
    sha2::Sha256::digest(data).to_vec()
}

/// Calls `Sha512::digest`; claimed: the 64 bytes of the digest, named `sha512_digest`.
#[verifier::external_body]
fn sha512_of(data: &[u8]) -> (r: Vec<u8>)
    ensures
        r@ == sha512_digest(data@),
        r@.len() == 64,
{
    sha2::Sha512::digest(data).to_vec()
}

/// Calls `blake3::hash`; claimed: the 32 bytes of the hash, named `blake3_digest`.
#[verifier::external_body]
fn blake3_of(data: &[u8]) -> (r: Vec<u8>)
    ensures
        r@ == blake3_digest(data@),
        r@.len() == 32,
{
    blake3::hash(data).as_bytes().to_vec()
}

/// Feeds the bytes to a `crc32fast::Hasher`; claimed: its result is the
/// CRC-32 that `crc32_value` states (reflected, polynomial `0xEDB88320`,
/// register started at and finished by inverting all bits), as the crate
/// documents it.
#[verifier::external_body]
fn crc32_of(data: &[u8]) -> (r: u32)
    ensures
        r == crc32_value(data@),
{
    let mut h = crc32fast::Hasher::new();
    h.update(data);
    h.finalize()
}

/// Calls `adler::adler32_slice`; claimed: its result is the Adler-32 checksum
/// that `adler32_value` states (two sums modulo 65521).
#[verifier::external_body]
fn adler32_of(data: &[u8]) -> (r: u32)
    ensures
        r == adler32_value(data@),
{
    adler::adler32_slice(data)
}

/// Calls `encode` of base64's `STANDARD` engine; claimed: its text is the
/// padded encoding with the standard alphabet that `base64_standard` states.
#[verifier::external_body]
fn base64_encode(data: &[u8]) -> (r: String)
    ensures
        r@ == base64_standard(data@),
{
    base64::Engine::encode(&base64::engine::general_purpose::STANDARD, data)
}

/// Calls `encode` of base64's `URL_SAFE_NO_PAD` engine; claimed: its text is
/// the unpadded encoding with the URL-safe alphabet that `base64_url` states.
#[verifier::external_body]
fn base64_url_encode(data: &[u8]) -> (r: String)
    ensures
        r@ == base64_url(data@),
{
    base64::Engine::encode(&base64::engine::general_purpose::URL_SAFE_NO_PAD, data)
}

/// Calls `decode` of base64's `STANDARD` engine; claimed: the decoded bytes,
/// or `None` on a decoding error, named `base64_decoded`.
#[verifier::external_body]
pub(crate) fn base64_decode(text: &str) -> (r: Option<Vec<u8>>)
    ensures
        match r {
            Some(b) => base64_decoded(text@) == Some(b@),
            None => base64_decoded(text@) is None,
        },
{
    base64::Engine::decode(&base64::engine::general_purpose::STANDARD, text).ok()
}

/// Calls `String::from_utf8_lossy`; claimed: its text, named `utf8_lossy`.
#[verifier::external_body]
pub(crate) fn lossy_text(data: &[u8]) -> (r: String)
    ensures
        r@ == utf8_lossy(data@),
{
    String::from_utf8_lossy(data).to_string()
}

/// A byte that percent-encoding leaves as it is: an ASCII letter or digit, `-`, `.`, `_` or `~`.
pub open spec fn url_safe(b: u8) -> bool {
    (0x30 <= b <= 0x39) || (0x41 <= b <= 0x5a) || (0x61 <= b <= 0x7a) || b == 0x2d || b == 0x2e || b == 0x5f || b == 0x7e
}

/// An upper-case hexadecimal digit.
pub open spec fn upper_hex_digit(d: u8) -> char {
    if d < 10 { (0x30 + d) as char } else { (0x41 + d - 10) as char }
}

/// The percent-encoding of some bytes: safe bytes as they are, every other
/// byte as `%` and two upper-case hexadecimal digits.
pub open spec fn percent_encoded(b: Seq<u8>) -> Seq<char>
    decreases b.len(),
{
    if b.len() == 0 {
        seq![]
    } else {
        (if url_safe(b[0]) {
            seq![b[0] as char]
        } else {
            seq!['%', upper_hex_digit(b[0] / 16), upper_hex_digit(b[0] % 16)]
        }) + percent_encoded(b.drop_first())
    }
}

/// Calls `urlencoding::encode`; claimed, as its documentation and source
/// show: every byte of the UTF-8 text kept when it is an ASCII letter or
/// digit, `-`, `.`, `_` or `~`, and written `%XX` in upper-case hex otherwise.
#[verifier::external_body]
fn url_encode(text: &str) -> (r: String)
    ensures
        r@ == percent_encoded(vstd::utf8::encode_utf8(text@)),
{
    urlencoding::encode(text).to_string()
}

/// Calls `urlencoding::decode`; claimed: the decoded text, or `None` when the
/// decoded bytes are not UTF-8, named `url_decoded`.
#[verifier::external_body]
fn url_decode(text: &str) -> (r: Option<String>)
    ensures
        crate::text::opt_string_view(r) == url_decoded(text@),
{
    urlencoding::decode(text).ok().map(|s| s.to_string())
}

/// The text with `&`, `<` and `>` written as `&amp;`, `&lt;` and `&gt;`.
pub open spec fn html_text_escaped(s: Seq<char>) -> Seq<char>
    decreases s.len(),
{
    if s.len() == 0 {
        seq![]
    } else {
        (if s[0] == '&' {
            "&amp;"@
        } else if s[0] == '<' {
            "&lt;"@
        } else if s[0] == '>' {
            "&gt;"@
        } else {
            seq![s[0]]
        }) + html_text_escaped(s.drop_first())
    }
}

/// Calls `html_escape::encode_text`; claimed, as its documentation states:
/// `&`, `<` and `>` escaped as `&amp;`, `&lt;` and `&gt;`, the rest kept.
#[verifier::external_body]
fn html_encode(text: &str) -> (r: String)
    ensures
        r@ == html_text_escaped(text@),
{
    html_escape::encode_text(text).to_string()
}

/// Calls `Uuid::new_v4` and formats it; claimed: the hyphenated form, 36
/// characters. The value is random.
#[verifier::external_body]
fn uuid_v4() -> (r: String)
    ensures
        r@.len() == 36,
{
    uuid::Uuid::new_v4().to_string()
}

/// Calls `Uuid::now_v7` and formats it; claimed: the hyphenated form, 36
/// characters. The value depends on the time and on chance.
#[verifier::external_body]
fn uuid_v7() -> (r: String)
    ensures
        r@.len() == 36,
{
    uuid::Uuid::now_v7().to_string()
}

/// Calls `gen_range(0..n)` on `rand::thread_rng()`; claimed: a number below
/// `n`. The value is random.
#[verifier::external_body]
fn random_below(n: usize) -> (r: usize)
    requires
        n > 0,
    ensures
        r < n,
{
    rand::Rng::gen_range(&mut rand::thread_rng(), 0..n)
}

/// A lower-case hexadecimal digit.
pub open spec fn lower_hex_digit(d: nat) -> char {
    if d < 10 { (0x30 + d) as char } else { (0x61 + d - 10) as char }
}

/// Some bytes in lower-case hexadecimal, two digits each.
pub open spec fn hex_bytes(b: Seq<u8>) -> Seq<char>
    decreases b.len(),
{
    if b.len() == 0 {
        seq![]
    } else {
        seq![lower_hex_digit((b[0] / 16) as nat), lower_hex_digit((b[0] % 16) as nat)] + hex_bytes(b.drop_first())
    }
}

fn hex_char(d: u8) -> (c: char)
    requires
        d < 16,
    ensures
        c == lower_hex_digit(d as nat),
{
    if d < 10 { (0x30u8 + d) as char } else { (0x61u8 + d - 10) as char }
}

proof fn lemma_hex_bytes_split(b: Seq<u8>, i: int)
    requires
        0 <= i < b.len(),
    ensures
        hex_bytes(b.subrange(0, i + 1)) == hex_bytes(b.subrange(0, i)) + seq![
            lower_hex_digit((b[i] / 16) as nat),
            lower_hex_digit((b[i] % 16) as nat),
        ],
    decreases i,
{
    let s = b.subrange(0, i + 1);
    if i == 0 {
        assert(s.drop_first() =~= Seq::<u8>::empty());
        assert(b.subrange(0, 0) =~= Seq::<u8>::empty());
    } else {
        let t = b.drop_first();
        lemma_hex_bytes_split(t, i - 1);
        assert(s.drop_first() =~= t.subrange(0, i));
        assert(b.subrange(0, i).drop_first() =~= t.subrange(0, i - 1));
        assert(b.subrange(0, i)[0] == b[0]);
    }
}

/// Some bytes in lower-case hexadecimal.
pub fn hex_of(data: &[u8]) -> (r: String)
    ensures
        r@ == hex_bytes(data@),
{
    let mut out = String::new();
    let mut i: usize = 0;
    while i < data.len()
        invariant
            i <= data@.len(),
            out@ == hex_bytes(data@.subrange(0, i as int)),
        decreases data.len() - i,
    {
        let b = data[i];
        push_char(&mut out, hex_char(b / 16));
        push_char(&mut out, hex_char(b % 16));
        proof {
            lemma_hex_bytes_split(data@, i as int);
        }
        i = i + 1;
    }
    assert(data@.subrange(0, data@.len() as int) =~= data@);
    out
}

/// The last `k` hexadecimal digits of `n`, zero-padded, as `{:08x}` writes a `u32` when `k` is 8.
pub open spec fn hex_fixed(n: nat, k: nat) -> Seq<char>
    decreases k,
{
    if k == 0 {
        seq![]
    } else {
        hex_fixed(n / 16, (k - 1) as nat).push(lower_hex_digit(n % 16))
    }
}

/// A `u32` in eight lower-case hexadecimal digits.
pub fn hex8(n: u32) -> (r: String)
    ensures
        r@ == hex_fixed(n as nat, 8),
{
    let mut digits: Vec<char> = Vec::new();
    let mut m: u32 = n;
    let mut k: usize = 0;
    while k < 8
        invariant
            k <= 8,
            digits@.len() == k,
            hex_fixed(n as nat, 8) == hex_fixed(m as nat, (8 - k) as nat) + digits@.reverse(),
        decreases 8 - k,
    {
        let d = (m % 16) as u8;
        let c = hex_char(d);
        let ghost before = digits@;
        digits.push(c);
        assert(hex_fixed(m as nat, (8 - k) as nat) == hex_fixed((m / 16) as nat, (8 - k - 1) as nat).push(c));
        assert(digits@.reverse() =~= seq![c] + before.reverse());
        assert(hex_fixed((m / 16) as nat, (8 - k - 1) as nat).push(c) + before.reverse()
            =~= hex_fixed((m / 16) as nat, (8 - k - 1) as nat) + digits@.reverse());
        m = m / 16;
        k = k + 1;
    }
    let mut out = String::new();
    let mut j: usize = 8;
    assert(hex_fixed(m as nat, 0) =~= Seq::<char>::empty());
    while j > 0
        invariant
            j <= 8,
            digits@.len() == 8,
            out@ == digits@.reverse().subrange(0, 8 - j),
        decreases j,
    {
        push_char(&mut out, digits[j - 1]);
        assert(out@ =~= digits@.reverse().subrange(0, 8 - j + 1));
        j = j - 1;
    }
    assert(digits@.reverse().subrange(0, 8) =~= digits@.reverse());
    out
}

/// The output of a utility that computes from its input alone, for input
/// text `input` whose bytes (or the bytes of the file it names) are `data`;
/// `None` for the utilities that need the system or the file system.
pub open spec fn computed_output(u: Utility, input: Seq<char>, data: Seq<u8>) -> Option<Seq<char>> {
    match u {
        Utility::Md5 => Some(hex_bytes(md5_digest(data))),
        Utility::Sha1 => Some(hex_bytes(sha1_digest(data))),
        Utility::Sha256 => Some(hex_bytes(sha256_digest(data))),
        Utility::Sha512 => Some(hex_bytes(sha512_digest(data))),
        Utility::Blake3 => Some(hex_bytes(blake3_digest(data))),
        Utility::Crc32 => Some(hex_fixed(crc32_value(data) as nat, 8)),
        Utility::Adler32 => Some(hex_fixed(adler32_value(data) as nat, 8)),
        Utility::Base64 => Some(base64_standard(data)),
        Utility::Base64Url => Some(base64_url(data)),
        Utility::Hex => Some(hex_bytes(data)),
        Utility::Unbase64 => Some(match base64_decoded(trim(input)) {
            Some(b) => utf8_lossy(b),
            None => "Invalid base64"@,
        }),
        Utility::UrlEncode => Some(percent_encoded(vstd::utf8::encode_utf8(input))),
        Utility::UrlDecode => Some(match url_decoded(input) {
            Some(t) => t,
            None => Seq::<char>::empty(),
        }),
        Utility::HtmlEncode => Some(html_text_escaped(input)),
        Utility::Rev => Some(input.reverse()),
        Utility::JsonFmt => Some(match json_pretty_text(input) { Some(t) => t, None => "Invalid JSON"@ }),
        Utility::JsonCompact => Some(match json_compact_text(input) { Some(t) => t, None => "Invalid JSON"@ }),
        Utility::TomlToJson => Some(match toml_as_json(input) { Ok(t) => t, Err(e) => "Invalid TOML: "@ + e }),
        _ => None,
    }
}

/// Runs a utility that computes from its input alone: `input` is the joined
/// arguments, `data` the bytes of the file that `input` names, when it names
/// one, else the bytes of `input`.
pub fn compute_utility(u: Utility, input: &str, data: &[u8]) -> (r: Option<String>)
    ensures
        crate::text::opt_string_view(r) == computed_output(u, input@, data@),
{
    match u {
        Utility::Md5 => Some(hex_of(md5_of(data).as_slice())),
        Utility::Sha1 => Some(hex_of(sha1_of(data).as_slice())),
        Utility::Sha256 => Some(hex_of(sha256_of(data).as_slice())),
        Utility::Sha512 => Some(hex_of(sha512_of(data).as_slice())),
        Utility::Blake3 => Some(hex_of(blake3_of(data).as_slice())),
        Utility::Crc32 => Some(hex8(crc32_of(data))),
        Utility::Adler32 => Some(hex8(adler32_of(data))),
        Utility::Base64 => Some(base64_encode(data)),
        Utility::Base64Url => Some(base64_url_encode(data)),
        Utility::Hex => Some(hex_of(data)),
        Utility::Unbase64 => {
            let t = trim_str(input);
            match base64_decode(t.as_str()) {
                Some(b) => Some(lossy_text(b.as_slice())),
                None => Some(owned("Invalid base64")),
            }
        },
        Utility::UrlEncode => Some(url_encode(input)),
        Utility::UrlDecode => match url_decode(input) {
            Some(t) => Some(t),
            None => Some(String::new()),
        },
        Utility::HtmlEncode => Some(html_encode(input)),
        Utility::Rev => Some(rev_text(input)),
        Utility::JsonFmt => Some(json_fmt(input, true)),
        Utility::JsonCompact => Some(json_fmt(input, false)),
        Utility::TomlToJson => Some(toml_to_json(input)),
        _ => None,
    }
}

/// A new random UUID (version 4, or version 7 when `v7`), hyphenated.
pub fn new_uuid(v7: bool) -> (r: String)
    ensures
        r@.len() == 36,
{
    if v7 { uuid_v7() } else { uuid_v4() }
}

/// The characters a generated password is drawn from.
pub open spec fn password_charset() -> Seq<char> {
    "ABCDEFGHIJKLMNOPQRSTUVWXYZabcdefghijklmnopqrstuvwxyz0123456789!@#$%^&*()_+"@
}

/// A random password of `len` characters, each drawn from the charset.
pub fn gen_password(len: usize) -> (r: String)
    ensures
        r@.len() == len,
        forall|i: int| 0 <= i < r@.len() ==> password_charset().contains(#[trigger] r@[i]),
{
    let cs = chars_of("ABCDEFGHIJKLMNOPQRSTUVWXYZabcdefghijklmnopqrstuvwxyz0123456789!@#$%^&*()_+");
    proof {
        reveal_strlit("ABCDEFGHIJKLMNOPQRSTUVWXYZabcdefghijklmnopqrstuvwxyz0123456789!@#$%^&*()_+");
    }
    let mut out = String::new();
    let mut i: usize = 0;
    while i < len
        invariant
            cs@ == password_charset(),
            cs@.len() > 0,
            i <= len,
            out@.len() == i,
            forall|k: int| 0 <= k < out@.len() ==> password_charset().contains(#[trigger] out@[k]),
        decreases len - i,
    {
        let idx = random_below(cs.len());
        let ghost before = out@;
        push_char(&mut out, cs[idx]);
        assert forall|k: int| 0 <= k < out@.len() implies password_charset().contains(#[trigger] out@[k]) by {
            if k < before.len() {
                assert(out@[k] == before[k]);
            } else {
                assert(out@[k] == cs@[idx as int]);
            }
        }
        i = i + 1;
    }
    out
}

} // verus!
