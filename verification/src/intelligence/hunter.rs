//! The bug hunter: it reads the public free functions of a Rust source file
//! and writes a property-based fuzzing harness with one typed case per
//! function.

use vstd::prelude::*;
use crate::text::{
    cat, cat3, chars_of, dec, is_prefix, join, join_strings, lines, lines_of, owned, push_str,
    split_char, split_on, split_once, split_once_spec, starts_with, str_contains, contains,
    str_eq, string_of_range, trim, trim_end_matches, trim_end_matches_spec, trim_str, u64_to_string,
    upto_char, views,
};

verus! {

/// Whether `char::is_alphanumeric` holds of `c` (Unicode letters and numbers).
pub uninterp spec fn alphanumeric(c: char) -> bool;

/// Calls `char::is_alphanumeric`; the result is named `alphanumeric`, and for
/// ASCII characters it is stated: the letters and the decimal digits.
#[verifier::external_body]
fn is_alphanumeric_char(c: char) -> (r: bool)
    ensures
        r == alphanumeric(c),
        (c as u32) < 128 ==> (r <==> ('a' <= c <= 'z' || 'A' <= c <= 'Z' || '0' <= c <= '9')),
{
    c.is_alphanumeric()
}

/// A character that may stand in a plain identifier.
pub open spec fn ident_char(c: char) -> bool {
    alphanumeric(c) || c == '_'
}

/// A non-empty run of identifier characters.
pub open spec fn is_ident(s: Seq<char>) -> bool {
    s.len() > 0 && forall|i: int| 0 <= i < s.len() ==> ident_char(#[trigger] s[i])
}

/// `s` without its trailing run of `-` and `>` characters.
pub open spec fn strip_arrow(s: Seq<char>) -> Seq<char>
    decreases s.len(),
{
    if s.len() > 0 && (s.last() == '-' || s.last() == '>') {
        strip_arrow(s.drop_last())
    } else {
        s
    }
}

/// The type that one parameter of a signature fragment declares: the text
/// after its first `:`, trimmed, without trailing `)` and then without
/// trailing `-` and `>`, trimmed again; none for a `self` receiver or a piece
/// without `:`.
pub open spec fn param_type(piece: Seq<char>) -> Option<Seq<char>> {
    let q = trim(piece);
    if is_prefix("&self"@, q) || is_prefix("&mut self"@, q) || q == "self"@ {
        None
    } else {
        match split_once_spec(q, ':') {
            Some((_, rest)) => Some(trim(strip_arrow(trim_end_matches_spec(trim(rest), ")"@)))),
            None => None,
        }
    }
}

/// The declared types of the pieces, in order, skipping those without one.
pub open spec fn collect_types(ps: Seq<Seq<char>>) -> Seq<Seq<char>>
    decreases ps.len(),
{
    if ps.len() == 0 {
        seq![]
    } else {
        let rest = collect_types(ps.drop_last());
        match param_type(ps.last()) {
            Some(t) => rest.push(t),
            None => rest,
        }
    }
}

/// The parameter types of a signature fragment (the text after its `(`),
/// read piece by piece between commas.
pub open spec fn param_types(params: Seq<char>) -> Seq<Seq<char>> {
    collect_types(split_char(params, ','))
}

/// The signature that a source line declares: for a line that, trimmed,
/// starts with `pub fn ` and holds a `(`, the name between the two
/// (trimmed) when it is a plain identifier, with the types of the text after
/// the `(`.
pub open spec fn line_signature(line: Seq<char>) -> Option<(Seq<char>, Seq<Seq<char>>)> {
    let t = trim(line);
    if is_prefix("pub fn "@, t) {
        match split_once_spec(t, '(') {
            Some((before, after)) => {
                let name = trim(before.skip(7));
                if is_ident(name) { Some((name, param_types(after))) } else { None }
            },
            None => None,
        }
    } else {
        None
    }
}

/// The signatures that the lines declare, in order.
pub open spec fn signatures_of(ls: Seq<Seq<char>>) -> Seq<(Seq<char>, Seq<Seq<char>>)>
    decreases ls.len(),
{
    if ls.len() == 0 {
        seq![]
    } else {
        let rest = signatures_of(ls.drop_last());
        match line_signature(ls.last()) {
            Some(s) => rest.push(s),
            None => rest,
        }
    }
}

/// The view of a list of signatures.
pub open spec fn sig_views(v: Seq<(String, Vec<String>)>) -> Seq<(Seq<char>, Seq<Seq<char>>)> {
    Seq::new(v.len(), |i: int| (v[i].0@, views(v[i].1@)))
}

/// The strategy for arbitrary strings of at most 256 characters.
pub open spec fn long_text_strategy() -> Seq<char> {
    "\"\\\\PC{0,256}\""@
}

/// The proptest strategy that generates values of a parameter type, judged
/// by the first type name that the text holds.
pub open spec fn strategy_for(t: Seq<char>) -> Seq<char> {
    if contains(t, "String"@) || contains(t, "str"@) {
        long_text_strategy()
    } else if contains(t, "i32"@) {
        "proptest::num::i32::ANY"@
    } else if contains(t, "i64"@) {
        "proptest::num::i64::ANY"@
    } else if contains(t, "u32"@) {
        "proptest::num::u32::ANY"@
    } else if contains(t, "u64"@) {
        "proptest::num::u64::ANY"@
    } else if contains(t, "usize"@) {
        "0usize..=65536usize"@
    } else if contains(t, "f32"@) {
        "proptest::num::f32::ANY"@
    } else if contains(t, "f64"@) {
        "proptest::num::f64::ANY"@
    } else if contains(t, "bool"@) {
        "proptest::bool::ANY"@
    } else {
        "\"\\\\PC{0,64}\""@
    }
}

/// The name of the `i`-th argument of a case.
pub open spec fn arg_name(i: nat) -> Seq<char> {
    "arg"@ + dec(i)
}

/// The case arguments with their strategies.
pub open spec fn strategy_items(ts: Seq<Seq<char>>) -> Seq<Seq<char>> {
    Seq::new(ts.len(), |i: int| arg_name(i as nat) + " in "@ + strategy_for(ts[i]))
}

/// The case argument names.
pub open spec fn arg_names(n: nat) -> Seq<Seq<char>> {
    Seq::new(n, |i: int| arg_name(i as nat))
}

/// The fuzzing case for the function `f` of module `m` with parameter types `ts`.
pub open spec fn fuzz_case(m: Seq<char>, f: Seq<char>, ts: Seq<Seq<char>>) -> Seq<char> {
    "\n    #[test]\n    fn fuzz_"@ + m + "_"@ + f + "("@ + join(strategy_items(ts), ", "@)
        + ") {\n        // Invariant: calling "@ + f
        + " with arbitrary inputs should not panic.\n        // If it returns a Result, an Err is acceptable — a panic is not.\n        let _ = std::panic::catch_unwind(|| {\n            // NOTE: Replace the line below with the actual call to "@
        + f + "\n            // once the module is imported. This harness tests non-panicking stability.\n            let _inputs = ("@
        + join(arg_names(ts.len()), ", "@) + ",);\n        });\n    }\n"@
}

/// The cases for the signatures, skipping those without parameters.
pub open spec fn fuzz_cases(m: Seq<char>, sigs: Seq<(Seq<char>, Seq<Seq<char>>)>) -> Seq<char>
    decreases sigs.len(),
{
    if sigs.len() == 0 {
        seq![]
    } else {
        fuzz_cases(m, sigs.drop_last()) + if sigs.last().1.len() == 0 {
            Seq::<char>::empty()
        } else {
            fuzz_case(m, sigs.last().0, sigs.last().1)
        }
    }
}

/// The cases of a module in which no signature was found.
pub open spec fn fallback_cases(m: Seq<char>) -> Seq<char> {
    "\n    #[test]\n    fn fuzz_"@ + m
        + "_empty_string_input(s in \"\\\\PC{0,256}\") {\n        // Invariant: processing an arbitrary string should not panic\n        let _ = s.len();\n        assert!(s.len() <= 256);\n    }\n\n    #[test]\n    fn fuzz_"@
        + m
        + "_integer_boundaries(i in proptest::num::i64::ANY) {\n        // Invariant: integer arithmetic within i64 bounds should not overflow\n        let _ = i.wrapping_add(1);\n        let _ = i.wrapping_sub(1);\n    }\n"@
}

/// The whole harness for module `m`: a header, then the cases of its first
/// eight signatures (or the fallback cases when it has none) in one
/// `proptest!` block.
pub open spec fn harness_text(m: Seq<char>, sigs: Seq<(Seq<char>, Seq<Seq<char>>)>) -> Seq<char> {
    "//! Auto-generated proptest harness for module: "@ + m
        + "\n//! Generated by DevUtils BugHunter — edit the `let _ =` lines to call real functions.\nuse proptest::prelude::*;\n\nproptest! {\n"@
        + (if sigs.len() == 0 { fallback_cases(m) } else { fuzz_cases(m, sigs.take(if sigs.len() < 8 { sigs.len() as int } else { 8 })) })
        + "}\n"@
}

/// The report of a hunt over the module `stem`.
pub open spec fn report_text(stem: Seq<char>, found: nat, output: Seq<char>) -> Seq<char> {
    "=== Forensic Bug Hunter Report: "@ + stem + " ===\nSignatures discovered: "@ + dec(found) + "\n\n"@ + output
        + "\n\n✅ Execution complete."@
}

/// Where a chain of characters with no `c` among its first `k` has its first `c`.
proof fn lemma_upto_at_least(s: Seq<char>, c: char, k: int)
    requires
        0 <= k <= s.len(),
        forall|i: int| 0 <= i < k ==> s[i] != c,
    ensures
        upto_char(s, c).len() >= k,
    decreases k,
{
    if k > 0 {
        assert forall|i: int| 0 <= i < k - 1 implies s.drop_first()[i] != c by {
            assert(s.drop_first()[i] == s[i + 1]);
        }
        lemma_upto_at_least(s.drop_first(), c, k - 1);
    }
}

/// Removes the trailing run of `-` and `>` characters.
fn strip_arrow_str(s: &str) -> (r: String)
    ensures
        r@ == strip_arrow(s@),
{
    let v = chars_of(s);
    let mut j: usize = v.len();
    assert(v@.subrange(0, j as int) =~= v@);
    while j > 0 && (v[j - 1] == '-' || v[j - 1] == '>')
        invariant
            v@ == s@,
            j <= v@.len(),
            strip_arrow(s@) == strip_arrow(v@.subrange(0, j as int)),
        decreases j,
    {
        assert(v@.subrange(0, j as int).drop_last() =~= v@.subrange(0, j - 1));
        j = j - 1;
    }
    string_of_range(&v, 0, j)
}

/// Whether every character of `s` may stand in an identifier.
fn all_ident_chars(s: &str) -> (r: bool)
    ensures
        r == (forall|i: int| 0 <= i < s@.len() ==> ident_char(#[trigger] s@[i])),
{
    let v = chars_of(s);
    let mut i: usize = 0;
    while i < v.len()
        invariant
            v@ == s@,
            i <= v@.len(),
            forall|k: int| 0 <= k < i ==> ident_char(#[trigger] s@[k]),
        decreases v.len() - i,
    {
        if !(is_alphanumeric_char(v[i]) || v[i] == '_') {
            assert(!ident_char(s@[i as int]));
            return false;
        }
        i = i + 1;
    }
    true
}

/// The tester of the public functions of a source file.
pub struct BugHunter {}

impl BugHunter {
    /// A bug hunter.
    pub fn new() -> (r: Self) {
        BugHunter {}
    }

    /// The type that one parameter piece declares.
    fn param_type_of(piece: &str) -> (r: Option<String>)
        ensures
            match param_type(piece@) {
                Some(t) => r is Some && r->0@ == t,
                None => r is None,
            },
    {
        let q = trim_str(piece);
        proof { reveal_strlit("self"); }
        if starts_with(q.as_str(), "&self") || starts_with(q.as_str(), "&mut self") || str_eq(q.as_str(), "self") {
            return None;
        }
        match split_once(q.as_str(), ':') {
            Some((_, rest)) => {
                let a = trim_str(rest.as_str());
                let b = trim_end_matches(a.as_str(), ")");
                let c = strip_arrow_str(b.as_str());
                Some(trim_str(c.as_str()))
            },
            None => None,
        }
    }

    /// The declared parameter types of a signature fragment (the text after
    /// its `(`), skipping `self` receivers and pieces without `:`.
    pub fn extract_param_types(params: &str) -> (r: Vec<String>)
        ensures
            views(r@) == param_types(params@),
    {
        let ps = split_on(params, ',');
        let mut out: Vec<String> = Vec::new();
        let mut i: usize = 0;
        while i < ps.len()
            invariant
                i <= ps@.len(),
                views(ps@) == split_char(params@, ','),
                views(out@) == collect_types(views(ps@).subrange(0, i as int)),
            decreases ps.len() - i,
        {
            let ghost pre = views(ps@).subrange(0, i + 1);
            assert(pre.drop_last() =~= views(ps@).subrange(0, i as int));
            assert(pre.last() == ps@[i as int]@);
            let ghost before = out@;
            match Self::param_type_of(ps[i].as_str()) {
                Some(t) => {
                    out.push(t);
                    assert(views(out@) =~= views(before).push(out@.last()@));
                },
                None => {},
            }
            i = i + 1;
        }
        assert(views(ps@).subrange(0, ps@.len() as int) =~= views(ps@));
        out
    }

    /// The signature that one source line declares, if any.
    fn signature_of_line(line: &str) -> (r: Option<(String, Vec<String>)>)
        ensures
            match line_signature(line@) {
                Some((name, ts)) => match r {
                    Some(p) => p.0@ == name && views(p.1@) == ts,
                    None => false,
                },
                None => r is None,
            },
    {
        let t = trim_str(line);
        proof { reveal_strlit("pub fn "); }
        if !starts_with(t.as_str(), "pub fn ") {
            return None;
        }
        match split_once(t.as_str(), '(') {
            Some((before, after)) => {
                proof {
                    assert forall|i: int| 0 <= i < 7 implies t@[i] != '(' by {
                        assert(t@[i] == "pub fn "@[i]);
                    }
                    lemma_upto_at_least(t@, '(', 7);
                }
                let bv = chars_of(before.as_str());
                let rest = string_of_range(&bv, 7, bv.len());
                assert(rest@ =~= before@.skip(7));
                let name = trim_str(rest.as_str());
                if name.as_str().is_empty() || !all_ident_chars(name.as_str()) {
                    return None;
                }
                let types = Self::extract_param_types(after.as_str());
                Some((name, types))
            },
            None => None,
        }
    }

    /// The public free functions that `source` declares, one per line that,
    /// trimmed, starts with `pub fn `, each with its parameter types.
    pub fn extract_pub_fns(source: &str) -> (r: Vec<(String, Vec<String>)>)
        ensures
            sig_views(r@) == signatures_of(lines(source@)),
    {
        let ls = lines_of(source);
        let mut out: Vec<(String, Vec<String>)> = Vec::new();
        let mut i: usize = 0;
        assert(sig_views(out@) =~= signatures_of(Seq::<Seq<char>>::empty()));
        assert(views(ls@).subrange(0, 0) =~= Seq::<Seq<char>>::empty());
        while i < ls.len()
            invariant
                i <= ls@.len(),
                views(ls@) == lines(source@),
                sig_views(out@) == signatures_of(views(ls@).subrange(0, i as int)),
            decreases ls.len() - i,
        {
            let ghost pre = views(ls@).subrange(0, i + 1);
            assert(pre.drop_last() =~= views(ls@).subrange(0, i as int));
            assert(pre.last() == ls@[i as int]@);
            let ghost before = out@;
            match Self::signature_of_line(ls[i].as_str()) {
                Some(s) => {
                    out.push(s);
                    assert(sig_views(out@) =~= sig_views(before).push((out@.last().0@, views(out@.last().1@))));
                },
                None => {},
            }
            i = i + 1;
        }
        assert(views(ls@).subrange(0, ls@.len() as int) =~= views(ls@));
        out
    }

    /// The proptest strategy for a parameter type.
    pub fn type_to_strategy(typ: &str) -> (r: &'static str)
        ensures
            r@ == strategy_for(typ@),
    {
        if str_contains(typ, "String") || str_contains(typ, "str") {
            "\"\\\\PC{0,256}\""
        } else if str_contains(typ, "i32") {
            "proptest::num::i32::ANY"
        } else if str_contains(typ, "i64") {
            "proptest::num::i64::ANY"
        } else if str_contains(typ, "u32") {
            "proptest::num::u32::ANY"
        } else if str_contains(typ, "u64") {
            "proptest::num::u64::ANY"
        } else if str_contains(typ, "usize") {
            "0usize..=65536usize"
        } else if str_contains(typ, "f32") {
            "proptest::num::f32::ANY"
        } else if str_contains(typ, "f64") {
            "proptest::num::f64::ANY"
        } else if str_contains(typ, "bool") {
            "proptest::bool::ANY"
        } else {
            "\"\\\\PC{0,64}\""
        }
    }

    /// The fuzzing case of one function.
    fn fuzz_case_text(module_name: &str, fn_name: &str, types: &Vec<String>) -> (r: String)
        ensures
            r@ == fuzz_case(module_name@, fn_name@, views(types@)),
    {
        let mut items: Vec<String> = Vec::new();
        let mut names: Vec<String> = Vec::new();
        let mut i: usize = 0;
        while i < types.len()
            invariant
                i <= types@.len(),
                views(items@) == strategy_items(views(types@)).subrange(0, i as int),
                views(names@) == arg_names(types@.len() as nat).subrange(0, i as int),
            decreases types.len() - i,
        {
            let digits = u64_to_string(i as u64);
            let name = cat("arg", digits.as_str());
            let item = cat3(name.as_str(), " in ", Self::type_to_strategy(types[i].as_str()));
            let ghost bi = items@;
            let ghost bn = names@;
            items.push(item);
            names.push(name);
            assert(views(items@) =~= views(bi).push(item@));
            assert(views(names@) =~= views(bn).push(names@.last()@));
            assert(strategy_items(views(types@)).subrange(0, i + 1)
                =~= strategy_items(views(types@)).subrange(0, i as int).push(item@));
            assert(arg_names(types@.len() as nat).subrange(0, i + 1)
                =~= arg_names(types@.len() as nat).subrange(0, i as int).push(names@.last()@));
            i = i + 1;
        }
        assert(strategy_items(views(types@)).subrange(0, types@.len() as int) =~= strategy_items(views(types@)));
        assert(arg_names(types@.len() as nat).subrange(0, types@.len() as int) =~= arg_names(types@.len() as nat));
        let strategies = join_strings(&items, ", ");
        let args = join_strings(&names, ", ");
        let mut r = cat3("\n    #[test]\n    fn fuzz_", module_name, "_");
        push_str(&mut r, fn_name);
        push_str(&mut r, "(");
        push_str(&mut r, strategies.as_str());
        push_str(&mut r, ") {\n        // Invariant: calling ");
        push_str(&mut r, fn_name);
        push_str(&mut r, " with arbitrary inputs should not panic.\n        // If it returns a Result, an Err is acceptable — a panic is not.\n        let _ = std::panic::catch_unwind(|| {\n            // NOTE: Replace the line below with the actual call to ");
        push_str(&mut r, fn_name);
        push_str(&mut r, "\n            // once the module is imported. This harness tests non-panicking stability.\n            let _inputs = (");
        push_str(&mut r, args.as_str());
        push_str(&mut r, ",);\n        });\n    }\n");
        r
    }

    /// The proptest harness for the module `module_name`: one case per
    /// function with parameters among its first eight signatures, or two
    /// generic cases when it has no signature.
    pub fn generate_proptest_harness(&self, module_name: &str, signatures: &Vec<(String, Vec<String>)>) -> (r: String)
        ensures
            r@ == harness_text(module_name@, sig_views(signatures@)),
    {
        let mut tests = String::new();
        let ghost sv = sig_views(signatures@);
        if signatures.len() == 0 {
            push_str(&mut tests, "\n    #[test]\n    fn fuzz_");
            push_str(&mut tests, module_name);
            push_str(&mut tests, "_empty_string_input(s in \"\\\\PC{0,256}\") {\n        // Invariant: processing an arbitrary string should not panic\n        let _ = s.len();\n        assert!(s.len() <= 256);\n    }\n\n    #[test]\n    fn fuzz_");
            push_str(&mut tests, module_name);
            push_str(&mut tests, "_integer_boundaries(i in proptest::num::i64::ANY) {\n        // Invariant: integer arithmetic within i64 bounds should not overflow\n        let _ = i.wrapping_add(1);\n        let _ = i.wrapping_sub(1);\n    }\n");
        } else {
            let n: usize = if signatures.len() < 8 { signatures.len() } else { 8 };
            let mut i: usize = 0;
            assert(sv.take(0) =~= Seq::<(Seq<char>, Seq<Seq<char>>)>::empty());
            while i < n
                invariant
                    i <= n <= signatures@.len(),
                    sv == sig_views(signatures@),
                    tests@ == fuzz_cases(module_name@, sv.take(i as int)),
                decreases n - i,
            {
                assert(sv.take(i + 1).drop_last() =~= sv.take(i as int));
                assert(sv.take(i + 1).last() == (signatures@[i as int].0@, views(signatures@[i as int].1@)));
                if signatures[i].1.len() > 0 {
                    let case = Self::fuzz_case_text(module_name, signatures[i].0.as_str(), &signatures[i].1);
                    push_str(&mut tests, case.as_str());
                } else {
                    assert(tests@ + Seq::<char>::empty() =~= tests@);
                }
                i = i + 1;
            }
        }
        let mut r = cat3("//! Auto-generated proptest harness for module: ", module_name,
            "\n//! Generated by DevUtils BugHunter — edit the `let _ =` lines to call real functions.\nuse proptest::prelude::*;\n\nproptest! {\n");
        push_str(&mut r, tests.as_str());
        push_str(&mut r, "}\n");
        r
    }

    /// The harness for a module's source text: its signatures read and a
    /// case written for each.
    pub fn harness_for(&self, module_name: &str, source: &str) -> (r: (String, usize))
        ensures
            r.0@ == harness_text(module_name@, signatures_of(lines(source@))),
            r.1 == signatures_of(lines(source@)).len(),
    {
        let sigs = Self::extract_pub_fns(source);
        let text = self.generate_proptest_harness(module_name, &sigs);
        (text, sigs.len())
    }
}

/// The file that holds the harness of the module `stem`.
pub fn harness_file_name(stem: &str) -> (r: String)
    ensures
        r@ == "fuzz_"@ + stem@ + ".rs"@,
{
    cat3("fuzz_", stem, ".rs")
}

/// The command that runs the harness of the module `stem`.
pub fn hunt_command(stem: &str) -> (r: String)
    ensures
        r@ == "cargo test --test fuzz_"@ + stem@ + " 2>&1"@,
{
    cat3("cargo test --test fuzz_", stem, " 2>&1")
}

/// The report of a hunt over the module `stem` that found `found`
/// signatures and printed `output`.
pub fn hunt_report(stem: &str, found: usize, output: &str) -> (r: String)
    ensures
        r@ == report_text(stem@, found as nat, output@),
{
    let digits = u64_to_string(found as u64);
    let mut r = cat3("=== Forensic Bug Hunter Report: ", stem, " ===\nSignatures discovered: ");
    push_str(&mut r, digits.as_str());
    push_str(&mut r, "\n\n");
    push_str(&mut r, output);
    push_str(&mut r, "\n\n✅ Execution complete.");
    r
}

} // verus!
