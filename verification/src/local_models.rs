//! Local model providers (Ollama, LM Studio): which are available, which
//! model a local run uses, and the status report.

use vstd::prelude::*;
use crate::text::{cat, cat3, chars_of, join, lines, lines_of, opt_string_view, owned, push_str, split_whitespace, str_eq, views, words};

verus! {

/// The providers and whether each was found, Ollama first.
pub fn check_providers(ollama: bool, lm_studio: bool) -> (r: Vec<(String, bool)>)
    ensures
        r@.len() == 2,
        r@[0].0@ == "ollama"@ && r@[0].1 == ollama,
        r@[1].0@ == "lm_studio"@ && r@[1].1 == lm_studio,
{
    let mut v: Vec<(String, bool)> = Vec::new();
    v.push((owned("ollama"), ollama));
    v.push((owned("lm_studio"), lm_studio));
    v
}

/// The model names among the lines of `ollama list` after its header, from index `k` on.
pub open spec fn model_names(ls: Seq<Seq<char>>, k: nat) -> Seq<Seq<char>>
    decreases k,
{
    if k <= 1 || k > ls.len() {
        seq![]
    } else {
        model_names(ls, (k - 1) as nat) + (if words(ls[k - 1]).len() > 0 { seq![words(ls[k - 1])[0]] } else { seq![] })
    }
}

/// The models that `ollama list` printed: the first word of each line after the header.
pub fn list_ollama_models(success: bool, stdout: &str) -> (r: Vec<String>)
    ensures
        success ==> views(r@) == model_names(lines(stdout@), lines(stdout@).len()),
        !success ==> r@.len() == 0,
{
    let mut out: Vec<String> = Vec::new();
    if !success {
        return out;
    }
    let ls = lines_of(stdout);
    let mut i: usize = 1;
    while i < ls.len()
        invariant
            views(ls@) == lines(stdout@),
            1 <= i,
            i <= ls@.len() || ls@.len() == 0,
            views(out@) == model_names(lines(stdout@), i as nat),
        decreases ls.len() - i,
    {
        let w = split_whitespace(ls[i].as_str());
        let ghost before = views(out@);
        if w.len() > 0 {
            out.push(owned(w[0].as_str()));
            assert(views(out@) =~= before + seq![words(ls@[i as int]@)[0]]);
        } else {
            assert(views(out@) =~= before + Seq::<Seq<char>>::empty());
        }
        i = i + 1;
    }
    proof {
        if ls@.len() == 0 {
            assert(views(out@) == model_names(lines(stdout@), 1));
        }
    }
    out
}

/// The result of `ollama run`: its output, or its error output when it failed.
pub fn run_ollama_result(success: bool, stdout: String, stderr: String) -> (r: Result<String, String>)
    ensures
        success ==> r == Ok::<String, String>(stdout),
        !success ==> r == Err::<String, String>(stderr),
{
    if success { Ok(stdout) } else { Err(stderr) }
}

/// The result of an LM Studio chat: the content of its first choice.
pub fn run_lmstudio_result(content: Option<String>) -> (r: Result<String, String>)
    ensures
        match content {
            Some(c) => r == Ok::<String, String>(c),
            None => r matches Err(e) && e@ == "No response"@,
        },
{
    match content {
        Some(c) => Ok(c),
        None => Err(owned("No response")),
    }
}

/// The `id` of each element of the `data` array of LM Studio's model list,
/// read by `serde_json::from_slice` as a JSON value, each when it is a
/// string; none when the body is not JSON or has no `data` array.
pub uninterp spec fn lmstudio_ids(body: Seq<u8>) -> Option<Seq<Option<Seq<char>>>>;

/// The texts of some optional strings.
pub open spec fn opt_views(v: Seq<Option<String>>) -> Seq<Option<Seq<char>>> {
    v.map_values(|o: Option<String>| opt_string_view(o))
}

/// Reads LM Studio's model list with `serde_json::from_slice` into a
/// `serde_json::Value`; claimed: the ids named `lmstudio_ids`.
#[verifier::external_body]
fn lmstudio_model_ids(body: &[u8]) -> (r: Option<Vec<Option<String>>>)
    ensures
        match r {
            Some(v) => lmstudio_ids(body@) == Some(opt_views(v@)),
            None => lmstudio_ids(body@) is None,
        },
{
    let v: serde_json::Value = serde_json::from_slice(body).ok()?;
    let data = v.get("data")?.as_array()?;
    Some(data.iter().map(|m| m.get("id").and_then(|i| i.as_str()).map(|s| s.to_string())).collect())
}

/// The texts that are there, in order.
pub open spec fn present(v: Seq<Option<Seq<char>>>) -> Seq<Seq<char>>
    decreases v.len(),
{
    if v.len() == 0 {
        seq![]
    } else {
        present(v.drop_last()) + match v.last() {
            Some(t) => seq![t],
            None => Seq::<Seq<char>>::empty(),
        }
    }
}

/// The models that LM Studio's model list names: the string ids of its
/// `data` entries, none when the body does not read.
pub fn lmstudio_models_from(body: &[u8]) -> (r: Vec<String>)
    ensures
        views(r@) == match lmstudio_ids(body@) {
            Some(ids) => present(ids),
            None => Seq::<Seq<char>>::empty(),
        },
{
    let mut out: Vec<String> = Vec::new();
    let ids = match lmstudio_model_ids(body) {
        Some(v) => v,
        None => return out,
    };
    let ghost o = opt_views(ids@);
    let mut i: usize = 0;
    assert(o.take(0) =~= Seq::<Option<Seq<char>>>::empty());
    while i < ids.len()
        invariant
            o == opt_views(ids@),
            lmstudio_ids(body@) == Some(o),
            i <= ids@.len(),
            views(out@) == present(o.take(i as int)),
        decreases ids.len() - i,
    {
        let ghost before = views(out@);
        assert(o.take(i + 1).drop_last() =~= o.take(i as int));
        assert(o.take(i + 1).last() == opt_string_view(ids@[i as int]));
        match &ids[i] {
            Some(t) => {
                out.push(owned(t.as_str()));
                assert(views(out@) =~= before + seq![t@]);
            },
            None => {
                assert(views(out@) =~= before + Seq::<Seq<char>>::empty());
            },
        }
        i = i + 1;
    }
    assert(o.take(ids@.len() as int) =~= o);
    out
}

/// The `choices[0].message.content` of an LM Studio chat reply read by
/// `serde_json::from_slice` as a JSON value, when it is a string; the
/// error's text when the body is not JSON.
pub uninterp spec fn lmstudio_first_content(body: Seq<u8>) -> Result<Option<Seq<char>>, Seq<char>>;

/// Reads an LM Studio chat reply with `serde_json::from_slice` into a
/// `serde_json::Value`; claimed: the content, or the error's text, named
/// `lmstudio_first_content`.
#[verifier::external_body]
fn lmstudio_content(body: &[u8]) -> (r: Result<Option<String>, String>)
    ensures
        match (r, lmstudio_first_content(body@)) {
            (Ok(c), Ok(t)) => opt_string_view(c) == t,
            (Err(e), Err(m)) => e@ == m,
            _ => false,
        },
{
    match serde_json::from_slice::<serde_json::Value>(body) {
        Ok(v) => Ok(v["choices"][0]["message"]["content"].as_str().map(|s| s.to_string())),
        Err(e) => Err(e.to_string()),
    }
}

/// The answer of an LM Studio chat from its reply body: `Parse error: ` and
/// the reader's message when it is not JSON, else as `run_lmstudio_result`.
pub fn lmstudio_answer(body: &[u8]) -> (r: Result<String, String>)
    ensures
        match lmstudio_first_content(body@) {
            Err(m) => r matches Err(e) && e@ == "Parse error: "@ + m,
            Ok(Some(t)) => r matches Ok(c) && c@ == t,
            Ok(None) => r matches Err(e) && e@ == "No response"@,
        },
{
    match lmstudio_content(body) {
        Err(m) => Err(cat("Parse error: ", m.as_str())),
        Ok(c) => run_lmstudio_result(c),
    }
}

/// Which local provider and model a local run uses.
#[derive(Debug, Clone)]
pub enum LocalRun {
    Ollama { model: String },
    LmStudio { model: String },
}

/// The provider of a local run: Ollama's first model when Ollama is there
/// and has one, else LM Studio's first model; else an error.
pub fn run_local(ollama: bool, ollama_models: &Vec<String>, lm_studio: bool, lm_models: &Vec<String>) -> (r: Result<LocalRun, String>)
    ensures
        ollama && ollama_models@.len() > 0 ==> (r matches Ok(LocalRun::Ollama { model }) && model@ == ollama_models@[0]@),
        !(ollama && ollama_models@.len() > 0) && lm_studio && lm_models@.len() > 0 ==> (r matches Ok(LocalRun::LmStudio { model })
            && model@ == lm_models@[0]@),
        !(ollama && ollama_models@.len() > 0) && !(lm_studio && lm_models@.len() > 0) ==> (r matches Err(e)
            && e@ == "No local provider available. Install Ollama (ollama.ai) or LM Studio."@),
{
    if ollama && ollama_models.len() > 0 {
        return Ok(LocalRun::Ollama { model: owned(ollama_models[0].as_str()) });
    }
    if lm_studio && lm_models.len() > 0 {
        return Ok(LocalRun::LmStudio { model: owned(lm_models[0].as_str()) });
    }
    Err(owned("No local provider available. Install Ollama (ollama.ai) or LM Studio."))
}

/// Whether the provider `name` is listed as available (the first entry of that name decides).
pub open spec fn available(ps: Seq<(String, bool)>, name: Seq<char>) -> bool
    decreases ps.len(),
{
    if ps.len() == 0 {
        false
    } else if ps[0].0@ == name {
        ps[0].1
    } else {
        available(ps.drop_first(), name)
    }
}

fn is_available(ps: &Vec<(String, bool)>, name: &str) -> (r: bool)
    ensures
        r == available(ps@, name@),
{
    let mut i: usize = 0;
    assert(ps@.subrange(0, ps@.len() as int) =~= ps@);
    while i < ps.len()
        invariant
            i <= ps@.len(),
            available(ps@, name@) == available(ps@.subrange(i as int, ps@.len() as int), name@),
        decreases ps.len() - i,
    {
        assert(ps@.subrange(i as int, ps@.len() as int).drop_first() =~= ps@.subrange(i + 1, ps@.len() as int));
        if str_eq(ps[i].0.as_str(), name) {
            return ps[i].1;
        }
        i = i + 1;
    }
    false
}

/// The provider lines of the status: one per provider, in the given order.
pub open spec fn provider_lines(ps: Seq<(String, bool)>) -> Seq<char>
    decreases ps.len(),
{
    if ps.len() == 0 {
        seq![]
    } else {
        "  "@ + ps[0].0@ + ": "@ + (if ps[0].1 { "available"@ } else { "not found"@ }) + "\n"@ + provider_lines(ps.drop_first())
    }
}

/// Lines `  - {m}{suffix}`, one per model.
pub open spec fn model_lines(ms: Seq<Seq<char>>, suffix: Seq<char>) -> Seq<char>
    decreases ms.len(),
{
    if ms.len() == 0 {
        seq![]
    } else {
        "  - "@ + ms[0] + suffix + "\n"@ + model_lines(ms.drop_first(), suffix)
    }
}

/// Some provider is available.
pub open spec fn any_available(ps: Seq<(String, bool)>) -> bool {
    exists|i: int| 0 <= i < ps.len() && ps[i].1
}

/// The status of the local providers.
pub open spec fn status_text(ps: Seq<(String, bool)>, ollama_models: Seq<Seq<char>>, lm_models: Seq<Seq<char>>) -> Seq<char> {
    "Local Providers:\n"@ + provider_lines(ps) + (if any_available(ps) {
        "\nAvailable models:\n"@
            + (if available(ps, "ollama"@) { model_lines(ollama_models, seq![]) } else { seq![] })
            + (if available(ps, "lm_studio"@) { model_lines(lm_models, " (LM Studio)"@) } else { seq![] })
    } else {
        seq![]
    })
}

fn push_model_lines(out: &mut String, ms: &Vec<String>, suffix: &str)
    ensures
        final(out)@ == old(out)@ + model_lines(views(ms@), suffix@),
{
    let ghost start = out@;
    let mut i: usize = 0;
    assert(views(ms@).subrange(0, ms@.len() as int) =~= views(ms@));
    while i < ms.len()
        invariant
            i <= ms@.len(),
            start + model_lines(views(ms@), suffix@) == out@ + model_lines(views(ms@).subrange(i as int, ms@.len() as int), suffix@),
        decreases ms.len() - i,
    {
        let ghost rest = views(ms@).subrange(i as int, ms@.len() as int);
        assert(rest.drop_first() =~= views(ms@).subrange(i + 1, ms@.len() as int));
        let ghost before = out@;
        push_str(out, "  - ");
        push_str(out, ms[i].as_str());
        push_str(out, suffix);
        push_str(out, "\n");
        assert(before + model_lines(rest, suffix@) =~= out@ + model_lines(rest.drop_first(), suffix@));
        i = i + 1;
    }
    assert(views(ms@).subrange(i as int, ms@.len() as int) =~= Seq::<Seq<char>>::empty());
    assert(out@ + Seq::<char>::empty() =~= out@);
}

/// The status of the local providers `ps` with the models each lists.
pub fn get_status(ps: &Vec<(String, bool)>, ollama_models: &Vec<String>, lm_models: &Vec<String>) -> (r: String)
    ensures
        r@ == status_text(ps@, views(ollama_models@), views(lm_models@)),
{
    let mut out = owned("Local Providers:\n");
    let mut any = false;
    let mut i: usize = 0;
    assert(ps@.subrange(0, ps@.len() as int) =~= ps@);
    while i < ps.len()
        invariant
            i <= ps@.len(),
            "Local Providers:\n"@ + provider_lines(ps@) == out@ + provider_lines(ps@.subrange(i as int, ps@.len() as int)),
            any == (exists|k: int| 0 <= k < i && ps@[k].1),
        decreases ps.len() - i,
    {
        let ghost rest = ps@.subrange(i as int, ps@.len() as int);
        assert(rest.drop_first() =~= ps@.subrange(i + 1, ps@.len() as int));
        let ghost before = out@;
        push_str(&mut out, "  ");
        push_str(&mut out, ps[i].0.as_str());
        push_str(&mut out, ": ");
        if ps[i].1 {
            push_str(&mut out, "available");
            any = true;
        } else {
            push_str(&mut out, "not found");
        }
        push_str(&mut out, "\n");
        assert(before + provider_lines(rest) =~= out@ + provider_lines(rest.drop_first()));
        i = i + 1;
    }
    assert(ps@.subrange(i as int, ps@.len() as int) =~= Seq::<(String, bool)>::empty());
    assert(out@ + Seq::<char>::empty() =~= out@);
    if any {
        push_str(&mut out, "\nAvailable models:\n");
        if is_available(ps, "ollama") {
            push_model_lines(&mut out, ollama_models, "");
            proof {
                reveal_strlit("");
                assert(""@ =~= Seq::<char>::empty());
            }
        }
        if is_available(ps, "lm_studio") {
            push_model_lines(&mut out, lm_models, " (LM Studio)");
        }
    }
    out
}

} // verus!
