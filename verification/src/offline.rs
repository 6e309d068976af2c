//! Offline mode: where a local model is looked for, whether offline chat is
//! possible, and the command line it runs.

use vstd::prelude::*;
use crate::text::{owned, views};

verus! {

/// The local model setup: the model file found, and whether chat can run.
pub struct OfflineAI {
    pub model_path: Option<String>,
    pub is_available: bool,
}

/// Where a model file is looked for, in order.
pub open spec fn model_search_paths() -> Seq<Seq<char>> {
    seq![
        "models/gguf/llama2-7b-chat.Q4_K_M.gguf"@,
        "models/llama2-7b-chat.gguf"@,
        "~/.devutils/models/llama2-7b-chat.gguf"@,
        "C:/llama.cpp/models/llama2-7b-chat.gguf"@,
    ]
}

/// Where a model file is looked for, in order.
pub fn search_paths() -> (r: Vec<String>)
    ensures
        views(r@) == model_search_paths(),
{
    let mut v: Vec<String> = Vec::new();
    v.push(owned("models/gguf/llama2-7b-chat.Q4_K_M.gguf"));
    v.push(owned("models/llama2-7b-chat.gguf"));
    v.push(owned("~/.devutils/models/llama2-7b-chat.gguf"));
    v.push(owned("C:/llama.cpp/models/llama2-7b-chat.gguf"));
    assert(views(v@) =~= model_search_paths());
    v
}

/// The first search path that exists, `exists[i]` telling whether the
/// `i`-th does.
pub open spec fn first_existing(exists: Seq<bool>, i: int) -> Option<int>
    decreases exists.len() - i,
{
    if i < 0 || i >= exists.len() {
        None
    } else if exists[i] {
        Some(i)
    } else {
        first_existing(exists, i + 1)
    }
}

impl OfflineAI {
    /// The setup given which search paths exist and whether the llama binary
    /// answers: the first existing path is the model; chat is possible when
    /// there is a model and a binary.
    pub fn new(exists: &Vec<bool>, binary_found: bool) -> (r: Self)
        requires
            exists@.len() == 4,
        ensures
            match first_existing(exists@, 0) {
                Some(i) => r.model_path matches Some(p) && p@ == model_search_paths()[i],
                None => r.model_path is None,
            },
            r.is_available == (first_existing(exists@, 0) is Some && binary_found),
    {
        let paths = search_paths();
        assert(views(paths@).len() == paths@.len());
        let mut i: usize = 0;
        while i < 4
            invariant
                i <= 4,
                exists@.len() == 4,
                views(paths@) == model_search_paths(),
                paths@.len() == 4,
                first_existing(exists@, 0) == first_existing(exists@, i as int),
            decreases 4 - i,
        {
            if exists[i] {
                assert(views(paths@)[i as int] == paths@[i as int]@);
                let p = owned(paths[i].as_str());
                return OfflineAI { model_path: Some(p), is_available: binary_found };
            }
            i = i + 1;
        }
        OfflineAI { model_path: None, is_available: false }
    }

    /// The arguments of the llama binary for a prompt, or why offline chat
    /// cannot run.
    pub fn chat_args(&self, prompt: &str) -> (r: Result<Vec<String>, String>)
        ensures
            !self.is_available ==> (r matches Err(e) && e@ == "No local model available. Install llama.cpp and a GGUF model."@),
            self.is_available && self.model_path is None ==>
                (r matches Err(e) && e@ == "No model found. Place a GGUF model in the models/ folder"@),
            self.is_available && self.model_path is Some ==> (r matches Ok(a) && views(a@) == seq![
                "-m"@, self.model_path->0@, "-p"@, prompt@, "-n"@, "512"@, "--no-mmap"@]),
    {
        if !self.is_available {
            return Err(owned("No local model available. Install llama.cpp and a GGUF model."));
        }
        match &self.model_path {
            Some(m) => {
                let mut a: Vec<String> = Vec::new();
                a.push(owned("-m"));
                a.push(owned(m.as_str()));
                a.push(owned("-p"));
                a.push(owned(prompt));
                a.push(owned("-n"));
                a.push(owned("512"));
                a.push(owned("--no-mmap"));
                assert(views(a@) =~= seq!["-m"@, m@, "-p"@, prompt@, "-n"@, "512"@, "--no-mmap"@]);
                Ok(a)
            },
            None => Err(owned("No model found. Place a GGUF model in the models/ folder")),
        }
    }
}

} // verus!
