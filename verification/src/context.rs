//! `AGENTS.md` discovery and the context compiler.
//!
//! Every turn the agent sends to the provider carries a system message
//! built from the versioned system prompt and every `AGENTS.md` on the
//! path from the project root down to the working directory, broadest
//! first. Walking the disk and matching `.gitignore` rules is the
//! application's job; which directories are consulted, in what order,
//! and how the result is hashed is decided here.

use vstd::prelude::*;

use crate::text::str_eq;

verus! {

/// The file name the convention uses for repository instructions.
pub const INSTRUCTIONS_FILE: &'static str = "AGENTS.md";

/// One `AGENTS.md` discovered on the root-to-cwd path.
#[derive(Debug, Clone)]
pub struct InstructionFile {
    /// Path of the file as discovered on disk (display text).
    pub path: String,
    /// The file's UTF-8 contents.
    pub content: String,
    /// SHA-256 of the content's bytes.
    pub content_hash: [u8; 32],
}

/// A compiled context ready to hand to the provider loop.
#[derive(Debug, Clone)]
pub struct CompiledContext {
    /// The system prompt.
    pub system_prompt: String,
    /// Every `AGENTS.md` on the root-to-cwd path, broadest first.
    pub instructions: Vec<InstructionFile>,
    /// SHA-256 of the system prompt's bytes followed by each
    /// instruction's content hash, in order.
    pub total_hash: [u8; 32],
}

/// Errors the context compiler can return (paths as display text, I/O
/// errors as their message).
#[derive(Debug, Clone, PartialEq, Eq)]
pub enum ContextError {
    NotADirectory(String),
    CwdOutsideRoot,
    Io(String),
}

/// The display text of a [`ContextError`].
pub open spec fn context_error_text(e: ContextError) -> Seq<char> {
    match e {
        ContextError::NotADirectory(p) => "project root is not a directory: "@ + p@,
        ContextError::CwdOutsideRoot => "cwd is outside project root"@,
        ContextError::Io(m) => "read failed: "@ + m@,
    }
}

impl ContextError {
    /// The human-readable message of this error (its display text).
    pub fn message(&self) -> (text: String)
        ensures
            text@ == context_error_text(*self),
    {
        match self {
            ContextError::NotADirectory(p) => {
                let mut out = String::from_str("project root is not a directory: ");
                out.append(p.as_str());
                out
            },
            ContextError::CwdOutsideRoot => String::from_str("cwd is outside project root"),
            ContextError::Io(m) => {
                let mut out = String::from_str("read failed: ");
                out.append(m.as_str());
                out
            },
        }
    }
}

/// The SHA-256 digest of `data`.
pub uninterp spec fn spec_sha256(data: Seq<u8>) -> Seq<u8>;

/// `sha2::Sha256::digest`: the SHA-256 digest of `data`, a function of
/// the bytes alone.
#[verifier::external_body]
fn sha256(data: &[u8]) -> (h: [u8; 32])
    ensures
        h@ == spec_sha256(data@),
{
    <sha2::Sha256 as sha2::Digest>::digest(data).into()
}

/// The instruction file at `path` holding `content`, with its hash.
pub fn instruction_file(path: String, content: String) -> (f: InstructionFile)
    ensures
        f.path == path,
        f.content == content,
        f.content_hash@ == spec_sha256(vstd::utf8::encode_utf8(content@)),
{
    let content_hash = sha256(content.as_str().as_bytes());
    InstructionFile { path, content, content_hash }
}

/// What was found for one directory on the root-to-cwd path: the path
/// of its `AGENTS.md`, whether a `.gitignore` excludes that file, and
/// the file's contents when it could be read (`None` when it is absent
/// or unreadable).
#[derive(Debug, Clone)]
pub struct DirProbe {
    pub path: String,
    pub ignored: bool,
    pub content: Option<String>,
}

/// The probes whose file is loaded: not ignored and read, in order.
pub open spec fn loaded(probes: Seq<DirProbe>) -> Seq<DirProbe>
    decreases probes.len(),
{
    if probes.len() == 0 {
        Seq::empty()
    } else {
        let rest = loaded(probes.drop_last());
        let p = probes.last();
        if !p.ignored && p.content is Some {
            rest.push(p)
        } else {
            rest
        }
    }
}

/// The instruction files of the probes (broadest first): each file that
/// is not ignored and was read, with its hash; ignored, absent and
/// unreadable files are skipped.
pub fn select_instructions(probes: &Vec<DirProbe>) -> (files: Vec<InstructionFile>)
    ensures
        files@.len() == loaded(probes@).len(),
        forall|i: int|
            0 <= i < files@.len() ==> {
                let f = #[trigger] files@[i];
                &&& f.path == loaded(probes@)[i].path
                &&& loaded(probes@)[i].content == Some(f.content)
                &&& f.content_hash@ == spec_sha256(vstd::utf8::encode_utf8(f.content@))
            },
{
    let mut files: Vec<InstructionFile> = Vec::new();
    let mut k: usize = 0;
    while k < probes.len()
        invariant
            k <= probes@.len(),
            files@.len() == loaded(probes@.take(k as int)).len(),
            forall|i: int|
                0 <= i < files@.len() ==> {
                    let f = #[trigger] files@[i];
                    &&& f.path == loaded(probes@.take(k as int))[i].path
                    &&& loaded(probes@.take(k as int))[i].content == Some(f.content)
                    &&& f.content_hash@ == spec_sha256(vstd::utf8::encode_utf8(f.content@))
                },
        decreases probes@.len() - k,
    {
        assert(probes@.take(k + 1).drop_last() =~= probes@.take(k as int));
        assert(probes@.take(k + 1).last() == probes@[k as int]);
        let p = &probes[k];
        if !p.ignored {
            if let Some(content) = &p.content {
                let f = instruction_file(p.path.clone(), content.clone());
                files.push(f);
            }
        }
        k = k + 1;
    }
    assert(probes@.take(k as int) =~= probes@);
    files
}

/// The bytes the total hash covers: the prompt's, then each
/// instruction's content hash, in order.
pub open spec fn hashed_bytes(prompt: Seq<u8>, files: Seq<InstructionFile>) -> Seq<u8>
    decreases files.len(),
{
    if files.len() == 0 {
        prompt
    } else {
        hashed_bytes(prompt, files.drop_last()) + files.last().content_hash@
    }
}

/// Compile a context from the system prompt and the discovered
/// instructions (broadest first).
pub fn compile_context(system_prompt: &str, instructions: Vec<InstructionFile>) -> (c: CompiledContext)
    ensures
        c.system_prompt@ == system_prompt@,
        c.instructions@ == instructions@,
        c.total_hash@ == spec_sha256(hashed_bytes(vstd::utf8::encode_utf8(system_prompt@), instructions@)),
{
    let prompt_bytes = system_prompt.as_bytes();
    let mut data: Vec<u8> = Vec::new();
    let mut i: usize = 0;
    while i < prompt_bytes.len()
        invariant
            i <= prompt_bytes@.len(),
            data@ == prompt_bytes@.take(i as int),
        decreases prompt_bytes@.len() - i,
    {
        data.push(prompt_bytes[i]);
        i = i + 1;
        assert(data@ =~= prompt_bytes@.take(i as int));
    }
    assert(prompt_bytes@.take(i as int) =~= prompt_bytes@);
    let mut k: usize = 0;
    while k < instructions.len()
        invariant
            k <= instructions@.len(),
            data@ == hashed_bytes(prompt_bytes@, instructions@.take(k as int)),
        decreases instructions@.len() - k,
    {
        let h = &instructions[k].content_hash;
        let ghost before = data@;
        let mut j: usize = 0;
        while j < 32
            invariant
                j <= 32,
                data@ == before + h@.take(j as int),
            decreases 32 - j,
        {
            data.push(h[j]);
            j = j + 1;
            assert(data@ =~= before + h@.take(j as int));
        }
        assert(h@.take(32) =~= h@);
        assert(instructions@.take(k + 1).drop_last() =~= instructions@.take(k as int));
        k = k + 1;
    }
    assert(instructions@.take(k as int) =~= instructions@);
    let total_hash = sha256(data.as_slice());
    CompiledContext { system_prompt: system_prompt.to_owned(), instructions, total_hash }
}

/// The request text of instruction files `files` after `head`: each
/// file adds a blank line, a `# ` header with its path, and its content.
pub open spec fn instructions_text(head: Seq<char>, files: Seq<InstructionFile>) -> Seq<char>
    decreases files.len(),
{
    if files.len() == 0 {
        head
    } else {
        instructions_text(head, files.drop_last()) + "\n\n# "@ + files.last().path@ + "\n"@
            + files.last().content@
    }
}

/// The system text sent with a request: the system prompt, a line
/// naming the project root, then each instruction file in order.
pub open spec fn request_text_spec(c: CompiledContext, project_root: Seq<char>) -> Seq<char> {
    instructions_text(c.system_prompt@ + "\n\nProject root: "@ + project_root, c.instructions@)
}

impl CompiledContext {
    /// The system text for a request made from `project_root`.
    pub fn to_request_text(&self, project_root: &str) -> (t: String)
        ensures
            t@ == request_text_spec(*self, project_root@),
    {
        let mut out = self.system_prompt.clone();
        out.append("\n\nProject root: ");
        out.append(project_root);
        let mut k: usize = 0;
        while k < self.instructions.len()
            invariant
                k <= self.instructions@.len(),
                out@ == instructions_text(
                    self.system_prompt@ + "\n\nProject root: "@ + project_root@,
                    self.instructions@.take(k as int),
                ),
            decreases self.instructions@.len() - k,
        {
            let f = &self.instructions[k];
            out.append("\n\n# ");
            out.append(f.path.as_str());
            out.append("\n");
            out.append(f.content.as_str());
            assert(self.instructions@.take(k + 1).drop_last() =~= self.instructions@.take(k as int));
            k = k + 1;
        }
        assert(self.instructions@.take(k as int) =~= self.instructions@);
        out
    }
}

/// Whether the path `p` (as components) lies under `dir`: `dir` is a
/// prefix of it.
pub open spec fn under(p: Seq<Seq<char>>, dir: Seq<Seq<char>>) -> bool {
    dir.len() <= p.len() && p.take(dir.len() as int) == dir
}

/// Whether `dir` (as components) is a prefix of `p`.
pub fn is_under(p: &Vec<String>, dir: &Vec<String>) -> (b: bool)
    ensures
        b == under(comps(p@), comps(dir@)),
{
    if dir.len() > p.len() {
        return false;
    }
    let mut i: usize = 0;
    while i < dir.len()
        invariant
            dir@.len() <= p@.len(),
            i <= dir@.len(),
            forall|j: int| 0 <= j < i ==> p@[j]@ == dir@[j]@,
        decreases dir@.len() - i,
    {
        if !str_eq(p[i].as_str(), dir[i].as_str()) {
            assert(comps(p@).take(comps(dir@).len() as int)[i as int] != comps(dir@)[i as int]);
            return false;
        }
        i = i + 1;
    }
    assert(comps(p@).take(comps(dir@).len() as int) =~= comps(dir@));
    true
}

/// The text of each path component.
pub open spec fn comps(v: Seq<String>) -> Seq<Seq<char>> {
    v.map_values(|c: String| c@)
}

/// The first `n` components of `p`.
fn prefix_of(p: &Vec<String>, n: usize) -> (dir: Vec<String>)
    requires
        n <= p@.len(),
    ensures
        comps(dir@) == comps(p@).take(n as int),
{
    let mut dir: Vec<String> = Vec::new();
    let mut j: usize = 0;
    while j < n
        invariant
            j <= n <= p@.len(),
            comps(dir@) == comps(p@).take(j as int),
        decreases n - j,
    {
        let ghost before = dir@;
        let c = p[j].clone();
        dir.push(c);
        assert(dir@ == before.push(p@[j as int]));
        assert(comps(dir@) =~= comps(before).push(p@[j as int]@));
        assert(comps(dir@) =~= comps(p@).take(j + 1));
        j = j + 1;
    }
    dir
}

/// The directories whose `AGENTS.md` is consulted, broadest first: the
/// root, then each directory down to `cwd` (paths as components). A
/// `cwd` outside the root is an error.
pub fn ancestor_dirs(root: &Vec<String>, cwd: &Vec<String>) -> (r: Result<Vec<Vec<String>>, ContextError>)
    ensures
        !under(comps(cwd@), comps(root@)) ==> r == Err::<Vec<Vec<String>>, ContextError>(ContextError::CwdOutsideRoot),
        under(comps(cwd@), comps(root@)) ==> (r matches Ok(dirs) && dirs@.len() == cwd@.len() - root@.len() + 1
            && forall|i: int| 0 <= i < dirs@.len() ==> comps(#[trigger] dirs@[i]@) == comps(cwd@).take(
            root@.len() + i,
        )),
{
    if !is_under(cwd, root) {
        return Err(ContextError::CwdOutsideRoot);
    }
    let mut dirs: Vec<Vec<String>> = Vec::new();
    let mut depth: usize = root.len();
    while depth < cwd.len()
        invariant
            root@.len() <= depth <= cwd@.len(),
            dirs@.len() == depth - root@.len(),
            forall|i: int| 0 <= i < dirs@.len() ==> comps(#[trigger] dirs@[i]@) == comps(cwd@).take(root@.len() + i),
        decreases cwd@.len() - depth,
    {
        let dir = prefix_of(cwd, depth);
        dirs.push(dir);
        depth = depth + 1;
    }
    let dir = prefix_of(cwd, depth);
    dirs.push(dir);
    Ok(dirs)
}

/// Which `.gitignore` decides about `file`: the first of `gitignore_dirs`
/// (the directories holding one, as components) that `file` lies under.
pub fn deciding_gitignore(gitignore_dirs: &Vec<Vec<String>>, file: &Vec<String>) -> (r: Option<usize>)
    ensures
        match r {
            Some(i) => i < gitignore_dirs@.len() && under(comps(file@), comps(gitignore_dirs@[i as int]@))
                && forall|j: int| 0 <= j < i ==> !under(comps(file@), comps(#[trigger] gitignore_dirs@[j]@)),
            None => forall|j: int| 0 <= j < gitignore_dirs@.len() ==> !under(comps(file@), comps(#[trigger] gitignore_dirs@[j]@)),
        },
{
    let mut i: usize = 0;
    while i < gitignore_dirs.len()
        invariant
            i <= gitignore_dirs@.len(),
            forall|j: int| 0 <= j < i ==> !under(comps(file@), comps(#[trigger] gitignore_dirs@[j]@)),
        decreases gitignore_dirs@.len() - i,
    {
        if is_under(file, &gitignore_dirs[i]) {
            return Some(i);
        }
        i = i + 1;
    }
    None
}

} // verus!
