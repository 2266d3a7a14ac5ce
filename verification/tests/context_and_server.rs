use crow::context::{
    ancestor_dirs, compile_context, deciding_gitignore, instruction_file, select_instructions, ContextError, DirProbe,
};
use crow::server::{check_session_path, missing_param, server_route, ActiveRuns, ServerRoute};
use sha2::Digest;

fn comps(parts: &[&str]) -> Vec<String> {
    parts.iter().map(|s| s.to_string()).collect()
}

#[test]
fn content_hash_is_sha256_of_content() {
    let f = instruction_file("/p/AGENTS.md".into(), "hash me\n".into());
    let expected: [u8; 32] = sha2::Sha256::digest(b"hash me\n").into();
    assert_eq!(f.content_hash, expected);
}

#[test]
fn total_hash_covers_prompt_then_hashes_in_order() {
    let a = instruction_file("a".into(), "root\n".into());
    let b = instruction_file("b".into(), "nested\n".into());
    let ctx = compile_context("prompt", vec![a.clone(), b.clone()]);
    let mut h = sha2::Sha256::new();
    h.update(b"prompt");
    h.update(a.content_hash);
    h.update(b.content_hash);
    let expected: [u8; 32] = h.finalize().into();
    assert_eq!(ctx.total_hash, expected);
    let swapped = compile_context("prompt", vec![b, a]);
    assert_ne!(ctx.total_hash, swapped.total_hash);
    assert_eq!(ctx.instructions.len(), 2);
    assert_eq!(ctx.system_prompt, "prompt");
}

#[test]
fn ancestors_run_from_root_to_cwd() {
    let root = comps(&["/", "p"]);
    let cwd = comps(&["/", "p", "a", "b"]);
    let dirs = ancestor_dirs(&root, &cwd).unwrap();
    assert_eq!(dirs, vec![comps(&["/", "p"]), comps(&["/", "p", "a"]), comps(&["/", "p", "a", "b"])]);
    assert_eq!(ancestor_dirs(&root, &root).unwrap(), vec![root.clone()]);
    assert_eq!(ancestor_dirs(&root, &comps(&["/", "q"])), Err(ContextError::CwdOutsideRoot));
    assert_eq!(ContextError::CwdOutsideRoot.message(), "cwd is outside project root");
}

#[test]
fn the_first_enclosing_gitignore_decides() {
    let dirs = vec![comps(&["/", "p", "x"]), comps(&["/", "p"]), comps(&["/", "p", "a"])];
    assert_eq!(deciding_gitignore(&dirs, &comps(&["/", "p", "a", "AGENTS.md"])), Some(1));
    assert_eq!(deciding_gitignore(&dirs, &comps(&["/", "q", "AGENTS.md"])), None);
}

#[test]
fn server_methods_route_by_name() {
    assert_eq!(server_route("submit"), ServerRoute::Submit);
    assert_eq!(server_route("shutdown"), ServerRoute::Shutdown);
    assert_eq!(server_route("frobnicate"), ServerRoute::Unknown("unknown method: frobnicate".into()));
    assert_eq!(missing_param("submit", "session_id"), "submit: session_id required");
}

#[test]
fn one_run_per_session() {
    let mut runs = ActiveRuns::new();
    assert!(runs.begin("s1").is_ok());
    assert!(runs.is_active("s1"));
    assert_eq!(runs.begin("s1"), Err("submit: session s1 already has an active run".to_string()));
    assert!(runs.begin("s2").is_ok());
    runs.end("s1");
    assert!(!runs.is_active("s1"));
    assert!(runs.is_active("s2"));
    assert!(runs.begin("s1").is_ok());
}

#[test]
fn request_text_lists_prompt_root_then_instructions() {
    let a = instruction_file("/p/AGENTS.md".into(), "root\n".into());
    let b = instruction_file("/p/src/AGENTS.md".into(), "nested\n".into());
    let ctx = compile_context("You are Crow.", vec![a, b]);
    assert_eq!(
        ctx.to_request_text("/p"),
        "You are Crow.\n\nProject root: /p\n\n# /p/AGENTS.md\nroot\n\n\n# /p/src/AGENTS.md\nnested\n"
    );
    let empty = compile_context("P", Vec::new());
    assert_eq!(empty.to_request_text("/r"), "P\n\nProject root: /r");
}

#[test]
fn content_hash_changes_when_content_changes() {
    let f1 = instruction_file("/d1/AGENTS.md".into(), "v1\n".into());
    let f2 = instruction_file("/d2/AGENTS.md".into(), "v2\n".into());
    assert_ne!(f1.content_hash, f2.content_hash);
    let ctx1 = compile_context("prompt", vec![f1]);
    let ctx2 = compile_context("prompt", vec![f2]);
    assert_ne!(ctx1.total_hash, ctx2.total_hash);
}

#[test]
fn total_hash_is_stable_for_same_inputs() {
    let build = || {
        compile_context(
            "prompt",
            vec![
                instruction_file("/p/AGENTS.md".into(), "stable\n".into()),
                instruction_file("/p/a/AGENTS.md".into(), "stable too\n".into()),
            ],
        )
    };
    let a = build();
    let b = build();
    assert_eq!(a.total_hash, b.total_hash);
    assert_eq!(a.instructions.len(), b.instructions.len());
    assert_eq!(
        a.instructions.iter().map(|i| i.content_hash).collect::<Vec<_>>(),
        b.instructions.iter().map(|i| i.content_hash).collect::<Vec<_>>()
    );
}

#[test]
fn total_hash_distinguishes_order() {
    let root = instruction_file("/p/AGENTS.md".into(), "same\n".into());
    let nested = instruction_file("/p/a/AGENTS.md".into(), "same\n".into());
    let at_root = compile_context("prompt", vec![root.clone()]);
    let at_a = compile_context("prompt", vec![root, nested]);
    assert_ne!(at_root.total_hash, at_a.total_hash);
}

#[test]
fn cwd_outside_root_is_rejected() {
    let err = ancestor_dirs(&comps(&["/", "tmp", "project"]), &comps(&["/", "tmp", "outside"])).unwrap_err();
    assert!(matches!(err, ContextError::CwdOutsideRoot));
}

#[test]
fn cwd_three_deep_with_instructions_at_each_level() {
    let root = comps(&["/", "r"]);
    let dirs = ancestor_dirs(&root, &comps(&["/", "r", "a", "b", "c"])).unwrap();
    assert_eq!(dirs.len(), 4);
    let files: Vec<_> = ["L0\n", "L1\n", "L2\n", "L3\n"]
        .iter()
        .zip(dirs.iter())
        .map(|(body, dir)| instruction_file(format!("{}/AGENTS.md", dir.join("/")), body.to_string()))
        .collect();
    let ctx = compile_context("prompt", files);
    assert_eq!(
        ctx.instructions.iter().map(|i| i.content.as_str()).collect::<Vec<_>>(),
        vec!["L0\n", "L1\n", "L2\n", "L3\n"]
    );
}

#[test]
fn agents_md_in_gitignore_is_not_loaded() {
    // The tree: /r/AGENTS.md ("root\n"), /r/a/.gitignore ("AGENTS.md\n"),
    // /r/a/AGENTS.md ("should be ignored\n"); the cwd is /r/a.
    let root = comps(&["/", "r"]);
    let dirs = ancestor_dirs(&root, &comps(&["/", "r", "a"])).unwrap();
    let gitignore_dirs = vec![comps(&["/", "r", "a"])];
    let probes: Vec<DirProbe> = dirs
        .iter()
        .map(|dir| {
            let mut file = dir.clone();
            file.push("AGENTS.md".to_string());
            // The one .gitignore ignores `AGENTS.md`, so a file it decides
            // on is ignored.
            let ignored = deciding_gitignore(&gitignore_dirs, &file).is_some();
            let content = if file.len() == 3 { "root\n" } else { "should be ignored\n" };
            DirProbe { path: file.join("/"), ignored, content: if ignored { None } else { Some(content.to_string()) } }
        })
        .collect();
    let files = select_instructions(&probes);
    assert_eq!(files.len(), 1);
    assert_eq!(files[0].content, "root\n");
}

#[test]
fn absent_and_unreadable_files_are_skipped_in_order() {
    let probes = vec![
        DirProbe { path: "/r/AGENTS.md".into(), ignored: false, content: None },
        DirProbe { path: "/r/a/AGENTS.md".into(), ignored: false, content: Some("a\n".into()) },
        DirProbe { path: "/r/a/b/AGENTS.md".into(), ignored: false, content: Some("b\n".into()) },
    ];
    let files = select_instructions(&probes);
    assert_eq!(files.iter().map(|f| f.content.as_str()).collect::<Vec<_>>(), vec!["a\n", "b\n"]);
    assert_eq!(files[0].content_hash, instruction_file("x".into(), "a\n".into()).content_hash);
}

#[test]
fn session_paths_must_be_the_sessions_own_log() {
    assert_eq!(check_session_path("/p/.crow/sessions/01AB.jsonl", "/p", "01AB"), Ok(()));
    assert_eq!(check_session_path("/.crow/sessions/x.jsonl", "/", "x"), Ok(()));
    assert_eq!(
        check_session_path("/tmp/other/not-the-real-session.jsonl", "/p", "01AB"),
        Err("path mismatch: expected /p/.crow/sessions/01AB.jsonl, got /tmp/other/not-the-real-session.jsonl".into())
    );
    assert!(check_session_path("/p/.crow/sessions/01AC.jsonl", "/p", "01AB").is_err());
}
