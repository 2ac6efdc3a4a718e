use ollama_shim::bootstrap::{
    bootstrap_exit_code, bootstrap_init, bootstrap_plan, completion_message, detect_os,
    spawn_failure_message, step_failure_message, unsupported_os_message, Os, Sequencer,
    ShellCommand,
};
use ollama_shim::facade::{
    check_ollama_installed, download_url, install_ollama, interpret_output, run_ollama_command,
    OllamaError,
};
use ollama_shim::facade::greet;
use ollama_shim::locator::{default_candidates, get_ollama_path, Locator};

#[test]
fn greet_formats_the_name() {
    assert_eq!(greet("World"), "Hello, World! You've been greeted from Rust!");
    assert_eq!(greet(""), "Hello, ! You've been greeted from Rust!");
}

#[test]
fn locator_hands_out_candidates_in_order() {
    let mut loc = Locator::new(default_candidates());
    assert_eq!(loc.pending(), Some("ollama".to_string()));
    assert_eq!(loc.record_probe(false), None);
    assert_eq!(loc.pending(), Some("/usr/local/bin/ollama".to_string()));
    assert_eq!(loc.record_probe(false), None);
    assert_eq!(loc.pending(), Some("/opt/homebrew/bin/ollama".to_string()));
}

#[test]
fn locator_returns_first_responding_candidate() {
    let mut loc = Locator::new(default_candidates());
    assert_eq!(loc.record_probe(false), None);
    assert_eq!(loc.record_probe(true), Some("/usr/local/bin/ollama".to_string()));
}

#[test]
fn locator_exhausts_when_every_probe_fails() {
    let mut loc = Locator::new(default_candidates());
    for _ in 0..3 {
        assert!(loc.pending().is_some());
        assert_eq!(loc.record_probe(false), None);
    }
    assert_eq!(loc.pending(), None);
}

#[test]
fn path_resolution_picks_first_success() {
    let r = get_ollama_path(default_candidates(), &vec![false, true, true]);
    assert_eq!(r, Some("/usr/local/bin/ollama".to_string()));
    let first = get_ollama_path(default_candidates(), &vec![true, false, false]);
    assert_eq!(first, Some("ollama".to_string()));
}

#[test]
fn no_probe_success_means_not_installed() {
    let r = get_ollama_path(default_candidates(), &vec![false, false, false]);
    assert_eq!(r, None);
    assert!(!check_ollama_installed(&r));
    assert_eq!(
        run_ollama_command(Err(OllamaError::NotFound)),
        "Error: Ollama not found"
    );
}

#[test]
fn located_path_means_installed() {
    let r = Some("ollama".to_string());
    assert!(check_ollama_installed(&r));
}

#[test]
fn successful_run_returns_stdout_verbatim() {
    let outcome = interpret_output(
        true,
        "NAME  ID  SIZE\n".to_string(),
        "ignored warning\n".to_string(),
    );
    let text = run_ollama_command(outcome);
    assert_eq!(text, "NAME  ID  SIZE\n");
    assert!(!text.starts_with("Error: "));
}

#[test]
fn failed_run_returns_tagged_stderr() {
    let outcome = interpret_output(false, "partial\n".to_string(), "model not found\n".to_string());
    let text = run_ollama_command(outcome);
    assert_eq!(text, "Error: model not found\n");
    assert!(text.starts_with("Error: "));
    assert!(text.contains("model not found\n"));
}

#[test]
fn spawn_failure_returns_tagged_os_error() {
    let text = run_ollama_command(Err(OllamaError::Spawn {
        message: "No such file or directory (os error 2)".to_string(),
    }));
    assert_eq!(text, "Error: No such file or directory (os error 2)");
}

#[test]
fn install_trigger_reports_success_either_way() {
    assert!(install_ollama(true));
    assert!(install_ollama(false));
}

#[test]
fn download_url_is_fixed() {
    assert_eq!(download_url(), "https://ollama.com/download");
}

#[test]
fn os_names_map_to_platforms() {
    assert_eq!(detect_os("windows"), Os::Windows);
    assert_eq!(detect_os("macos"), Os::MacOs);
    assert_eq!(detect_os("linux"), Os::Linux);
    assert_eq!(detect_os("plan9"), Os::Unsupported);
    assert_eq!(detect_os(""), Os::Unsupported);
}

fn command_parts(c: &ShellCommand) -> (String, Vec<String>) {
    (c.program.clone(), c.args.clone())
}

#[test]
fn windows_plan_has_three_separate_steps() {
    let plan = bootstrap_plan(Os::Windows);
    assert_eq!(plan.len(), 3);
    assert_eq!(
        command_parts(&plan[0]),
        (
            "cmd".to_string(),
            vec!["/C".to_string(), "winget install -e --id Ollama.Ollama".to_string()]
        )
    );
    assert_eq!(
        command_parts(&plan[1]),
        (
            "cmd".to_string(),
            vec!["/C".to_string(), "ollama pull deepseek-r1:1.5b".to_string()]
        )
    );
    assert_eq!(
        command_parts(&plan[2]),
        ("cmd".to_string(), vec!["/C".to_string(), "ollama list".to_string()])
    );
}

#[test]
fn unix_plan_is_one_chained_line() {
    let line = "curl -fsSL https://ollama.com/install.sh | sh && ollama pull deepseek-r1:1.5b && ollama list";
    for os in [Os::MacOs, Os::Linux] {
        let plan = bootstrap_plan(os);
        assert_eq!(plan.len(), 1);
        assert_eq!(
            command_parts(&plan[0]),
            ("sh".to_string(), vec!["-c".to_string(), line.to_string()])
        );
    }
}

#[test]
fn unsupported_plan_is_empty() {
    assert_eq!(bootstrap_plan(Os::Unsupported).len(), 0);
}

#[test]
fn windows_install_failure_aborts_remaining_steps() {
    let mut seq = match bootstrap_init("windows") {
        Ok(s) => s,
        Err(m) => panic!("expected a sequencer, got refusal: {m}"),
    };
    let first = seq.next_command().expect("install step expected");
    assert_eq!(first.program, "cmd");
    assert_eq!(
        first.args,
        vec!["/C".to_string(), "winget install -e --id Ollama.Ollama".to_string()]
    );
    seq.record_step(false);
    assert!(seq.next_command().is_none());
    assert!(!seq.finished_ok());
    assert_eq!(bootstrap_exit_code(seq.finished_ok()), 1);
}

#[test]
fn windows_full_success_exits_zero() {
    let mut seq = Sequencer::new(bootstrap_plan(Os::Windows));
    let mut issued: Vec<String> = Vec::new();
    loop {
        let arg = match seq.next_command() {
            Some(c) => c.args[1].clone(),
            None => break,
        };
        issued.push(arg);
        seq.record_step(true);
    }
    assert_eq!(
        issued,
        vec![
            "winget install -e --id Ollama.Ollama".to_string(),
            "ollama pull deepseek-r1:1.5b".to_string(),
            "ollama list".to_string()
        ]
    );
    assert!(seq.finished_ok());
    assert_eq!(bootstrap_exit_code(true), 0);
    assert_eq!(
        completion_message(),
        "Done! Ollama installed, model pulled, and models listed."
    );
}

#[test]
fn unsupported_os_runs_no_command() {
    match bootstrap_init("plan9") {
        Ok(_) => panic!("plan9 must be refused"),
        Err(m) => assert_eq!(m, "Unsupported OS: plan9"),
    }
    assert_eq!(bootstrap_exit_code(false), 1);
}

#[test]
fn failure_messages_carry_their_detail() {
    assert_eq!(unsupported_os_message("plan9"), "Unsupported OS: plan9");
    assert_eq!(
        spawn_failure_message("No such file or directory (os error 2)"),
        "Failed to start command: No such file or directory (os error 2)"
    );
    assert_eq!(
        step_failure_message("Some(1)"),
        "Command failed with exit code: Some(1)"
    );
}
