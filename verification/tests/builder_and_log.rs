use single_flight::brain::Brain;
use single_flight::completion_parser::Choice;
use single_flight::completion_parser::Completion;
use single_flight::completion_parser::CompletionParser;
use single_flight::completion_parser::ParserKind;
use single_flight::log::Log;
use single_flight::log::LogType;
use single_flight::prompt_builder::CompletionPrompt;
use single_flight::prompt_builder::Prompt;
use single_flight::prompt_builder::PromptBuilder;
use single_flight::prompt_builder::TranslationPrompt;

const BUILD_ERROR: &str = "Failed to build prompt: max_tokens must not exceed 2048";

#[test]
fn translation_builds_instruction_text() {
    let builder = PromptBuilder::new();
    let mut log = Log::new();
    let prompt = Prompt::Translation(TranslationPrompt::new(
        "Hello".to_string(),
        "French".to_string(),
    ));

    let params = builder.build_prompt(&mut log, &prompt).expect("valid prompt must build");
    assert_eq!(params.engine, "text-davinci-002");
    assert_eq!(
        params.prompt,
        "Please translate the following text into French: Hello Translation:"
    );
    assert_eq!(params.max_tokens, 2);
    assert_eq!(params.temperature_milli, 400);
    assert!(params.stop.is_empty());
    assert_eq!(log.current_version(), 0);
    assert_eq!(log.using_lines().len(), 0);
}

#[test]
fn completion_prompt_passes_through() {
    let builder = PromptBuilder::new();
    let mut log = Log::new();
    let prompt = Prompt::Completion(CompletionPrompt::new(
        "Once upon a time".to_string(),
        64,
        900,
        vec!["\n".to_string(), "The End".to_string()],
    ));

    let params = builder.build_prompt(&mut log, &prompt).expect("valid prompt must build");
    assert_eq!(params.engine, "text-davinci-002");
    assert_eq!(params.prompt, "Once upon a time");
    assert_eq!(params.max_tokens, 64);
    assert_eq!(params.temperature_milli, 900);
    assert_eq!(params.stop, vec!["\n".to_string(), "The End".to_string()]);
    assert_eq!(log.using_lines().len(), 0);
}

#[test]
fn oversized_prompt_fails_to_build() {
    let builder = PromptBuilder::new();
    let mut log = Log::new();
    let prompt = Prompt::Completion(CompletionPrompt::new(
        "way too much".to_string(),
        2049,
        0,
        Vec::new(),
    ));

    assert!(builder.build_prompt(&mut log, &prompt).is_none());
    let lines = log.using_lines();
    assert_eq!(lines.len(), 1);
    assert_eq!(lines[0], (LogType::Error, BUILD_ERROR.to_string()));
    assert_eq!(log.current_version(), 1);
}

#[test]
fn largest_allowed_bound_still_builds() {
    let builder = PromptBuilder::new();
    let mut log = Log::new();
    let prompt = Prompt::Completion(CompletionPrompt::new(
        "right at the bound".to_string(),
        2048,
        0,
        Vec::new(),
    ));
    assert!(builder.build_prompt(&mut log, &prompt).is_some());
    assert_eq!(log.using_lines().len(), 0);
}

#[test]
fn oversized_submission_is_rejected_with_one_error_line() {
    let mut brain = Brain::new();
    let mut log = Log::new();
    let prompt = Prompt::Completion(CompletionPrompt::new(
        "way too much".to_string(),
        4096,
        0,
        Vec::new(),
    ));

    assert!(!brain.submit_prompt(&mut log, &prompt));
    assert!(!brain.brain_receiver().waiting());
    assert!(brain.get_completion().is_none());
    let lines = log.using_lines();
    assert_eq!(lines.len(), 1);
    assert_eq!(lines[0], (LogType::Error, BUILD_ERROR.to_string()));
}

#[test]
fn translation_output_bound_is_half_the_characters() {
    assert_eq!(TranslationPrompt::new("Hello".to_string(), "French".to_string()).max_tokens, 2);
    assert_eq!(TranslationPrompt::new("ab".to_string(), "French".to_string()).max_tokens, 1);
    assert_eq!(TranslationPrompt::new(String::new(), "French".to_string()).max_tokens, 0);
    let long = "x".repeat(5000);
    assert_eq!(TranslationPrompt::new(long, "French".to_string()).max_tokens, 2048);
}

#[test]
fn parser_takes_the_first_choice_verbatim() {
    let parser = CompletionParser::new(ParserKind::Completion);
    let completion = Completion {
        choices: vec![
            Choice { text: " first ".to_string() },
            Choice { text: "second".to_string() },
        ],
    };
    assert_eq!(parser.parse(&completion), Some(" first ".to_string()));
}

#[test]
fn parser_reports_missing_choices() {
    let parser = CompletionParser::new(ParserKind::Translation);
    let completion = Completion { choices: Vec::new() };
    assert_eq!(parser.parse(&completion), None);
}

#[test]
fn log_keeps_kinds_and_order() {
    let mut log = Log::new();
    log.write_info("ready".to_string());
    log.write_input("hello".to_string());
    log.write_story("once".to_string());
    log.write_error("oops".to_string());
    log.write(LogType::Story, "twice".to_string());

    let lines = log.using_lines();
    assert_eq!(
        lines,
        vec![
            (LogType::Info, "ready".to_string()),
            (LogType::Input, "hello".to_string()),
            (LogType::Story, "once".to_string()),
            (LogType::Error, "oops".to_string()),
            (LogType::Story, "twice".to_string()),
        ]
    );
    assert_eq!(log.len(), 5);
    assert_eq!(log.current_version(), 5);
}

#[test]
fn log_clear_empties_and_bumps_version() {
    let mut log = Log::new();
    log.write_story("once".to_string());
    assert_eq!(log.current_version(), 1);
    log.clear();
    assert_eq!(log.using_lines().len(), 0);
    assert_eq!(log.len(), 0);
    assert_eq!(log.current_version(), 2);
}

#[test]
fn log_version_grows_with_every_mutation() {
    let mut log = Log::new();
    assert_eq!(log.current_version(), 0);
    let mut expected = 0u64;
    for _ in 0..3 {
        log.write_info("line".to_string());
        expected += 1;
        assert_eq!(log.current_version(), expected);
    }
    log.clear();
    expected += 1;
    assert_eq!(log.current_version(), expected);
}

#[test]
fn render_prefixes_each_kind() {
    let mut log = Log::new();
    log.write_info("ready".to_string());
    log.write_input("hello".to_string());
    log.write_story("once".to_string());
    log.write_error("oops".to_string());
    assert_eq!(log.render(), "INFO: ready\n> hello\nonce\nERROR: oops\n");
    log.clear();
    assert_eq!(log.render(), "");
}
