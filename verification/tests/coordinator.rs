use single_flight::app::App;
use single_flight::brain::Brain;
use single_flight::brain::ServiceError;
use single_flight::completion_parser::Choice;
use single_flight::completion_parser::Completion;
use single_flight::completion_parser::ParserKind;
use single_flight::log::Log;
use single_flight::log::LogType;
use single_flight::prompt_builder::CompletionPrompt;
use single_flight::prompt_builder::Prompt;
use single_flight::prompt_builder::TranslationPrompt;

fn completion_of(texts: &[&str]) -> Completion {
    Completion {
        choices: texts.iter().map(|t| Choice { text: (*t).to_string() }).collect(),
    }
}

fn translation(text: &str, language: &str) -> Prompt {
    Prompt::Translation(TranslationPrompt::new(text.to_string(), language.to_string()))
}

#[test]
fn translation_round_trip() {
    let mut app = App::new();
    app.input = "Hello".to_string();
    app.language = "French".to_string();

    assert!(app.submit_input());
    assert_eq!(app.input, "");
    assert!(app.brain_receiver().waiting());

    // The call is still in flight: polling drains nothing.
    assert!(!app.tick());
    assert!(app.brain_receiver().waiting());

    app.resolve_completion(Ok(completion_of(&["Bonjour"])));
    assert!(!app.brain_receiver().waiting());

    assert!(app.tick());
    let lines = app.log.using_lines();
    assert_eq!(lines.len(), 2);
    assert_eq!(lines[0], (LogType::Input, "Hello".to_string()));
    assert_eq!(lines[1], (LogType::Story, "Bonjour".to_string()));
}

#[test]
fn submit_while_busy_is_rejected() {
    let mut brain = Brain::new();
    let mut log = Log::new();

    assert!(brain.submit_prompt(&mut log, &translation("Hello", "French")));
    assert!(brain.brain_receiver().waiting());
    let version_before = log.current_version();

    // A second submission while one is in flight is refused silently.
    assert!(!brain.submit_prompt(&mut log, &translation("Goodbye", "German")));
    assert_eq!(log.current_version(), version_before);
    assert_eq!(log.using_lines().len(), 0);
    assert!(brain.brain_receiver().waiting());

    // The original task is undisturbed: it still resolves and drains.
    brain.resolve(Ok(completion_of(&["Bonjour"])));
    let (parser, outcome) = brain.get_completion().expect("finished task must drain");
    assert_eq!(parser.kind, ParserKind::Translation);
    assert_eq!(outcome.unwrap().choices[0].text, "Bonjour");
}

#[test]
fn drain_happens_exactly_once() {
    let mut brain = Brain::new();
    let mut log = Log::new();

    assert!(brain.submit_prompt(&mut log, &translation("Hello", "French")));
    brain.resolve(Ok(completion_of(&["Bonjour"])));

    assert!(brain.get_completion().is_some());
    assert!(brain.get_completion().is_none());
    assert!(!brain.brain_receiver().waiting());
}

#[test]
fn drain_on_idle_receiver_returns_nothing() {
    let mut brain = Brain::new();
    assert!(!brain.brain_receiver().waiting());
    assert!(brain.get_completion().is_none());
    assert!(brain.get_completion().is_none());
}

#[test]
fn busy_flag_lifecycle() {
    let mut brain = Brain::new();
    let mut log = Log::new();

    assert!(!brain.brain_receiver().waiting());
    assert!(brain.submit_prompt(&mut log, &translation("Hello", "French")));
    assert!(brain.brain_receiver().waiting());

    // Draining never disturbs a running task.
    assert!(brain.get_completion().is_none());
    assert!(brain.brain_receiver().waiting());

    brain.resolve(Ok(completion_of(&["Bonjour"])));
    assert!(!brain.brain_receiver().waiting());

    assert!(brain.get_completion().is_some());
    assert!(!brain.brain_receiver().waiting());
}

#[test]
fn decoder_follows_the_prompt_variant() {
    let mut brain = Brain::new();
    let mut log = Log::new();

    let direct = Prompt::Completion(CompletionPrompt::new(
        "Once upon a time".to_string(),
        64,
        700,
        vec!["\n".to_string()],
    ));
    assert!(brain.submit_prompt(&mut log, &direct));
    brain.resolve(Ok(completion_of(&["..."])));
    let (parser, _) = brain.get_completion().unwrap();
    assert_eq!(parser.kind, ParserKind::Completion);

    assert!(brain.submit_prompt(&mut log, &translation("Hello", "French")));
    brain.resolve(Ok(completion_of(&["Bonjour"])));
    let (parser, _) = brain.get_completion().unwrap();
    assert_eq!(parser.kind, ParserKind::Translation);
}

#[test]
fn service_failure_is_logged_as_error() {
    let mut app = App::new();
    app.input = "Hello".to_string();
    app.language = "French".to_string();

    assert!(app.submit_input());
    app.resolve_completion(Err(ServiceError { message: "quota exceeded".to_string() }));
    assert!(app.tick());

    let lines = app.log.using_lines();
    assert_eq!(lines.len(), 2);
    assert_eq!(lines[1], (LogType::Error, "quota exceeded".to_string()));
    assert!(!app.brain_receiver().waiting());
}

#[test]
fn response_without_choices_is_logged_as_error() {
    let mut app = App::new();
    app.input = "Hello".to_string();
    app.language = "French".to_string();

    assert!(app.submit_input());
    app.resolve_completion(Ok(completion_of(&[])));
    assert!(app.tick());

    let lines = app.log.using_lines();
    assert_eq!(lines.len(), 2);
    assert_eq!(
        lines[1],
        (LogType::Error, "Completion contained no choices".to_string())
    );
}

#[test]
fn second_submission_possible_after_drain() {
    let mut app = App::new();
    app.input = "Hello".to_string();
    app.language = "French".to_string();
    assert!(app.submit_input());

    // While busy, a new submission is refused and the input stays put.
    app.input = "Goodbye".to_string();
    assert!(!app.submit_input());
    assert_eq!(app.input, "Goodbye");

    app.resolve_completion(Ok(completion_of(&["Bonjour"])));
    assert!(app.tick());

    // After the drain the coordinator accepts again.
    assert!(app.submit_input());
    assert_eq!(app.input, "");
    assert!(app.brain_receiver().waiting());
}
