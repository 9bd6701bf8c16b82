use unspoken_cli::chat::{Body, ChatClient, ChatClientConfig, Delivery, Message, Role};
use unspoken_cli::config::{ConfigError, ConfigFile, ConfigLocation, FileRead, Origin};
use unspoken_cli::repl::{
    launch, Abort, Action, Event, Phase, Repl, Step, ASSISTANT_LABEL, ERROR_LABEL, EXIT_FAILURE,
    EXIT_SUCCESS, PROMPT_LABEL,
};
use unspoken_cli::settings::Args;
use unspoken_cli::style::{Span, Style};

fn span(style: Style, text: &str) -> Span {
    Span { style, text: text.to_string() }
}

fn prompt() -> Vec<Span> {
    vec![span(Style::Prompt, "You:"), span(Style::Plain, " ")]
}

fn session(system_message: Option<&str>) -> ChatClient {
    ChatClient::new(
        "key".to_string(),
        ChatClientConfig {
            api_url: "https://example.test/chat".to_string(),
            model: "gpt-4o".to_string(),
            system_message: system_message.map(|s| s.to_string()),
        },
    )
}

fn answer(reply: &str) -> Delivery {
    Delivery::Response { status: 200, body: Body::Completion { choices: vec![reply.to_string()] } }
}

fn written(spans: &[Span]) -> String {
    colored::control::set_override(false);
    spans.iter().map(|s| s.paint()).collect()
}

#[test]
fn styles_paint_nothing_where_colours_are_off() {
    assert_eq!(written(&[span(Style::Prompt, "You:")]), "You:");
    assert_eq!(written(&[span(Style::Assistant, "Assistant:")]), "Assistant:");
    assert_eq!(written(&[span(Style::Warning, "Error:")]), "Error:");
    assert_eq!(written(&[span(Style::Plain, "\n\n")]), "\n\n");
}

#[test]
fn text_is_written_as_it_is_where_colours_are_off() {
    for style in [Style::Plain, Style::Prompt, Style::Assistant, Style::Warning] {
        for text in ["You:", "", "a\nb", "with \u{1b}[0m inside"] {
            assert_eq!(written(&[span(style, text)]), text);
        }
    }
}

#[test]
fn labels_have_their_documented_values() {
    assert_eq!(PROMPT_LABEL, "You:");
    assert_eq!(ASSISTANT_LABEL, "Assistant:");
    assert_eq!(ERROR_LABEL, "Error:");
    assert_eq!(EXIT_SUCCESS, 0);
    assert_eq!(EXIT_FAILURE, 1);
}

#[test]
fn start_prints_the_prompt_and_awaits_input() {
    let (repl, step) = Repl::start(session(None));
    assert_eq!(repl.phase(), Phase::AwaitingInput);
    assert_eq!(step, Step { stderr: vec![], stdout: prompt(), action: Action::ReadLine });
    assert_eq!(written(&step.stdout), "You: ");
}

#[test]
fn hello_then_end_of_input() {
    let (mut repl, opening) = Repl::start(session(None));
    let mut stdout = written(&opening.stdout);
    let mut stderr = written(&opening.stderr);

    let sent = repl.step(Event::Line("Hello".to_string())).unwrap();
    stdout += &written(&sent.stdout);
    stderr += &written(&sent.stderr);
    let request = match sent.action {
        Action::Send(request) => request,
        other => panic!("expected a request, got {:?}", other),
    };
    assert_eq!(request.messages, vec![Message { role: Role::User, content: "Hello".to_string() }]);
    assert_eq!(repl.phase(), Phase::Processing);

    let replied = repl.step(Event::Delivered(answer("Hi there!"))).unwrap();
    stdout += &written(&replied.stdout);
    stderr += &written(&replied.stderr);
    assert_eq!(replied.action, Action::ReadLine);
    assert_eq!(
        replied.stdout,
        vec![
            span(Style::Plain, "\n"),
            span(Style::Assistant, "Assistant:"),
            span(Style::Plain, " "),
            span(Style::Plain, "Hi there!"),
            span(Style::Plain, "\n\n"),
            span(Style::Prompt, "You:"),
            span(Style::Plain, " "),
        ]
    );

    let ended = repl.step(Event::EndOfInput).unwrap();
    stdout += &written(&ended.stdout);
    stderr += &written(&ended.stderr);
    assert_eq!(ended.action, Action::Exit { status: 0 });
    assert_eq!(repl.phase(), Phase::Finished);

    assert_eq!(stdout, "You: \nAssistant: Hi there!\n\nYou: \n");
    assert_eq!(stderr, "");
    assert_eq!(stdout.matches("You:").count(), 2);
    assert!(stdout.lines().any(|line| line.ends_with("Hi there!")));
}

#[test]
fn http_error_is_reported_and_the_loop_goes_on() {
    let (mut repl, _) = Repl::start(session(None));
    repl.step(Event::Line("Hello".to_string())).unwrap();
    let failed = repl
        .step(Event::Delivered(Delivery::Response {
            status: 500,
            body: Body::Malformed { cause: "not a completion".to_string() },
        }))
        .unwrap();
    assert_eq!(
        failed.stderr,
        vec![
            span(Style::Warning, "Error:"),
            span(Style::Plain, " "),
            span(Style::Warning, "endpoint answered with status 500"),
            span(Style::Plain, "\n"),
        ]
    );
    assert_eq!(failed.stdout, prompt());
    assert_eq!(failed.action, Action::ReadLine);
    assert_eq!(written(&failed.stderr), "Error: endpoint answered with status 500\n");
    assert_eq!(written(&failed.stdout), "You: ");
    assert_eq!(repl.phase(), Phase::AwaitingInput);

    let next = repl.step(Event::Line("Are you there?".to_string())).unwrap();
    match next.action {
        Action::Send(request) => assert_eq!(
            request.messages,
            vec![
                Message { role: Role::User, content: "Hello".to_string() },
                Message { role: Role::User, content: "Are you there?".to_string() },
            ]
        ),
        other => panic!("expected a request, got {:?}", other),
    }
    let replied = repl.step(Event::Delivered(answer("Yes."))).unwrap();
    assert_eq!(written(&replied.stdout), "\nAssistant: Yes.\n\nYou: ");
}

#[test]
fn network_failure_is_reported_on_the_error_stream() {
    let (mut repl, _) = Repl::start(session(None));
    repl.step(Event::Line("Hello".to_string())).unwrap();
    let failed = repl
        .step(Event::Delivered(Delivery::Unreachable { cause: "connection refused".to_string() }))
        .unwrap();
    assert_eq!(written(&failed.stderr), "Error: request failed: connection refused\n");
    assert_eq!(written(&failed.stdout), "You: ");
}

#[test]
fn empty_line_is_forwarded_as_it_is() {
    let (mut repl, _) = Repl::start(session(Some("sys")));
    let sent = repl.step(Event::Line(String::new())).unwrap();
    assert!(sent.stdout.is_empty());
    assert!(sent.stderr.is_empty());
    match sent.action {
        Action::Send(request) => assert_eq!(
            request.messages,
            vec![
                Message { role: Role::System, content: "sys".to_string() },
                Message { role: Role::User, content: String::new() },
            ]
        ),
        other => panic!("expected a request, got {:?}", other),
    }
}

#[test]
fn end_of_input_right_away_exits_cleanly() {
    let (mut repl, _) = Repl::start(session(None));
    let ended = repl.step(Event::EndOfInput).unwrap();
    assert_eq!(
        ended,
        Step {
            stderr: vec![],
            stdout: vec![span(Style::Plain, "\n")],
            action: Action::Exit { status: 0 }
        }
    );
    assert!(repl.chat().history().is_empty());
}

#[test]
fn events_that_do_not_fit_the_phase_are_refused() {
    let (mut repl, _) = Repl::start(session(None));
    assert_eq!(repl.step(Event::Delivered(answer("early"))), None);
    assert_eq!(repl.phase(), Phase::AwaitingInput);
    assert!(repl.chat().history().is_empty());

    repl.step(Event::Line("Hello".to_string())).unwrap();
    assert_eq!(repl.step(Event::Line("again".to_string())), None);
    assert_eq!(repl.step(Event::EndOfInput), None);
    assert_eq!(repl.phase(), Phase::Processing);
    assert_eq!(repl.chat().history().len(), 1);

    repl.step(Event::Delivered(answer("Hi"))).unwrap();
    repl.step(Event::EndOfInput).unwrap();
    assert_eq!(repl.step(Event::Line("late".to_string())), None);
    assert_eq!(repl.step(Event::EndOfInput), None);
    assert_eq!(repl.step(Event::Delivered(answer("late"))), None);
    assert_eq!(repl.phase(), Phase::Finished);
    assert_eq!(repl.chat().history().len(), 2);
}

#[test]
fn launch_opens_the_loop_with_the_resolved_settings() {
    let args = Args {
        url: None,
        model: Some("gpt-4o-mini".to_string()),
        system: None,
        config: Some("/etc/chat.toml".to_string()),
    };
    let file = ConfigFile {
        location: ConfigLocation { path: "/etc/chat.toml".to_string(), origin: Origin::Explicit },
        read: FileRead::Contents(
            "api_key = \"k\"\nmodel = \"gpt-4o\"\nsystem_message = \"Be brief.\"\n".to_string(),
        ),
    };
    let (mut repl, opening) = launch(args, Some(file), None).unwrap();
    assert_eq!(opening, Step { stderr: vec![], stdout: prompt(), action: Action::ReadLine });
    assert_eq!(repl.chat().model(), "gpt-4o-mini");
    assert_eq!(repl.chat().api_url(), "https://models.inference.ai.azure.com/");
    let sent = repl.step(Event::Line("Hello".to_string())).unwrap();
    match sent.action {
        Action::Send(request) => {
            assert_eq!(request.api_key, "k");
            assert_eq!(request.model, "gpt-4o-mini");
            assert_eq!(request.url, "https://models.inference.ai.azure.com/");
            assert_eq!(
                request.messages,
                vec![
                    Message { role: Role::System, content: "Be brief.".to_string() },
                    Message { role: Role::User, content: "Hello".to_string() },
                ]
            );
        }
        other => panic!("expected a request, got {:?}", other),
    }
}

#[test]
fn launch_without_api_key_opens_no_loop() {
    let args = Args { url: None, model: None, system: None, config: None };
    match launch(args, None, None) {
        Err(abort) => {
            assert_eq!(abort, Abort { error: ConfigError::MissingApiKey, status: 1 });
            assert_eq!(abort.error.message(), "Set `api_key` in config or `OPENAI_API_KEY` env.");
        }
        Ok(_) => panic!("a loop was opened without an API key"),
    }
}

#[test]
fn launch_with_missing_named_file_opens_no_loop() {
    let args = Args { url: None, model: None, system: None, config: Some("/nope.toml".to_string()) };
    let file = ConfigFile {
        location: ConfigLocation { path: "/nope.toml".to_string(), origin: Origin::Explicit },
        read: FileRead::NotFound { cause: "No such file or directory".to_string() },
    };
    match launch(args, Some(file), Some("env-key".to_string())) {
        Err(abort) => {
            assert_eq!(abort.error.message(), "Failed to read config file /nope.toml");
            assert_eq!(
                abort.error,
                ConfigError::ReadFailed {
                    path: "/nope.toml".to_string(),
                    cause: "No such file or directory".to_string(),
                }
            );
            assert_ne!(abort.status, EXIT_SUCCESS);
        }
        Ok(_) => panic!("a loop was opened without the named file"),
    }
}

#[test]
fn launch_with_missing_per_user_file_opens_the_loop() {
    let args = Args { url: None, model: None, system: None, config: None };
    let file = ConfigFile {
        location: ConfigLocation {
            path: "/home/u/.config/unspoken.toml".to_string(),
            origin: Origin::Default,
        },
        read: FileRead::NotFound { cause: "No such file or directory".to_string() },
    };
    let (repl, opening) = launch(args, Some(file), Some("env-key".to_string())).unwrap();
    assert_eq!(opening.action, Action::ReadLine);
    assert_eq!(repl.chat().model(), "gpt-4o");
    assert!(repl.chat().history().is_empty());
}

#[test]
fn api_key_reaches_no_output() {
    let chat = ChatClient::new(
        "s3cr3t-key".to_string(),
        ChatClientConfig { api_url: "u".to_string(), model: "m".to_string(), system_message: None },
    );
    let (mut repl, opening) = Repl::start(chat);
    let mut output = written(&opening.stdout) + &written(&opening.stderr);
    let events = vec![
        Event::Line("Hello".to_string()),
        Event::Delivered(answer("Hi")),
        Event::Line("again".to_string()),
        Event::Delivered(Delivery::Response {
            status: 403,
            body: Body::Malformed { cause: "x".to_string() },
        }),
        Event::EndOfInput,
    ];
    for event in events {
        let step = repl.step(event).unwrap();
        output += &written(&step.stdout);
        output += &written(&step.stderr);
    }
    assert!(!output.contains("s3cr3t-key"));
}
